use teamwork::api::my_backup_codes::{code_texts, regenerate_backup_codes_plan, token_check, ResponseError};
use teamwork::api::my_teams::{update_team_plan, UpdateTeamRequest};
use teamwork::authentication::AuthenticationError;
use teamwork::token::RawToken;
use teamwork::api::plan::Stamps;
use teamwork::backup_code::{BackupCode, BackupCodeError};
use teamwork::backup_codes::{batch_complete, code_from_draw, generate_code, hex_prefix, next_codes, BACKUP_CODE_COUNT};

#[test]
fn hex_of_prefix() {
    assert_eq!(hex_prefix(&vec![0xab, 0x01, 0xff], 2), "ab01");
    assert_eq!(hex_prefix(&vec![0x00], 1), "00");
    assert_eq!(hex_prefix(&vec![0x10], 0), "");
}

#[test]
fn code_is_digest_prefix_of_seed() {
    assert_eq!(code_from_draw(0, 0), "20fdf64da3cd2c");
    assert_eq!(code_from_draw(1700000000, 42017), "579eb5787339b1");
    assert_eq!(code_from_draw(-5, 123), "2d450600b2d63f");
}

#[test]
fn generated_code_shape() {
    let c = generate_code(1700000000);
    assert_eq!(c.len(), 14);
    assert!(c.chars().all(|ch| ch.is_ascii_digit() || ('a'..='f').contains(&ch)));
    assert_eq!(BACKUP_CODE_COUNT, 10);
}

#[test]
fn regeneration_deletes_then_inserts_then_lists() {
    let stamps = Stamps { now: "now".to_string(), expires: "later".to_string() };
    let codes = vec!["c1".to_string(), "c2".to_string()];
    let steps = regenerate_backup_codes_plan(&"u1".to_string(), &codes, &stamps);
    assert_eq!(steps.len(), 5);
    assert_eq!(
        steps[1].query.sql,
        "UPDATE backup_codes SET archived_at = CAST($2 AS TIMESTAMP) WHERE user_id = $1"
    );
    assert!(steps[2].query.sql.starts_with("INSERT INTO backup_codes (code, user_id, id, created_at, updated_at)"));
    assert_eq!(steps[2].query.binds[0].bind_text(), Some("c1".to_string()));
    assert_eq!(steps[3].query.binds[0].bind_text(), Some("c2".to_string()));
    assert_eq!(
        steps[4].query.sql,
        "SELECT * FROM backup_codes WHERE archived_at IS NULL AND user_id = $1 ORDER BY created_at ASC"
    );
}

#[test]
fn listed_codes_skip_empty_rows() {
    let row = |code: Option<&str>| BackupCode {
        id: Some("i".to_string()),
        code: code.map(|c| c.to_string()),
        user_id: Some("u".to_string()),
        created_at: None,
        updated_at: None,
        archived_at: None,
    };
    assert_eq!(code_texts(&vec![row(Some("a")), row(None), row(Some("b"))]), vec!["a", "b"]);
}

#[test]
fn backup_code_error_messages() {
    assert_eq!(BackupCodeError::CodeNotFound.to_string(), "Code not found");
    assert_eq!(BackupCodeError::CodeDeletionFailed.to_string(), "Code deletion failed");
    assert_eq!(BackupCodeError::CodeAlreadyUsed.to_string(), "Code already used");
}

#[test]
fn batch_grows_only_with_unused_codes() {
    let codes = next_codes(vec![], "a".to_string(), Some(0));
    assert_eq!(codes, vec!["a"]);
    let codes = next_codes(codes, "b".to_string(), Some(1));
    assert_eq!(codes, vec!["a"]);
    let codes = next_codes(codes, "c".to_string(), None);
    assert_eq!(codes, vec!["a"]);
    assert!(!batch_complete(&codes));
    let full: Vec<String> = (0..10).map(|i| i.to_string()).collect();
    assert!(batch_complete(&full));
    assert_eq!(next_codes(full.clone(), "x".to_string(), Some(0)), full);
}

#[test]
fn missing_token_is_a_bad_request() {
    assert!(matches!(
        token_check(&RawToken { value: String::new() }),
        Some((400, ResponseError::Authentication(AuthenticationError::InvalidToken)))
    ));
    assert!(token_check(&RawToken { value: "t".to_string() }).is_none());
}

#[test]
fn update_leaves_out_absent_fields() {
    let stamps = Stamps { now: "now".to_string(), expires: "later".to_string() };
    let request = UpdateTeamRequest { team_name: Some("B".to_string()), team_description: None };
    let steps = update_team_plan(&"u1".to_string(), &"t1".to_string(), &request, &stamps);
    assert_eq!(
        steps[2].query.sql,
        "UPDATE teams SET team_name = $1, updated_at = CAST($2 AS TIMESTAMP) WHERE id = $3 RETURNING *"
    );
    let none = UpdateTeamRequest { team_name: None, team_description: None };
    let steps = update_team_plan(&"u1".to_string(), &"t1".to_string(), &none, &stamps);
    assert_eq!(steps[2].query.sql, "UPDATE teams SET updated_at = CAST($1 AS TIMESTAMP) WHERE id = $2 RETURNING *");
}

#[test]
fn password_hash_length() {
    let h = teamwork::passwords::hash_password("");
    assert_eq!(h.len(), 128);
    assert!(h.chars().all(|c| c.is_ascii_digit() || ('a'..='f').contains(&c)));
}
