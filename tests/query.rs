use teamwork::activity::Activity;
use teamwork::authentication::Authentication;
use teamwork::backup_code::BackupCode;
use teamwork::query::{
    delete_query, find_query, insert_query, join_query, table_name, update_query, ArchiveFilter,
    Param,
};
use teamwork::team::Team;
use teamwork::team_user::TeamUser;
use teamwork::user::User;
use teamwork::user_skill::UserSkill;
use teamwork::values::DatabaseValue;

fn text(name: &str, value: &str) -> Param {
    (name.to_string(), DatabaseValue::String(value.to_string()))
}

fn bound(q: &teamwork::query::Query) -> Vec<Option<String>> {
    q.binds.iter().map(|v| v.bind_text()).collect()
}

#[test]
fn table_names_are_plural_snake_case() {
    assert_eq!(table_name::<User>(), "users");
    assert_eq!(table_name::<Activity>(), "activities");
    assert_eq!(table_name::<BackupCode>(), "backup_codes");
    assert_eq!(table_name::<UserSkill>(), "user_skills");
    assert_eq!(table_name::<TeamUser>(), "team_users");
    assert_eq!(table_name::<Authentication>(), "authentications");
}

#[test]
fn find_one_unarchived_by_id() {
    let q = find_query::<User>(&vec![text("id", "u1")], ArchiveFilter::Unarchived, "created_at ASC", true);
    assert_eq!(
        q.sql,
        "SELECT * FROM users WHERE archived_at IS NULL AND id = $1 ORDER BY created_at ASC LIMIT 1"
    );
    assert_eq!(bound(&q), vec![Some("u1".to_string())]);
}

#[test]
fn find_all_filters_combine_with_and() {
    let q = find_query::<Team>(
        &vec![text("id", "t1"), text("owner_id", "u1")],
        ArchiveFilter::Archived,
        "created_at ASC",
        false,
    );
    assert_eq!(
        q.sql,
        "SELECT * FROM teams WHERE archived_at IS NOT NULL AND id = $1 AND owner_id = $2 ORDER BY created_at ASC"
    );
}

#[test]
fn find_without_filters_has_no_where() {
    let q = find_query::<User>(&vec![], ArchiveFilter::Any, "created_at ASC", false);
    assert_eq!(q.sql, "SELECT * FROM users ORDER BY created_at ASC");
    assert!(q.binds.is_empty());
}

#[test]
fn insert_stamps_id_and_timestamps() {
    let q = insert_query::<Authentication>(
        vec![text("user_id", "u1"), text("token", "tok")],
        &"id-1".to_string(),
        &"2024-01-01T00:00:00Z".to_string(),
        &"2024-01-31T00:00:00Z".to_string(),
    );
    assert_eq!(
        q.sql,
        "INSERT INTO authentications (user_id, token, id, created_at, updated_at, expires_at) VALUES ($1, $2, $3, CAST($4 AS TIMESTAMP), CAST($5 AS TIMESTAMP), CAST($6 AS TIMESTAMP)) RETURNING *"
    );
    assert_eq!(
        bound(&q),
        vec![
            Some("u1".to_string()),
            Some("tok".to_string()),
            Some("id-1".to_string()),
            Some("2024-01-01T00:00:00Z".to_string()),
            Some("2024-01-01T00:00:00Z".to_string()),
            Some("2024-01-31T00:00:00Z".to_string()),
        ]
    );
}

#[test]
fn insert_replaces_a_given_created_at() {
    let q = insert_query::<TeamUser>(
        vec![text("team_id", "t1"), text("user_id", "u1")],
        &"unused".to_string(),
        &"now".to_string(),
        &"later".to_string(),
    );
    assert_eq!(q.sql, "INSERT INTO team_users (team_id, user_id) VALUES ($1, $2) RETURNING *");
    let q = insert_query::<Team>(
        vec![
            ("created_at".to_string(), DatabaseValue::DateTime("old".to_string())),
            ("team_name".to_string(), DatabaseValue::String("A".to_string())),
            ("team_description".to_string(), DatabaseValue::Null),
        ],
        &"id-2".to_string(),
        &"now".to_string(),
        &"later".to_string(),
    );
    assert_eq!(
        q.sql,
        "INSERT INTO teams (created_at, team_name, team_description, id, updated_at) VALUES (CAST($1 AS TIMESTAMP), $2, NULL, $4, CAST($5 AS TIMESTAMP)) RETURNING *"
    );
    assert_eq!(bound(&q)[0], Some("now".to_string()));
    assert_eq!(bound(&q)[2], None);
}

#[test]
fn insert_casts_by_variant() {
    let q = insert_query::<UserSkill>(
        vec![
            ("skill_level".to_string(), DatabaseValue::Int("3".to_string())),
            ("weight".to_string(), DatabaseValue::Int64("9".to_string())),
            ("ratio".to_string(), DatabaseValue::Float("0.5".to_string())),
            ("active".to_string(), DatabaseValue::Boolean("true".to_string())),
            ("label".to_string(), DatabaseValue::Str("x")),
        ],
        &"id".to_string(),
        &"now".to_string(),
        &"later".to_string(),
    );
    assert!(q.sql.contains(
        "VALUES (CAST($1 AS INTEGER), CAST($2 AS BIGINT), CAST($3 AS FLOAT), CAST($4 AS BOOLEAN), $5, $6,"
    ));
}

#[test]
fn update_sets_fields_then_stamps_then_id() {
    let q = update_query::<Activity>(
        vec![("paused_at".to_string(), DatabaseValue::DateTime("now".to_string()))],
        &DatabaseValue::String("a1".to_string()),
        &"now".to_string(),
        &"later".to_string(),
    );
    assert_eq!(
        q.sql,
        "UPDATE activities SET paused_at = CAST($1 AS TIMESTAMP), updated_at = CAST($2 AS TIMESTAMP) WHERE id = $3 RETURNING *"
    );
    assert_eq!(
        bound(&q),
        vec![Some("now".to_string()), Some("now".to_string()), Some("a1".to_string())]
    );
    let q = update_query::<Authentication>(
        vec![],
        &DatabaseValue::String("s1".to_string()),
        &"now".to_string(),
        &"later".to_string(),
    );
    assert_eq!(
        q.sql,
        "UPDATE authentications SET updated_at = CAST($1 AS TIMESTAMP), expires_at = CAST($2 AS TIMESTAMP) WHERE id = $3 RETURNING *"
    );
}

#[test]
fn delete_of_archivable_is_soft() {
    let q = delete_query::<Team>(&vec![text("id", "t1")], &"now".to_string());
    assert_eq!(q.sql, "UPDATE teams SET archived_at = CAST($2 AS TIMESTAMP) WHERE id = $1");
    assert_eq!(bound(&q), vec![Some("t1".to_string()), Some("now".to_string())]);
}

#[test]
fn delete_of_plain_resource_is_real() {
    let q = delete_query::<UserSkill>(&vec![text("id", "s1"), text("user_id", "u1")], &"now".to_string());
    assert_eq!(q.sql, "DELETE FROM user_skills WHERE id = $1 AND user_id = $2");
    assert_eq!(q.binds.len(), 2);
}

#[test]
fn join_by_convention() {
    let q = join_query::<User, Team>(&vec![text("teams.team_id", "t1")]);
    assert_eq!(
        q.sql,
        "SELECT * FROM users JOIN teams ON teams_id = users_id WHERE teams.team_id = $1"
    );
}

#[test]
fn value_encoding() {
    assert_eq!(DatabaseValue::Null.bind_text(), None);
    assert_eq!(DatabaseValue::Str("a").bind_text(), Some("a".to_string()));
    assert_eq!(DatabaseValue::DateTime("t".to_string()).bind_text(), Some("t".to_string()));
    let mut s = String::new();
    DatabaseValue::Int("1".to_string()).push_insert_slot(&mut s, 12);
    assert_eq!(s, "CAST($12 AS INTEGER)");
}

#[test]
fn value_constructors() {
    let v = DatabaseValue::from_pieces(&vec!["ab".to_string(), "".to_string(), "c".to_string()]);
    assert_eq!(v.bind_text(), Some("abc".to_string()));
    assert!(matches!(v, DatabaseValue::String(_)));
    assert_eq!(DatabaseValue::from_bool(true).bind_text(), Some("true".to_string()));
    assert!(matches!(DatabaseValue::from_bool(false), DatabaseValue::Boolean(_)));
    assert_eq!(DatabaseValue::from_i64(-42).bind_text(), Some("-42".to_string()));
    assert_eq!(DatabaseValue::from_i64(i64::MIN).bind_text(), Some("-9223372036854775808".to_string()));
}
