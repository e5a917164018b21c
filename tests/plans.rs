use teamwork::api::my_teams::{create_team_plan, pause_team_activity_plan, CreateTeamRequest, ResponseError};
use teamwork::api::my_user_skills::{create_user_skill_plan, CreateUserSkillRequest};
use teamwork::api::plan::{Expect, Stamps};
use teamwork::api::users::get_users_plan;
use teamwork::api::my_user::update_user_plan;
use teamwork::api::authentications::unregister_plan;
use teamwork::user::User;
use teamwork::team::TeamError;

fn stamps() -> Stamps {
    Stamps { now: "now".to_string(), expires: "later".to_string() }
}

#[test]
fn create_team_inserts_with_generated_id() {
    let steps = create_team_plan(
        &"u1".to_string(),
        &CreateTeamRequest { team_name: "A".to_string(), team_description: None },
        &stamps(),
    );
    assert_eq!(steps.len(), 2);
    assert_eq!(
        steps[1].query.sql,
        "INSERT INTO teams (owner_id, team_name, team_description, id, created_at, updated_at) VALUES ($1, $2, NULL, $4, CAST($5 AS TIMESTAMP), CAST($6 AS TIMESTAMP)) RETURNING *"
    );
    let id = steps[1].query.binds[3].bind_text().unwrap();
    assert_eq!(id.len(), 36);
    assert_eq!(id.chars().nth(14), Some('4'));
    assert_eq!(steps[1].status, 500);
    assert_eq!(steps[1].failure, ResponseError::Team(TeamError::TeamCreationFailed));
}

#[test]
fn pause_checks_team_and_activity_then_updates() {
    let steps = pause_team_activity_plan(&"u1".to_string(), &"t1".to_string(), &"a1".to_string(), &stamps());
    assert_eq!(steps.len(), 4);
    assert_eq!(
        steps[0].query.sql,
        "SELECT * FROM teams WHERE archived_at IS NULL AND id = $1 AND owner_id = $2 ORDER BY created_at ASC LIMIT 1"
    );
    assert_eq!(steps[2].expect, Expect::Execute);
    assert_eq!(
        steps[2].query.sql,
        "UPDATE activities SET paused_at = CAST($1 AS TIMESTAMP), updated_at = CAST($2 AS TIMESTAMP) WHERE id = $3 RETURNING *"
    );
    assert_eq!(
        steps[3].query.sql,
        "SELECT * FROM activities WHERE id = $1 ORDER BY created_at ASC LIMIT 1"
    );
    assert_eq!(steps[3].query.binds[0].bind_text(), Some("a1".to_string()));
}

#[test]
fn skill_names_are_lowercased() {
    let steps = create_user_skill_plan(
        &"u1".to_string(),
        &CreateUserSkillRequest { skill_name: "Rust".to_string(), skill_level: -4 },
        &stamps(),
    );
    assert_eq!(steps[1].query.binds[1].bind_text(), Some("rust".to_string()));
    assert_eq!(steps[1].query.binds[2].bind_text(), Some("-4".to_string()));
}

#[test]
fn users_listing() {
    let steps = get_users_plan();
    assert_eq!(steps[0].query.sql, "SELECT * FROM users WHERE archived_at IS NULL ORDER BY created_at ASC");
}

#[test]
fn user_update_writes_missing_names_empty() {
    let user = User {
        id: None,
        first_name: Some("Ann".to_string()),
        last_name: None,
        username: None,
        created_at: None,
        updated_at: None,
        archived_at: None,
    };
    let steps = update_user_plan(&"u1".to_string(), &user, &stamps());
    assert_eq!(
        steps[1].query.sql,
        "UPDATE users SET first_name = $1, last_name = $2, username = $3, updated_at = CAST($4 AS TIMESTAMP) WHERE id = $5 RETURNING *"
    );
    assert_eq!(steps[1].query.binds[1].bind_text(), Some(String::new()));
    assert_eq!(steps[1].query.binds[2].bind_text(), Some(String::new()));
}

#[test]
fn unregister_finds_user_whatever_its_archive_state() {
    let steps = unregister_plan(&"u1".to_string(), &stamps());
    assert_eq!(steps[0].query.sql, "SELECT * FROM users WHERE id = $1 ORDER BY created_at ASC LIMIT 1");
}
