use teamwork::activity::Activity;
use teamwork::api::my_activities::{check_assignee, ResponseError};
use teamwork::api::teams::{team_access, team_members_query, InvitationResponse, TeamAccess};
use teamwork::capability::{is_available, team_capabilities};
use teamwork::invitation::Invitation;
use teamwork::team::Team;
use teamwork::team_role::TeamRole;
use teamwork::user::User;
use teamwork::user_skill::UserSkill;

fn user(id: &str) -> User {
    User {
        id: Some(id.to_string()),
        first_name: None,
        last_name: None,
        username: Some(id.to_string()),
        created_at: None,
        updated_at: None,
        archived_at: None,
    }
}

fn skill(user: &str, name: &str, level: i32) -> UserSkill {
    UserSkill {
        id: None,
        user_id: Some(user.to_string()),
        skill_name: Some(name.to_string()),
        skill_level: Some(level),
        created_at: None,
        updated_at: None,
    }
}

fn activity(assigned_to: Option<&str>, ended: bool) -> Activity {
    Activity {
        id: Some("a".to_string()),
        activity_name: None,
        activity_description: None,
        assigned_to: assigned_to.map(|s| s.to_string()),
        team_id: Some("t".to_string()),
        duration_in_hours: None,
        started_at: None,
        paused_at: None,
        ended_at: if ended { Some(1) } else { None },
        created_at: None,
        updated_at: None,
        archived_at: None,
    }
}

#[test]
fn assigned_member_is_unavailable_everywhere() {
    let members = vec![
        (user("ann"), vec![skill("ann", "Rust", 3), skill("ann", "SQL", 2)]),
        (user("bob"), vec![skill("bob", "rust", 5)]),
    ];
    let activities = vec![activity(Some("ann"), false), activity(None, false)];
    let groups = team_capabilities(&members, &activities);
    assert_eq!(groups.len(), 2);
    assert_eq!(groups[0].0, "rust");
    assert_eq!(groups[1].0, "sql");
    assert_eq!(groups[0].1.len(), 2);
    for (_, caps) in &groups {
        for c in caps {
            let ann = c.user.id == Some("ann".to_string());
            assert_eq!(c.available, !ann);
        }
    }
    assert_eq!(groups[0].1[1].level, 5);
}

#[test]
fn skills_without_level_are_skipped() {
    let mut s = skill("ann", "Go", 1);
    s.skill_level = None;
    let groups = team_capabilities(&vec![(user("ann"), vec![s])], &vec![]);
    assert!(groups.is_empty());
}

#[test]
fn availability() {
    let acts = vec![activity(Some("ann"), true)];
    assert!(!is_available(&Some("ann".to_string()), &acts));
    assert!(is_available(&Some("bob".to_string()), &acts));
    assert!(is_available(&None, &acts));
}

#[test]
fn only_assignee_changes_activity() {
    let a = activity(Some("ann"), false);
    assert!(check_assignee(&a, &"ann".to_string()).is_none());
    assert!(matches!(check_assignee(&a, &"bob".to_string()), Some((403, ResponseError::Activity(_)))));
    assert!(check_assignee(&activity(None, false), &"ann".to_string()).is_some());
}

#[test]
fn team_access_prefers_invitation() {
    let team = Team {
        id: Some("t".to_string()),
        owner_id: Some("u".to_string()),
        team_name: None,
        team_description: None,
        created_at: None,
        updated_at: None,
        archived_at: None,
    };
    assert!(matches!(team_access(true, Some(team.clone())), TeamAccess::Invited));
    assert!(matches!(team_access(false, Some(team)), TeamAccess::Owned(_)));
    assert!(matches!(team_access(false, None), TeamAccess::Denied));
}

#[test]
fn invitation_response_flags() {
    let inv = Invitation {
        id: Some("i".to_string()),
        user_id: Some("u".to_string()),
        team_id: Some("t".to_string()),
        team_role: Some(TeamRole::Member),
        created_at: None,
        updated_at: None,
        accepted_at: Some(3),
        rejected_at: None,
    };
    assert!(inv.is_accepted());
    assert!(!inv.is_rejected());
    let r = InvitationResponse::new(inv, user("u"));
    assert!(r.accepted);
    assert!(!r.rejected);
}

#[test]
fn members_join_query() {
    assert_eq!(
        team_members_query(&"t".to_string()).sql,
        "SELECT * FROM users JOIN teams ON teams_id = users_id WHERE teams.team_id = $1"
    );
}

#[test]
fn team_roles() {
    assert!(matches!(TeamRole::from_str("admin"), Ok(TeamRole::Admin)));
    assert!(matches!(TeamRole::from_str("member"), Ok(TeamRole::Member)));
    assert_eq!(TeamRole::from_str("owner").unwrap_err(), "Invalid team role");
    assert_eq!(TeamRole::Manager.to_string(), "manager");
}

#[test]
fn one_entry_per_skill_even_when_repeated() {
    let members = vec![
        (user("ann"), vec![skill("ann", "Rust", 1), skill("ann", "RUST", 2)]),
        (user("bob"), vec![skill("bob", "go", 4)]),
    ];
    let groups = team_capabilities(&members, &vec![]);
    assert_eq!(groups.len(), 2);
    assert_eq!(groups[0].0, "rust");
    let levels: Vec<i32> = groups[0].1.iter().map(|c| c.level).collect();
    assert_eq!(levels, vec![1, 2]);
    assert_eq!(groups[1].0, "go");
    assert_eq!(groups[1].1.len(), 1);
    assert!(groups[1].1[0].available);
}
