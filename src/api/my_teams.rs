//! Requests on the teams a user owns, their invitations and activities.

use vstd::prelude::*;
use crate::api::plan::{
    finds,
    inserts,
    updates,
    deletes,
    find_step,
    insert_step,
    update_step,
    delete_step,
    text_param,
    null_param,
    time_param,
    optional_text_param,
    push_present,
    present,
    Stamps,
    Step,
    NOT_FOUND,
    INTERNAL_SERVER_ERROR,
};
use crate::query::{params_view, text_view, timestamp_view, ArchiveFilter, Param};
use crate::activity::{Activity, ActivityError};
use crate::authentication::AuthenticationError;
use crate::invitation::{Invitation, InvitationError};
use crate::team::{Team, TeamError};
use crate::team_role::TeamRole;
use crate::user::{User, UserError};

verus! {

/// The failure of a request, by the part of the system that raised it.
#[derive(Debug, Clone, Copy, PartialEq, Eq, Structural)]
pub enum ResponseError {
    Authentication(AuthenticationError),
    User(UserError),
    Team(TeamError),
    Invitation(InvitationError),
    Activity(ActivityError),
}

#[derive(Debug, Clone)]
pub struct CreateTeamRequest {
    pub team_name: String,
    pub team_description: Option<String>,
}

#[derive(Debug, Clone)]
pub struct UpdateTeamRequest {
    pub team_name: Option<String>,
    pub team_description: Option<String>,
}

#[derive(Debug, Clone)]
pub struct InvitationRequest {
    pub user_id: String,
    pub team_role: TeamRole,
}

#[derive(Debug, Clone)]
pub struct CreateTeamActivityRequest {
    pub activity_name: String,
    pub activity_description: String,
}

#[derive(Debug, Clone)]
pub struct UpdateTeamActivityRequest {
    pub activity_name: Option<String>,
    pub activity_description: Option<String>,
}

#[derive(Debug, Clone)]
pub struct AssignTeamActivityRequest {
    pub user_id: String,
}

#[derive(Debug, Clone)]
pub struct InvitationResponse {
    pub invitation: Invitation,
    pub user: User,
    pub accepted: bool,
    pub rejected: bool,
}

#[derive(Debug, Clone)]
pub struct TeamResponse {
    pub team: Team,
    pub users: Vec<User>,
    pub invitations: Vec<InvitationResponse>,
}

/// The statements of listing the teams a user owns: the user must exist.
pub fn get_teams_plan(user_id: &String) -> (r: Vec<Step<ResponseError>>)
    ensures
        r@.len() == 2,
        finds::<User, ResponseError>(
            r@[0],
            ArchiveFilter::Unarchived,
            true,
            seq![("id"@, text_view(user_id@))],
            NOT_FOUND,
            ResponseError::User(UserError::UserNotFound),
        ),
        finds::<Team, ResponseError>(
            r@[1],
            ArchiveFilter::Unarchived,
            false,
            seq![("owner_id"@, text_view(user_id@))],
            NOT_FOUND,
            ResponseError::Team(TeamError::TeamNotFound),
        ),
{
    let mut steps: Vec<Step<ResponseError>> = Vec::new();
    let ps: Vec<Param> = vec![text_param("id", user_id)];
    proof {
        assert(params_view(ps@) =~= seq![("id"@, text_view(user_id@))]);
    }
    steps.push(find_step::<User, ResponseError>(
        ps,
        ArchiveFilter::Unarchived,
        true,
        NOT_FOUND,
        ResponseError::User(UserError::UserNotFound),
    ));
    let ps: Vec<Param> = vec![text_param("owner_id", user_id)];
    proof {
        assert(params_view(ps@) =~= seq![("owner_id"@, text_view(user_id@))]);
    }
    steps.push(find_step::<Team, ResponseError>(
        ps,
        ArchiveFilter::Unarchived,
        false,
        NOT_FOUND,
        ResponseError::Team(TeamError::TeamNotFound),
    ));
    steps
}

/// The statements of reading one of the user's teams: the user, the team's
/// invitations (whose users are read one by one afterwards), then the team, which
/// the user must own.
pub fn get_team_plan(user_id: &String, team_id: &String) -> (r: Vec<Step<ResponseError>>)
    ensures
        r@.len() == 3,
        finds::<User, ResponseError>(
            r@[0],
            ArchiveFilter::Unarchived,
            true,
            seq![("id"@, text_view(user_id@))],
            NOT_FOUND,
            ResponseError::User(UserError::UserNotFound),
        ),
        finds::<Invitation, ResponseError>(
            r@[1],
            ArchiveFilter::Unarchived,
            false,
            seq![("team_id"@, text_view(team_id@))],
            NOT_FOUND,
            ResponseError::Team(TeamError::TeamNotFound),
        ),
        finds::<Team, ResponseError>(
            r@[2],
            ArchiveFilter::Unarchived,
            true,
            seq![("id"@, text_view(team_id@)), ("owner_id"@, text_view(user_id@))],
            NOT_FOUND,
            ResponseError::Team(TeamError::TeamNotFound),
        ),
{
    let mut steps: Vec<Step<ResponseError>> = Vec::new();
    let ps: Vec<Param> = vec![text_param("id", user_id)];
    proof {
        assert(params_view(ps@) =~= seq![("id"@, text_view(user_id@))]);
    }
    steps.push(find_step::<User, ResponseError>(
        ps,
        ArchiveFilter::Unarchived,
        true,
        NOT_FOUND,
        ResponseError::User(UserError::UserNotFound),
    ));
    let ps: Vec<Param> = vec![text_param("team_id", team_id)];
    proof {
        assert(params_view(ps@) =~= seq![("team_id"@, text_view(team_id@))]);
    }
    steps.push(find_step::<Invitation, ResponseError>(
        ps,
        ArchiveFilter::Unarchived,
        false,
        NOT_FOUND,
        ResponseError::Team(TeamError::TeamNotFound),
    ));
    let ps: Vec<Param> = vec![text_param("id", team_id), text_param("owner_id", user_id)];
    proof {
        assert(params_view(ps@) =~= seq![("id"@, text_view(team_id@)), ("owner_id"@, text_view(user_id@))]);
    }
    steps.push(find_step::<Team, ResponseError>(
        ps,
        ArchiveFilter::Unarchived,
        true,
        NOT_FOUND,
        ResponseError::Team(TeamError::TeamNotFound),
    ));
    steps
}

/// The statements of creating a team owned by the user.
pub fn create_team_plan(user_id: &String, request: &CreateTeamRequest, stamps: &Stamps) -> (r: Vec<Step<ResponseError>>)
    ensures
        r@.len() == 2,
        finds::<User, ResponseError>(
            r@[0],
            ArchiveFilter::Unarchived,
            true,
            seq![("id"@, text_view(user_id@))],
            NOT_FOUND,
            ResponseError::User(UserError::UserNotFound),
        ),
        inserts::<Team, ResponseError>(
            r@[1],
            seq![
                ("owner_id"@, text_view(user_id@)),
                ("team_name"@, text_view(request.team_name@)),
                ("team_description"@, match request.team_description { Some(v) => text_view(v@), None => (0nat, None::<Seq<char>>) }),
            ],
            *stamps,
            INTERNAL_SERVER_ERROR,
            ResponseError::Team(TeamError::TeamCreationFailed),
        ),
{
    let mut steps: Vec<Step<ResponseError>> = Vec::new();
    let ps: Vec<Param> = vec![text_param("id", user_id)];
    proof {
        assert(params_view(ps@) =~= seq![("id"@, text_view(user_id@))]);
    }
    steps.push(find_step::<User, ResponseError>(
        ps,
        ArchiveFilter::Unarchived,
        true,
        NOT_FOUND,
        ResponseError::User(UserError::UserNotFound),
    ));
    let ps: Vec<Param> = vec![
        text_param("owner_id", user_id),
        text_param("team_name", &request.team_name),
        optional_text_param("team_description", &request.team_description),
    ];
    proof {
        assert(params_view(ps@) =~= seq![
            ("owner_id"@, text_view(user_id@)),
            ("team_name"@, text_view(request.team_name@)),
            ("team_description"@, match request.team_description { Some(v) => text_view(v@), None => (0nat, None::<Seq<char>>) }),
        ]);
    }
    steps.push(insert_step::<Team, ResponseError>(
        ps,
        stamps,
        INTERNAL_SERVER_ERROR,
        ResponseError::Team(TeamError::TeamCreationFailed),
    ));
    steps
}

/// The statements of updating a team: the name and the description where given; a
/// field left out keeps its stored value. The updated row is then read again by its
/// id.
pub fn update_team_plan(user_id: &String, team_id: &String, request: &UpdateTeamRequest, stamps: &Stamps) -> (r: Vec<Step<ResponseError>>)
    ensures
        r@.len() == 4,
        finds::<User, ResponseError>(
            r@[0],
            ArchiveFilter::Unarchived,
            true,
            seq![("id"@, text_view(user_id@))],
            NOT_FOUND,
            ResponseError::User(UserError::UserNotFound),
        ),
        finds::<Team, ResponseError>(
            r@[1],
            ArchiveFilter::Unarchived,
            true,
            seq![("id"@, text_view(team_id@))],
            NOT_FOUND,
            ResponseError::Team(TeamError::TeamNotFound),
        ),
        updates::<Team, ResponseError>(
            r@[2],
            present("team_name"@, request.team_name)
            + present("team_description"@, request.team_description),
            team_id@,
            *stamps,
            INTERNAL_SERVER_ERROR,
            ResponseError::Team(TeamError::TeamUpdateFailed),
        ),
        finds::<Team, ResponseError>(
            r@[3],
            ArchiveFilter::Any,
            true,
            seq![("id"@, text_view(team_id@))],
            INTERNAL_SERVER_ERROR,
            ResponseError::Team(TeamError::TeamUpdateFailed),
        ),
{
    let mut steps: Vec<Step<ResponseError>> = Vec::new();
    let ps: Vec<Param> = vec![text_param("id", user_id)];
    proof {
        assert(params_view(ps@) =~= seq![("id"@, text_view(user_id@))]);
    }
    steps.push(find_step::<User, ResponseError>(
        ps,
        ArchiveFilter::Unarchived,
        true,
        NOT_FOUND,
        ResponseError::User(UserError::UserNotFound),
    ));
    let ps: Vec<Param> = vec![text_param("id", team_id)];
    proof {
        assert(params_view(ps@) =~= seq![("id"@, text_view(team_id@))]);
    }
    steps.push(find_step::<Team, ResponseError>(
        ps,
        ArchiveFilter::Unarchived,
        true,
        NOT_FOUND,
        ResponseError::Team(TeamError::TeamNotFound),
    ));
    let mut ps: Vec<Param> = Vec::new();
    push_present(&mut ps, "team_name", &request.team_name);
    push_present(&mut ps, "team_description", &request.team_description);
    proof {
        assert(params_view(ps@) =~= present("team_name"@, request.team_name)
        + present("team_description"@, request.team_description));
    }
    steps.push(update_step::<Team, ResponseError>(
        ps,
        team_id,
        stamps,
        INTERNAL_SERVER_ERROR,
        ResponseError::Team(TeamError::TeamUpdateFailed),
    ));
    let ps: Vec<Param> = vec![text_param("id", team_id)];
    proof {
        assert(params_view(ps@) =~= seq![("id"@, text_view(team_id@))]);
    }
    steps.push(find_step::<Team, ResponseError>(
        ps,
        ArchiveFilter::Any,
        true,
        INTERNAL_SERVER_ERROR,
        ResponseError::Team(TeamError::TeamUpdateFailed),
    ));
    steps
}

/// The statements of deleting a team.
pub fn delete_team_plan(user_id: &String, team_id: &String, stamps: &Stamps) -> (r: Vec<Step<ResponseError>>)
    ensures
        r@.len() == 3,
        finds::<User, ResponseError>(
            r@[0],
            ArchiveFilter::Unarchived,
            true,
            seq![("id"@, text_view(user_id@))],
            NOT_FOUND,
            ResponseError::User(UserError::UserNotFound),
        ),
        finds::<Team, ResponseError>(
            r@[1],
            ArchiveFilter::Unarchived,
            true,
            seq![("id"@, text_view(team_id@))],
            NOT_FOUND,
            ResponseError::Team(TeamError::TeamNotFound),
        ),
        deletes::<Team, ResponseError>(
            r@[2],
            seq![("id"@, text_view(team_id@))],
            *stamps,
            INTERNAL_SERVER_ERROR,
            ResponseError::Team(TeamError::TeamDeletionFailed),
        ),
{
    let mut steps: Vec<Step<ResponseError>> = Vec::new();
    let ps: Vec<Param> = vec![text_param("id", user_id)];
    proof {
        assert(params_view(ps@) =~= seq![("id"@, text_view(user_id@))]);
    }
    steps.push(find_step::<User, ResponseError>(
        ps,
        ArchiveFilter::Unarchived,
        true,
        NOT_FOUND,
        ResponseError::User(UserError::UserNotFound),
    ));
    let ps: Vec<Param> = vec![text_param("id", team_id)];
    proof {
        assert(params_view(ps@) =~= seq![("id"@, text_view(team_id@))]);
    }
    steps.push(find_step::<Team, ResponseError>(
        ps,
        ArchiveFilter::Unarchived,
        true,
        NOT_FOUND,
        ResponseError::Team(TeamError::TeamNotFound),
    ));
    let ps: Vec<Param> = vec![text_param("id", team_id)];
    proof {
        assert(params_view(ps@) =~= seq![("id"@, text_view(team_id@))]);
    }
    steps.push(delete_step::<Team, ResponseError>(
        ps,
        stamps,
        INTERNAL_SERVER_ERROR,
        ResponseError::Team(TeamError::TeamDeletionFailed),
    ));
    steps
}

/// The statements of inviting a user into a team with a role.
pub fn create_invitation_plan(team_id: &String, invitee: &String, role: &String, stamps: &Stamps) -> (r: Vec<Step<ResponseError>>)
    ensures
        r@.len() == 2,
        finds::<Team, ResponseError>(
            r@[0],
            ArchiveFilter::Unarchived,
            true,
            seq![("id"@, text_view(team_id@))],
            NOT_FOUND,
            ResponseError::Team(TeamError::TeamNotFound),
        ),
        inserts::<Invitation, ResponseError>(
            r@[1],
            seq![
                ("user_id"@, text_view(invitee@)),
                ("team_id"@, text_view(team_id@)),
                ("team_role"@, text_view(role@)),
            ],
            *stamps,
            INTERNAL_SERVER_ERROR,
            ResponseError::Invitation(InvitationError::InvitationCreationFailed),
        ),
{
    let mut steps: Vec<Step<ResponseError>> = Vec::new();
    let ps: Vec<Param> = vec![text_param("id", team_id)];
    proof {
        assert(params_view(ps@) =~= seq![("id"@, text_view(team_id@))]);
    }
    steps.push(find_step::<Team, ResponseError>(
        ps,
        ArchiveFilter::Unarchived,
        true,
        NOT_FOUND,
        ResponseError::Team(TeamError::TeamNotFound),
    ));
    let ps: Vec<Param> = vec![
        text_param("user_id", invitee),
        text_param("team_id", team_id),
        text_param("team_role", role),
    ];
    proof {
        assert(params_view(ps@) =~= seq![
            ("user_id"@, text_view(invitee@)),
            ("team_id"@, text_view(team_id@)),
            ("team_role"@, text_view(role@)),
        ]);
    }
    steps.push(insert_step::<Invitation, ResponseError>(
        ps,
        stamps,
        INTERNAL_SERVER_ERROR,
        ResponseError::Invitation(InvitationError::InvitationCreationFailed),
    ));
    steps
}

/// The statements of listing a team's activities.
pub fn get_team_activities_plan(team_id: &String) -> (r: Vec<Step<ResponseError>>)
    ensures
        r@.len() == 1,
        finds::<Activity, ResponseError>(
            r@[0],
            ArchiveFilter::Unarchived,
            false,
            seq![("team_id"@, text_view(team_id@))],
            NOT_FOUND,
            ResponseError::Team(TeamError::TeamNotFound),
        ),
{
    let mut steps: Vec<Step<ResponseError>> = Vec::new();
    let ps: Vec<Param> = vec![text_param("team_id", team_id)];
    proof {
        assert(params_view(ps@) =~= seq![("team_id"@, text_view(team_id@))]);
    }
    steps.push(find_step::<Activity, ResponseError>(
        ps,
        ArchiveFilter::Unarchived,
        false,
        NOT_FOUND,
        ResponseError::Team(TeamError::TeamNotFound),
    ));
    steps
}

/// The statements of reading one activity of a team.
pub fn get_team_activity_plan(team_id: &String, activity_id: &String) -> (r: Vec<Step<ResponseError>>)
    ensures
        r@.len() == 1,
        finds::<Activity, ResponseError>(
            r@[0],
            ArchiveFilter::Unarchived,
            true,
            seq![("id"@, text_view(activity_id@)), ("team_id"@, text_view(team_id@))],
            NOT_FOUND,
            ResponseError::Team(TeamError::TeamNotFound),
        ),
{
    let mut steps: Vec<Step<ResponseError>> = Vec::new();
    let ps: Vec<Param> = vec![text_param("id", activity_id), text_param("team_id", team_id)];
    proof {
        assert(params_view(ps@) =~= seq![("id"@, text_view(activity_id@)), ("team_id"@, text_view(team_id@))]);
    }
    steps.push(find_step::<Activity, ResponseError>(
        ps,
        ArchiveFilter::Unarchived,
        true,
        NOT_FOUND,
        ResponseError::Team(TeamError::TeamNotFound),
    ));
    steps
}

/// The statements of creating an activity in a team, unassigned.
pub fn create_team_activity_plan(team_id: &String, request: &CreateTeamActivityRequest, stamps: &Stamps) -> (r: Vec<Step<ResponseError>>)
    ensures
        r@.len() == 1,
        inserts::<Activity, ResponseError>(
            r@[0],
            seq![
                ("team_id"@, text_view(team_id@)),
                ("activity_name"@, text_view(request.activity_name@)),
                ("activity_description"@, text_view(request.activity_description@)),
            ],
            *stamps,
            INTERNAL_SERVER_ERROR,
            ResponseError::Activity(ActivityError::ActivityCreationFailed),
        ),
{
    let mut steps: Vec<Step<ResponseError>> = Vec::new();
    let ps: Vec<Param> = vec![
        text_param("team_id", team_id),
        text_param("activity_name", &request.activity_name),
        text_param("activity_description", &request.activity_description),
    ];
    proof {
        assert(params_view(ps@) =~= seq![
            ("team_id"@, text_view(team_id@)),
            ("activity_name"@, text_view(request.activity_name@)),
            ("activity_description"@, text_view(request.activity_description@)),
        ]);
    }
    steps.push(insert_step::<Activity, ResponseError>(
        ps,
        stamps,
        INTERNAL_SERVER_ERROR,
        ResponseError::Activity(ActivityError::ActivityCreationFailed),
    ));
    steps
}

/// The statements of updating an activity of a team: the name and the description
/// where given; a field left out keeps its stored value. The updated row is then
/// read again by its id.
pub fn update_team_activity_plan(team_id: &String, activity_id: &String, request: &UpdateTeamActivityRequest, stamps: &Stamps) -> (r: Vec<Step<ResponseError>>)
    ensures
        r@.len() == 3,
        finds::<Team, ResponseError>(
            r@[0],
            ArchiveFilter::Unarchived,
            true,
            seq![("id"@, text_view(team_id@))],
            NOT_FOUND,
            ResponseError::Team(TeamError::TeamNotFound),
        ),
        updates::<Activity, ResponseError>(
            r@[1],
            present("activity_name"@, request.activity_name)
            + present("activity_description"@, request.activity_description),
            activity_id@,
            *stamps,
            INTERNAL_SERVER_ERROR,
            ResponseError::Activity(ActivityError::ActivityUpdateFailed),
        ),
        finds::<Activity, ResponseError>(
            r@[2],
            ArchiveFilter::Any,
            true,
            seq![("id"@, text_view(activity_id@))],
            INTERNAL_SERVER_ERROR,
            ResponseError::Activity(ActivityError::ActivityUpdateFailed),
        ),
{
    let mut steps: Vec<Step<ResponseError>> = Vec::new();
    let ps: Vec<Param> = vec![text_param("id", team_id)];
    proof {
        assert(params_view(ps@) =~= seq![("id"@, text_view(team_id@))]);
    }
    steps.push(find_step::<Team, ResponseError>(
        ps,
        ArchiveFilter::Unarchived,
        true,
        NOT_FOUND,
        ResponseError::Team(TeamError::TeamNotFound),
    ));
    let mut ps: Vec<Param> = Vec::new();
    push_present(&mut ps, "activity_name", &request.activity_name);
    push_present(&mut ps, "activity_description", &request.activity_description);
    proof {
        assert(params_view(ps@) =~= present("activity_name"@, request.activity_name)
        + present("activity_description"@, request.activity_description));
    }
    steps.push(update_step::<Activity, ResponseError>(
        ps,
        activity_id,
        stamps,
        INTERNAL_SERVER_ERROR,
        ResponseError::Activity(ActivityError::ActivityUpdateFailed),
    ));
    let ps: Vec<Param> = vec![text_param("id", activity_id)];
    proof {
        assert(params_view(ps@) =~= seq![("id"@, text_view(activity_id@))]);
    }
    steps.push(find_step::<Activity, ResponseError>(
        ps,
        ArchiveFilter::Any,
        true,
        INTERNAL_SERVER_ERROR,
        ResponseError::Activity(ActivityError::ActivityUpdateFailed),
    ));
    steps
}

/// The statements of deleting an activity of a team.
pub fn delete_team_activity_plan(team_id: &String, activity_id: &String, stamps: &Stamps) -> (r: Vec<Step<ResponseError>>)
    ensures
        r@.len() == 1,
        deletes::<Activity, ResponseError>(
            r@[0],
            seq![("id"@, text_view(activity_id@)), ("team_id"@, text_view(team_id@))],
            *stamps,
            INTERNAL_SERVER_ERROR,
            ResponseError::Activity(ActivityError::ActivityDeletionFailed),
        ),
{
    let mut steps: Vec<Step<ResponseError>> = Vec::new();
    let ps: Vec<Param> = vec![text_param("id", activity_id), text_param("team_id", team_id)];
    proof {
        assert(params_view(ps@) =~= seq![("id"@, text_view(activity_id@)), ("team_id"@, text_view(team_id@))]);
    }
    steps.push(delete_step::<Activity, ResponseError>(
        ps,
        stamps,
        INTERNAL_SERVER_ERROR,
        ResponseError::Activity(ActivityError::ActivityDeletionFailed),
    ));
    steps
}

/// The statements of assigning an activity of a team that the user owns to a
/// member: the team, the activity in it and the assignee must exist. The updated
/// row is then read again by its id.
pub fn assign_team_activity_plan(user_id: &String, team_id: &String, activity_id: &String, request: &AssignTeamActivityRequest, stamps: &Stamps) -> (r: Vec<Step<ResponseError>>)
    ensures
        r@.len() == 5,
        finds::<Team, ResponseError>(
            r@[0],
            ArchiveFilter::Unarchived,
            true,
            seq![("id"@, text_view(team_id@)), ("owner_id"@, text_view(user_id@))],
            NOT_FOUND,
            ResponseError::Team(TeamError::TeamNotFound),
        ),
        finds::<Activity, ResponseError>(
            r@[1],
            ArchiveFilter::Unarchived,
            true,
            seq![("id"@, text_view(activity_id@)), ("team_id"@, text_view(team_id@))],
            NOT_FOUND,
            ResponseError::Team(TeamError::TeamNotFound),
        ),
        finds::<User, ResponseError>(
            r@[2],
            ArchiveFilter::Unarchived,
            true,
            seq![("id"@, text_view(request.user_id@))],
            NOT_FOUND,
            ResponseError::User(UserError::UserNotFound),
        ),
        updates::<Activity, ResponseError>(
            r@[3],
            seq![("assigned_to"@, text_view(request.user_id@))],
            activity_id@,
            *stamps,
            INTERNAL_SERVER_ERROR,
            ResponseError::Activity(ActivityError::ActivityUpdateFailed),
        ),
        finds::<Activity, ResponseError>(
            r@[4],
            ArchiveFilter::Any,
            true,
            seq![("id"@, text_view(activity_id@))],
            INTERNAL_SERVER_ERROR,
            ResponseError::Activity(ActivityError::ActivityUpdateFailed),
        ),
{
    let mut steps: Vec<Step<ResponseError>> = Vec::new();
    let ps: Vec<Param> = vec![text_param("id", team_id), text_param("owner_id", user_id)];
    proof {
        assert(params_view(ps@) =~= seq![("id"@, text_view(team_id@)), ("owner_id"@, text_view(user_id@))]);
    }
    steps.push(find_step::<Team, ResponseError>(
        ps,
        ArchiveFilter::Unarchived,
        true,
        NOT_FOUND,
        ResponseError::Team(TeamError::TeamNotFound),
    ));
    let ps: Vec<Param> = vec![text_param("id", activity_id), text_param("team_id", team_id)];
    proof {
        assert(params_view(ps@) =~= seq![("id"@, text_view(activity_id@)), ("team_id"@, text_view(team_id@))]);
    }
    steps.push(find_step::<Activity, ResponseError>(
        ps,
        ArchiveFilter::Unarchived,
        true,
        NOT_FOUND,
        ResponseError::Team(TeamError::TeamNotFound),
    ));
    let ps: Vec<Param> = vec![text_param("id", &request.user_id)];
    proof {
        assert(params_view(ps@) =~= seq![("id"@, text_view(request.user_id@))]);
    }
    steps.push(find_step::<User, ResponseError>(
        ps,
        ArchiveFilter::Unarchived,
        true,
        NOT_FOUND,
        ResponseError::User(UserError::UserNotFound),
    ));
    let ps: Vec<Param> = vec![text_param("assigned_to", &request.user_id)];
    proof {
        assert(params_view(ps@) =~= seq![("assigned_to"@, text_view(request.user_id@))]);
    }
    steps.push(update_step::<Activity, ResponseError>(
        ps,
        activity_id,
        stamps,
        INTERNAL_SERVER_ERROR,
        ResponseError::Activity(ActivityError::ActivityUpdateFailed),
    ));
    let ps: Vec<Param> = vec![text_param("id", activity_id)];
    proof {
        assert(params_view(ps@) =~= seq![("id"@, text_view(activity_id@))]);
    }
    steps.push(find_step::<Activity, ResponseError>(
        ps,
        ArchiveFilter::Any,
        true,
        INTERNAL_SERVER_ERROR,
        ResponseError::Activity(ActivityError::ActivityUpdateFailed),
    ));
    steps
}

/// The statements of taking an activity of a team that the user owns off its
/// assignee. The updated row is then read again by its id.
pub fn unassign_team_activity_plan(user_id: &String, team_id: &String, activity_id: &String, stamps: &Stamps) -> (r: Vec<Step<ResponseError>>)
    ensures
        r@.len() == 4,
        finds::<Team, ResponseError>(
            r@[0],
            ArchiveFilter::Unarchived,
            true,
            seq![("id"@, text_view(team_id@)), ("owner_id"@, text_view(user_id@))],
            NOT_FOUND,
            ResponseError::Team(TeamError::TeamNotFound),
        ),
        finds::<Activity, ResponseError>(
            r@[1],
            ArchiveFilter::Unarchived,
            true,
            seq![("id"@, text_view(activity_id@)), ("team_id"@, text_view(team_id@))],
            NOT_FOUND,
            ResponseError::Team(TeamError::TeamNotFound),
        ),
        updates::<Activity, ResponseError>(
            r@[2],
            seq![("assigned_to"@, (0nat, None::<Seq<char>>))],
            activity_id@,
            *stamps,
            INTERNAL_SERVER_ERROR,
            ResponseError::Activity(ActivityError::ActivityUpdateFailed),
        ),
        finds::<Activity, ResponseError>(
            r@[3],
            ArchiveFilter::Any,
            true,
            seq![("id"@, text_view(activity_id@))],
            INTERNAL_SERVER_ERROR,
            ResponseError::Activity(ActivityError::ActivityUpdateFailed),
        ),
{
    let mut steps: Vec<Step<ResponseError>> = Vec::new();
    let ps: Vec<Param> = vec![text_param("id", team_id), text_param("owner_id", user_id)];
    proof {
        assert(params_view(ps@) =~= seq![("id"@, text_view(team_id@)), ("owner_id"@, text_view(user_id@))]);
    }
    steps.push(find_step::<Team, ResponseError>(
        ps,
        ArchiveFilter::Unarchived,
        true,
        NOT_FOUND,
        ResponseError::Team(TeamError::TeamNotFound),
    ));
    let ps: Vec<Param> = vec![text_param("id", activity_id), text_param("team_id", team_id)];
    proof {
        assert(params_view(ps@) =~= seq![("id"@, text_view(activity_id@)), ("team_id"@, text_view(team_id@))]);
    }
    steps.push(find_step::<Activity, ResponseError>(
        ps,
        ArchiveFilter::Unarchived,
        true,
        NOT_FOUND,
        ResponseError::Team(TeamError::TeamNotFound),
    ));
    let ps: Vec<Param> = vec![null_param("assigned_to")];
    proof {
        assert(params_view(ps@) =~= seq![("assigned_to"@, (0nat, None::<Seq<char>>))]);
    }
    steps.push(update_step::<Activity, ResponseError>(
        ps,
        activity_id,
        stamps,
        INTERNAL_SERVER_ERROR,
        ResponseError::Activity(ActivityError::ActivityUpdateFailed),
    ));
    let ps: Vec<Param> = vec![text_param("id", activity_id)];
    proof {
        assert(params_view(ps@) =~= seq![("id"@, text_view(activity_id@))]);
    }
    steps.push(find_step::<Activity, ResponseError>(
        ps,
        ArchiveFilter::Any,
        true,
        INTERNAL_SERVER_ERROR,
        ResponseError::Activity(ActivityError::ActivityUpdateFailed),
    ));
    steps
}

/// The statements of pausing an activity of a team that the user owns: `paused_at`
/// becomes now. The updated row is then read again by its id.
pub fn pause_team_activity_plan(user_id: &String, team_id: &String, activity_id: &String, stamps: &Stamps) -> (r: Vec<Step<ResponseError>>)
    ensures
        r@.len() == 4,
        finds::<Team, ResponseError>(
            r@[0],
            ArchiveFilter::Unarchived,
            true,
            seq![("id"@, text_view(team_id@)), ("owner_id"@, text_view(user_id@))],
            NOT_FOUND,
            ResponseError::Team(TeamError::TeamNotFound),
        ),
        finds::<Activity, ResponseError>(
            r@[1],
            ArchiveFilter::Unarchived,
            true,
            seq![("id"@, text_view(activity_id@)), ("team_id"@, text_view(team_id@))],
            NOT_FOUND,
            ResponseError::Team(TeamError::TeamNotFound),
        ),
        updates::<Activity, ResponseError>(
            r@[2],
            seq![("paused_at"@, timestamp_view(stamps.now@))],
            activity_id@,
            *stamps,
            INTERNAL_SERVER_ERROR,
            ResponseError::Activity(ActivityError::ActivityUpdateFailed),
        ),
        finds::<Activity, ResponseError>(
            r@[3],
            ArchiveFilter::Any,
            true,
            seq![("id"@, text_view(activity_id@))],
            INTERNAL_SERVER_ERROR,
            ResponseError::Activity(ActivityError::ActivityUpdateFailed),
        ),
{
    let mut steps: Vec<Step<ResponseError>> = Vec::new();
    let ps: Vec<Param> = vec![text_param("id", team_id), text_param("owner_id", user_id)];
    proof {
        assert(params_view(ps@) =~= seq![("id"@, text_view(team_id@)), ("owner_id"@, text_view(user_id@))]);
    }
    steps.push(find_step::<Team, ResponseError>(
        ps,
        ArchiveFilter::Unarchived,
        true,
        NOT_FOUND,
        ResponseError::Team(TeamError::TeamNotFound),
    ));
    let ps: Vec<Param> = vec![text_param("id", activity_id), text_param("team_id", team_id)];
    proof {
        assert(params_view(ps@) =~= seq![("id"@, text_view(activity_id@)), ("team_id"@, text_view(team_id@))]);
    }
    steps.push(find_step::<Activity, ResponseError>(
        ps,
        ArchiveFilter::Unarchived,
        true,
        NOT_FOUND,
        ResponseError::Team(TeamError::TeamNotFound),
    ));
    let ps: Vec<Param> = vec![time_param("paused_at", &stamps.now)];
    proof {
        assert(params_view(ps@) =~= seq![("paused_at"@, timestamp_view(stamps.now@))]);
    }
    steps.push(update_step::<Activity, ResponseError>(
        ps,
        activity_id,
        stamps,
        INTERNAL_SERVER_ERROR,
        ResponseError::Activity(ActivityError::ActivityUpdateFailed),
    ));
    let ps: Vec<Param> = vec![text_param("id", activity_id)];
    proof {
        assert(params_view(ps@) =~= seq![("id"@, text_view(activity_id@))]);
    }
    steps.push(find_step::<Activity, ResponseError>(
        ps,
        ArchiveFilter::Any,
        true,
        INTERNAL_SERVER_ERROR,
        ResponseError::Activity(ActivityError::ActivityUpdateFailed),
    ));
    steps
}

/// The statements of resuming an activity of a team that the user owns: `paused_at`
/// is cleared. The updated row is then read again by its id.
pub fn resume_team_activity_plan(user_id: &String, team_id: &String, activity_id: &String, stamps: &Stamps) -> (r: Vec<Step<ResponseError>>)
    ensures
        r@.len() == 4,
        finds::<Team, ResponseError>(
            r@[0],
            ArchiveFilter::Unarchived,
            true,
            seq![("id"@, text_view(team_id@)), ("owner_id"@, text_view(user_id@))],
            NOT_FOUND,
            ResponseError::Team(TeamError::TeamNotFound),
        ),
        finds::<Activity, ResponseError>(
            r@[1],
            ArchiveFilter::Unarchived,
            true,
            seq![("id"@, text_view(activity_id@)), ("team_id"@, text_view(team_id@))],
            NOT_FOUND,
            ResponseError::Team(TeamError::TeamNotFound),
        ),
        updates::<Activity, ResponseError>(
            r@[2],
            seq![("paused_at"@, (0nat, None::<Seq<char>>))],
            activity_id@,
            *stamps,
            INTERNAL_SERVER_ERROR,
            ResponseError::Activity(ActivityError::ActivityUpdateFailed),
        ),
        finds::<Activity, ResponseError>(
            r@[3],
            ArchiveFilter::Any,
            true,
            seq![("id"@, text_view(activity_id@))],
            INTERNAL_SERVER_ERROR,
            ResponseError::Activity(ActivityError::ActivityUpdateFailed),
        ),
{
    let mut steps: Vec<Step<ResponseError>> = Vec::new();
    let ps: Vec<Param> = vec![text_param("id", team_id), text_param("owner_id", user_id)];
    proof {
        assert(params_view(ps@) =~= seq![("id"@, text_view(team_id@)), ("owner_id"@, text_view(user_id@))]);
    }
    steps.push(find_step::<Team, ResponseError>(
        ps,
        ArchiveFilter::Unarchived,
        true,
        NOT_FOUND,
        ResponseError::Team(TeamError::TeamNotFound),
    ));
    let ps: Vec<Param> = vec![text_param("id", activity_id), text_param("team_id", team_id)];
    proof {
        assert(params_view(ps@) =~= seq![("id"@, text_view(activity_id@)), ("team_id"@, text_view(team_id@))]);
    }
    steps.push(find_step::<Activity, ResponseError>(
        ps,
        ArchiveFilter::Unarchived,
        true,
        NOT_FOUND,
        ResponseError::Team(TeamError::TeamNotFound),
    ));
    let ps: Vec<Param> = vec![null_param("paused_at")];
    proof {
        assert(params_view(ps@) =~= seq![("paused_at"@, (0nat, None::<Seq<char>>))]);
    }
    steps.push(update_step::<Activity, ResponseError>(
        ps,
        activity_id,
        stamps,
        INTERNAL_SERVER_ERROR,
        ResponseError::Activity(ActivityError::ActivityUpdateFailed),
    ));
    let ps: Vec<Param> = vec![text_param("id", activity_id)];
    proof {
        assert(params_view(ps@) =~= seq![("id"@, text_view(activity_id@))]);
    }
    steps.push(find_step::<Activity, ResponseError>(
        ps,
        ArchiveFilter::Any,
        true,
        INTERNAL_SERVER_ERROR,
        ResponseError::Activity(ActivityError::ActivityUpdateFailed),
    ));
    steps
}

/// The statements of reopening an activity of a team that the user owns: its
/// completion is cleared. The updated row is then read again by its id.
pub fn reopen_team_activity_plan(user_id: &String, team_id: &String, activity_id: &String, stamps: &Stamps) -> (r: Vec<Step<ResponseError>>)
    ensures
        r@.len() == 4,
        finds::<Team, ResponseError>(
            r@[0],
            ArchiveFilter::Unarchived,
            true,
            seq![("id"@, text_view(team_id@)), ("owner_id"@, text_view(user_id@))],
            NOT_FOUND,
            ResponseError::Team(TeamError::TeamNotFound),
        ),
        finds::<Activity, ResponseError>(
            r@[1],
            ArchiveFilter::Unarchived,
            true,
            seq![("id"@, text_view(activity_id@)), ("team_id"@, text_view(team_id@))],
            NOT_FOUND,
            ResponseError::Team(TeamError::TeamNotFound),
        ),
        updates::<Activity, ResponseError>(
            r@[2],
            seq![("completed_at"@, (0nat, None::<Seq<char>>))],
            activity_id@,
            *stamps,
            INTERNAL_SERVER_ERROR,
            ResponseError::Activity(ActivityError::ActivityUpdateFailed),
        ),
        finds::<Activity, ResponseError>(
            r@[3],
            ArchiveFilter::Any,
            true,
            seq![("id"@, text_view(activity_id@))],
            INTERNAL_SERVER_ERROR,
            ResponseError::Activity(ActivityError::ActivityUpdateFailed),
        ),
{
    let mut steps: Vec<Step<ResponseError>> = Vec::new();
    let ps: Vec<Param> = vec![text_param("id", team_id), text_param("owner_id", user_id)];
    proof {
        assert(params_view(ps@) =~= seq![("id"@, text_view(team_id@)), ("owner_id"@, text_view(user_id@))]);
    }
    steps.push(find_step::<Team, ResponseError>(
        ps,
        ArchiveFilter::Unarchived,
        true,
        NOT_FOUND,
        ResponseError::Team(TeamError::TeamNotFound),
    ));
    let ps: Vec<Param> = vec![text_param("id", activity_id), text_param("team_id", team_id)];
    proof {
        assert(params_view(ps@) =~= seq![("id"@, text_view(activity_id@)), ("team_id"@, text_view(team_id@))]);
    }
    steps.push(find_step::<Activity, ResponseError>(
        ps,
        ArchiveFilter::Unarchived,
        true,
        NOT_FOUND,
        ResponseError::Team(TeamError::TeamNotFound),
    ));
    let ps: Vec<Param> = vec![null_param("completed_at")];
    proof {
        assert(params_view(ps@) =~= seq![("completed_at"@, (0nat, None::<Seq<char>>))]);
    }
    steps.push(update_step::<Activity, ResponseError>(
        ps,
        activity_id,
        stamps,
        INTERNAL_SERVER_ERROR,
        ResponseError::Activity(ActivityError::ActivityUpdateFailed),
    ));
    let ps: Vec<Param> = vec![text_param("id", activity_id)];
    proof {
        assert(params_view(ps@) =~= seq![("id"@, text_view(activity_id@))]);
    }
    steps.push(find_step::<Activity, ResponseError>(
        ps,
        ArchiveFilter::Any,
        true,
        INTERNAL_SERVER_ERROR,
        ResponseError::Activity(ActivityError::ActivityUpdateFailed),
    ));
    steps
}


} // verus!
