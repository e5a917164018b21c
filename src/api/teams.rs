//! Requests on the teams a user owns or was invited into, and the view of one team
//! with its capabilities.

use vstd::prelude::*;
use crate::api::plan::{finds, find_step, text_param, Step, NOT_FOUND, INTERNAL_SERVER_ERROR};
use crate::query::{params_view, text_view, ArchiveFilter, Param};
use crate::activity::Activity;
use crate::authentication::AuthenticationError;
use crate::invitation::{Invitation, InvitationError};
use crate::team::{Team, TeamError};
use crate::user::{User, UserError};
use crate::user_skill::UserSkill;
use crate::resource::DatabaseResource;
use crate::capability::{
    team_capabilities,
    SkillGroups,
    is_free,
    from_some_skill,
    skill_capability,
    listed,
    group_keys,
    distinct_skills,
    all_capabilities,
    cap_views,
    with_skill,
};
use crate::values::opt_text;
use crate::query::{join_query, join_sql, fields_of, table_of, value_views, values_of, Query};

verus! {

/// The failure of a request, by the part of the system that raised it.
#[derive(Debug, Clone, Copy, PartialEq, Eq, Structural)]
pub enum ResponseError {
    Authentication(AuthenticationError),
    Invitation(InvitationError),
    Team(TeamError),
    User(UserError),
}

#[derive(Debug, Clone)]
pub struct InvitationResponse {
    pub invitation: Invitation,
    pub user: User,
    pub accepted: bool,
    pub rejected: bool,
}

#[derive(Debug)]
pub struct TeamResponse {
    pub team: Team,
    pub invitations: Vec<InvitationResponse>,
    pub capabilities: SkillGroups,
}

/// The statements of listing the teams of a user: those they own and the
/// invitations they hold, whose teams are then read one by one.
pub fn get_teams_plan(user_id: &String) -> (r: Vec<Step<ResponseError>>)
    ensures
        r@.len() == 3,
        finds::<User, ResponseError>(
            r@[0],
            ArchiveFilter::Unarchived,
            true,
            seq![("id"@, text_view(user_id@))],
            NOT_FOUND,
            ResponseError::User(UserError::UserNotFound),
        ),
        finds::<Team, ResponseError>(
            r@[1],
            ArchiveFilter::Unarchived,
            false,
            seq![("owner_id"@, text_view(user_id@))],
            NOT_FOUND,
            ResponseError::Team(TeamError::TeamNotFound),
        ),
        finds::<Invitation, ResponseError>(
            r@[2],
            ArchiveFilter::Unarchived,
            false,
            seq![("user_id"@, text_view(user_id@))],
            NOT_FOUND,
            ResponseError::Invitation(InvitationError::InvitationNotFound),
        ),
{
    let mut steps: Vec<Step<ResponseError>> = Vec::new();
    let ps: Vec<Param> = vec![text_param("id", user_id)];
    proof {
        assert(params_view(ps@) =~= seq![("id"@, text_view(user_id@))]);
    }
    steps.push(find_step::<User, ResponseError>(
        ps,
        ArchiveFilter::Unarchived,
        true,
        NOT_FOUND,
        ResponseError::User(UserError::UserNotFound),
    ));
    let ps: Vec<Param> = vec![text_param("owner_id", user_id)];
    proof {
        assert(params_view(ps@) =~= seq![("owner_id"@, text_view(user_id@))]);
    }
    steps.push(find_step::<Team, ResponseError>(
        ps,
        ArchiveFilter::Unarchived,
        false,
        NOT_FOUND,
        ResponseError::Team(TeamError::TeamNotFound),
    ));
    let ps: Vec<Param> = vec![text_param("user_id", user_id)];
    proof {
        assert(params_view(ps@) =~= seq![("user_id"@, text_view(user_id@))]);
    }
    steps.push(find_step::<Invitation, ResponseError>(
        ps,
        ArchiveFilter::Unarchived,
        false,
        NOT_FOUND,
        ResponseError::Invitation(InvitationError::InvitationNotFound),
    ));
    steps
}

/// The statement that reads a team the user holds an invitation to.
pub fn invited_team_plan(team_id: &String) -> (r: Vec<Step<ResponseError>>)
    ensures
        r@.len() == 1,
        finds::<Team, ResponseError>(
            r@[0],
            ArchiveFilter::Unarchived,
            true,
            seq![("id"@, text_view(team_id@))],
            NOT_FOUND,
            ResponseError::Team(TeamError::TeamNotFound),
        ),
{
    let mut steps: Vec<Step<ResponseError>> = Vec::new();
    let ps: Vec<Param> = vec![text_param("id", team_id)];
    proof {
        assert(params_view(ps@) =~= seq![("id"@, text_view(team_id@))]);
    }
    steps.push(find_step::<Team, ResponseError>(
        ps,
        ArchiveFilter::Unarchived,
        true,
        NOT_FOUND,
        ResponseError::Team(TeamError::TeamNotFound),
    ));
    steps
}

/// The lookups that decide whether a user may see a team: an invitation of the user
/// to it, and the team where the user owns it. Neither failing ends the request;
/// `team_access` decides.
pub fn get_team_plan(user_id: &String, team_id: &String) -> (r: Vec<Step<ResponseError>>)
    ensures
        r@.len() == 2,
        finds::<Invitation, ResponseError>(
            r@[0],
            ArchiveFilter::Unarchived,
            true,
            seq![("user_id"@, text_view(user_id@)), ("team_id"@, text_view(team_id@))],
            NOT_FOUND,
            ResponseError::Team(TeamError::TeamNotFound),
        ),
        finds::<Team, ResponseError>(
            r@[1],
            ArchiveFilter::Unarchived,
            true,
            seq![("owner_id"@, text_view(user_id@)), ("id"@, text_view(team_id@))],
            NOT_FOUND,
            ResponseError::Team(TeamError::TeamNotFound),
        ),
{
    let mut steps: Vec<Step<ResponseError>> = Vec::new();
    let ps: Vec<Param> = vec![text_param("user_id", user_id), text_param("team_id", team_id)];
    proof {
        assert(params_view(ps@) =~= seq![("user_id"@, text_view(user_id@)), ("team_id"@, text_view(team_id@))]);
    }
    steps.push(find_step::<Invitation, ResponseError>(
        ps,
        ArchiveFilter::Unarchived,
        true,
        NOT_FOUND,
        ResponseError::Team(TeamError::TeamNotFound),
    ));
    let ps: Vec<Param> = vec![text_param("owner_id", user_id), text_param("id", team_id)];
    proof {
        assert(params_view(ps@) =~= seq![("owner_id"@, text_view(user_id@)), ("id"@, text_view(team_id@))]);
    }
    steps.push(find_step::<Team, ResponseError>(
        ps,
        ArchiveFilter::Unarchived,
        true,
        NOT_FOUND,
        ResponseError::Team(TeamError::TeamNotFound),
    ));
    steps
}

/// The statements that gather what the view of a team shows: the team, its
/// invitations (each then paired with its user), and its activities.
pub fn team_response_plan(team_id: &String) -> (r: Vec<Step<ResponseError>>)
    ensures
        r@.len() == 3,
        finds::<Team, ResponseError>(
            r@[0],
            ArchiveFilter::Unarchived,
            true,
            seq![("id"@, text_view(team_id@))],
            INTERNAL_SERVER_ERROR,
            ResponseError::Team(TeamError::TeamNotFound),
        ),
        finds::<Invitation, ResponseError>(
            r@[1],
            ArchiveFilter::Unarchived,
            false,
            seq![("team_id"@, text_view(team_id@))],
            INTERNAL_SERVER_ERROR,
            ResponseError::Team(TeamError::TeamNotFound),
        ),
        finds::<Activity, ResponseError>(
            r@[2],
            ArchiveFilter::Unarchived,
            false,
            seq![("team_id"@, text_view(team_id@))],
            INTERNAL_SERVER_ERROR,
            ResponseError::Team(TeamError::TeamNotFound),
        ),
{
    let mut steps: Vec<Step<ResponseError>> = Vec::new();
    let ps: Vec<Param> = vec![text_param("id", team_id)];
    proof {
        assert(params_view(ps@) =~= seq![("id"@, text_view(team_id@))]);
    }
    steps.push(find_step::<Team, ResponseError>(
        ps,
        ArchiveFilter::Unarchived,
        true,
        INTERNAL_SERVER_ERROR,
        ResponseError::Team(TeamError::TeamNotFound),
    ));
    let ps: Vec<Param> = vec![text_param("team_id", team_id)];
    proof {
        assert(params_view(ps@) =~= seq![("team_id"@, text_view(team_id@))]);
    }
    steps.push(find_step::<Invitation, ResponseError>(
        ps,
        ArchiveFilter::Unarchived,
        false,
        INTERNAL_SERVER_ERROR,
        ResponseError::Team(TeamError::TeamNotFound),
    ));
    let ps: Vec<Param> = vec![text_param("team_id", team_id)];
    proof {
        assert(params_view(ps@) =~= seq![("team_id"@, text_view(team_id@))]);
    }
    steps.push(find_step::<Activity, ResponseError>(
        ps,
        ArchiveFilter::Unarchived,
        false,
        INTERNAL_SERVER_ERROR,
        ResponseError::Team(TeamError::TeamNotFound),
    ));
    steps
}

/// The statement that reads the user of an invitation.
pub fn member_user_plan(user_id: &String) -> (r: Vec<Step<ResponseError>>)
    ensures
        r@.len() == 1,
        finds::<User, ResponseError>(
            r@[0],
            ArchiveFilter::Unarchived,
            true,
            seq![("id"@, text_view(user_id@))],
            INTERNAL_SERVER_ERROR,
            ResponseError::User(UserError::UserNotFound),
        ),
{
    let mut steps: Vec<Step<ResponseError>> = Vec::new();
    let ps: Vec<Param> = vec![text_param("id", user_id)];
    proof {
        assert(params_view(ps@) =~= seq![("id"@, text_view(user_id@))]);
    }
    steps.push(find_step::<User, ResponseError>(
        ps,
        ArchiveFilter::Unarchived,
        true,
        INTERNAL_SERVER_ERROR,
        ResponseError::User(UserError::UserNotFound),
    ));
    steps
}

/// The statement that lists the skills of a member of a team.
pub fn member_skills_plan(user_id: &String) -> (r: Vec<Step<ResponseError>>)
    ensures
        r@.len() == 1,
        finds::<UserSkill, ResponseError>(
            r@[0],
            ArchiveFilter::Unarchived,
            false,
            seq![("user_id"@, text_view(user_id@))],
            INTERNAL_SERVER_ERROR,
            ResponseError::User(UserError::UserNotFound),
        ),
{
    let mut steps: Vec<Step<ResponseError>> = Vec::new();
    let ps: Vec<Param> = vec![text_param("user_id", user_id)];
    proof {
        assert(params_view(ps@) =~= seq![("user_id"@, text_view(user_id@))]);
    }
    steps.push(find_step::<UserSkill, ResponseError>(
        ps,
        ArchiveFilter::Unarchived,
        false,
        INTERNAL_SERVER_ERROR,
        ResponseError::User(UserError::UserNotFound),
    ));
    steps
}

/// How a user may see a team.
#[derive(Debug)]
pub enum TeamAccess {
    /// The user was invited: the team is read by its id.
    Invited,
    /// The user owns the team, which was already read.
    Owned(Team),
    /// Neither: the team is not found for this user.
    Denied,
}

/// Decides how a user may see a team: an invitation comes first, then
/// ownership.
pub fn team_access(invited: bool, owned: Option<Team>) -> (r: TeamAccess)
    ensures
        invited ==> r is Invited,
        !invited && owned is Some ==> (r matches TeamAccess::Owned(t) && t == owned.unwrap()),
        !invited && owned is None ==> r is Denied,
{
    if invited {
        TeamAccess::Invited
    } else {
        match owned {
            Some(t) => TeamAccess::Owned(t),
            None => TeamAccess::Denied,
        }
    }
}

/// The members of a team: the users joined with the team by its id.
pub fn team_members_query(team_id: &String) -> (r: Query)
    ensures
        r.sql@ == join_sql(
            table_of(User::spec_name()),
            table_of(Team::spec_name()),
            seq!["teams.team_id"@],
        ),
        value_views(r.binds@) == seq![text_view(team_id@)],
{
    let ps: Vec<Param> = vec![text_param("teams.team_id", team_id)];
    proof {
        assert(fields_of(params_view(ps@)) =~= seq!["teams.team_id"@]);
        assert(values_of(params_view(ps@)) =~= seq![text_view(team_id@)]);
    }
    join_query::<User, Team>(&ps)
}

impl InvitationResponse {
    /// An invitation with its user, and whether it was accepted or rejected.
    pub fn new(invitation: Invitation, user: User) -> (r: Self)
        ensures
            r.invitation == invitation,
            r.user == user,
            r.accepted == invitation.accepted_at.is_some(),
            r.rejected == invitation.rejected_at.is_some(),
    {
        let accepted = invitation.is_accepted();
        let rejected = invitation.is_rejected();
        InvitationResponse { invitation, user, accepted, rejected }
    }
}

impl TeamResponse {
    /// The view of a team: its invitations with their users, and the capability
    /// map of its members (each with their skills) given the team's activities:
    /// one group per distinct lowercased skill name, in order of first
    /// appearance, holding exactly one entry per member skill with that name
    /// and a level, in member order.
    pub fn new(
        team: Team,
        invitations: Vec<InvitationResponse>,
        members: &Vec<(User, Vec<UserSkill>)>,
        activities: &Vec<Activity>,
    ) -> (r: Self)
        ensures
            r.team == team,
            r.invitations == invitations,
            forall|a: int, b: int|
                0 <= a < b < r.capabilities@.len() ==> (#[trigger] r.capabilities@[a]).0@ != (
                #[trigger] r.capabilities@[b]).0@,
            forall|i: int, k: int|
                0 <= i < r.capabilities@.len() && 0 <= k < r.capabilities@[i].1@.len() ==> {
                    let c = #[trigger] r.capabilities@[i].1@[k];
                    &&& c.skill@ == r.capabilities@[i].0@
                    &&& c.available == is_free(opt_text(c.user.id), activities@)
                    &&& from_some_skill(members@, activities@, crate::capability::cap_view(c))
                },
            forall|m: int, s: int|
                0 <= m < members@.len() && 0 <= s < members@[m].1@.len() ==> (
                #[trigger] skill_capability(members@[m].0, members@[m].1@[s], activities@) matches Some(
                    cv,
                ) ==> exists|i: int|
                    0 <= i < r.capabilities@.len() && (#[trigger] r.capabilities@[i]).0@ == cv.1
                        && listed(r.capabilities@[i].1@, cv)),
            group_keys(r.capabilities@) == distinct_skills(all_capabilities(members@, activities@)),
            forall|i: int|
                0 <= i < r.capabilities@.len() ==> cap_views((#[trigger] r.capabilities@[i]).1@)
                    == with_skill(all_capabilities(members@, activities@), r.capabilities@[i].0@),
    {
        let capabilities = team_capabilities(members, activities);
        TeamResponse { team, invitations, capabilities }
    }
}

} // verus!
