//! Requests on the invitations of a team.

use vstd::prelude::*;
use crate::api::plan::{finds, find_step, text_param, Step, NOT_FOUND};
use crate::query::{params_view, text_view, ArchiveFilter, Param};
use crate::authentication::AuthenticationError;
use crate::invitation::{Invitation, InvitationError};
use crate::team::TeamError;
use crate::user::{User, UserError};

verus! {

/// The failure of a request, by the part of the system that raised it.
#[derive(Debug, Clone, Copy, PartialEq, Eq, Structural)]
pub enum ResponseError {
    Authentication(AuthenticationError),
    Invitation(InvitationError),
    Team(TeamError),
    User(UserError),
}

/// The statements of listing the invitations of a team.
pub fn get_invitations_plan(user_id: &String, team_id: &String) -> (r: Vec<Step<ResponseError>>)
    ensures
        r@.len() == 2,
        finds::<User, ResponseError>(
            r@[0],
            ArchiveFilter::Unarchived,
            true,
            seq![("id"@, text_view(user_id@))],
            NOT_FOUND,
            ResponseError::User(UserError::UserNotFound),
        ),
        finds::<Invitation, ResponseError>(
            r@[1],
            ArchiveFilter::Unarchived,
            false,
            seq![("team_id"@, text_view(team_id@))],
            NOT_FOUND,
            ResponseError::Team(TeamError::TeamNotFound),
        ),
{
    let mut steps: Vec<Step<ResponseError>> = Vec::new();
    let ps: Vec<Param> = vec![text_param("id", user_id)];
    proof {
        assert(params_view(ps@) =~= seq![("id"@, text_view(user_id@))]);
    }
    steps.push(find_step::<User, ResponseError>(
        ps,
        ArchiveFilter::Unarchived,
        true,
        NOT_FOUND,
        ResponseError::User(UserError::UserNotFound),
    ));
    let ps: Vec<Param> = vec![text_param("team_id", team_id)];
    proof {
        assert(params_view(ps@) =~= seq![("team_id"@, text_view(team_id@))]);
    }
    steps.push(find_step::<Invitation, ResponseError>(
        ps,
        ArchiveFilter::Unarchived,
        false,
        NOT_FOUND,
        ResponseError::Team(TeamError::TeamNotFound),
    ));
    steps
}


} // verus!
