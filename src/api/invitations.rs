//! Requests on invitations, seen from the invited user.

use vstd::prelude::*;
use crate::api::plan::{finds, find_step, text_param, Step, NOT_FOUND};
use crate::query::{params_view, text_view, ArchiveFilter, Param};
use crate::authentication::AuthenticationError;
use crate::invitation::{Invitation, InvitationError};
use crate::team::TeamError;
use crate::user::{User, UserError};

verus! {

/// The failure of a request, by the part of the system that raised it.
#[derive(Debug, Clone, Copy, PartialEq, Eq, Structural)]
pub enum ResponseError {
    Authentication(AuthenticationError),
    Invitation(InvitationError),
    Team(TeamError),
    User(UserError),
}

#[derive(Debug, Clone)]
pub struct InvitationResponse {
    pub invitation: Invitation,
    pub user: User,
    pub accepted: bool,
    pub rejected: bool,
}

/// The statements of listing the user's invitations; each is then paired with its
/// user.
pub fn get_invitations_plan(user_id: &String) -> (r: Vec<Step<ResponseError>>)
    ensures
        r@.len() == 2,
        finds::<User, ResponseError>(
            r@[0],
            ArchiveFilter::Unarchived,
            true,
            seq![("id"@, text_view(user_id@))],
            NOT_FOUND,
            ResponseError::User(UserError::UserNotFound),
        ),
        finds::<Invitation, ResponseError>(
            r@[1],
            ArchiveFilter::Unarchived,
            false,
            seq![("user_id"@, text_view(user_id@))],
            NOT_FOUND,
            ResponseError::Invitation(InvitationError::InvitationNotFound),
        ),
{
    let mut steps: Vec<Step<ResponseError>> = Vec::new();
    let ps: Vec<Param> = vec![text_param("id", user_id)];
    proof {
        assert(params_view(ps@) =~= seq![("id"@, text_view(user_id@))]);
    }
    steps.push(find_step::<User, ResponseError>(
        ps,
        ArchiveFilter::Unarchived,
        true,
        NOT_FOUND,
        ResponseError::User(UserError::UserNotFound),
    ));
    let ps: Vec<Param> = vec![text_param("user_id", user_id)];
    proof {
        assert(params_view(ps@) =~= seq![("user_id"@, text_view(user_id@))]);
    }
    steps.push(find_step::<Invitation, ResponseError>(
        ps,
        ArchiveFilter::Unarchived,
        false,
        NOT_FOUND,
        ResponseError::Invitation(InvitationError::InvitationNotFound),
    ));
    steps
}

/// The statements of reading one of the user's invitations.
pub fn get_invitation_plan(user_id: &String, invitation_id: &String) -> (r: Vec<Step<ResponseError>>)
    ensures
        r@.len() == 2,
        finds::<User, ResponseError>(
            r@[0],
            ArchiveFilter::Unarchived,
            true,
            seq![("id"@, text_view(user_id@))],
            NOT_FOUND,
            ResponseError::User(UserError::UserNotFound),
        ),
        finds::<Invitation, ResponseError>(
            r@[1],
            ArchiveFilter::Unarchived,
            true,
            seq![("id"@, text_view(invitation_id@)), ("user_id"@, text_view(user_id@))],
            NOT_FOUND,
            ResponseError::Invitation(InvitationError::InvitationNotFound),
        ),
{
    let mut steps: Vec<Step<ResponseError>> = Vec::new();
    let ps: Vec<Param> = vec![text_param("id", user_id)];
    proof {
        assert(params_view(ps@) =~= seq![("id"@, text_view(user_id@))]);
    }
    steps.push(find_step::<User, ResponseError>(
        ps,
        ArchiveFilter::Unarchived,
        true,
        NOT_FOUND,
        ResponseError::User(UserError::UserNotFound),
    ));
    let ps: Vec<Param> = vec![text_param("id", invitation_id), text_param("user_id", user_id)];
    proof {
        assert(params_view(ps@) =~= seq![("id"@, text_view(invitation_id@)), ("user_id"@, text_view(user_id@))]);
    }
    steps.push(find_step::<Invitation, ResponseError>(
        ps,
        ArchiveFilter::Unarchived,
        true,
        NOT_FOUND,
        ResponseError::Invitation(InvitationError::InvitationNotFound),
    ));
    steps
}


} // verus!
