//! Requests on the list of users.

use vstd::prelude::*;
use crate::api::plan::{finds, find_step, Step, NOT_FOUND};
use crate::query::{params_view, ArchiveFilter, Param, ParamView};
use crate::authentication::AuthenticationError;
use crate::user::{User, UserError};

verus! {

/// The failure of a request, by the part of the system that raised it.
#[derive(Debug, Clone, Copy, PartialEq, Eq, Structural)]
pub enum ResponseError {
    User(UserError),
    Authentication(AuthenticationError),
}

/// The statement of listing every unarchived user.
pub fn get_users_plan() -> (r: Vec<Step<ResponseError>>)
    ensures
        r@.len() == 1,
        finds::<User, ResponseError>(
            r@[0],
            ArchiveFilter::Unarchived,
            false,
            Seq::<ParamView>::empty(),
            NOT_FOUND,
            ResponseError::User(UserError::UserNotFound),
        ),
{
    let mut steps: Vec<Step<ResponseError>> = Vec::new();
    let ps: Vec<Param> = Vec::new();
    proof {
        assert(params_view(ps@) =~= Seq::<ParamView>::empty());
    }
    steps.push(find_step::<User, ResponseError>(
        ps,
        ArchiveFilter::Unarchived,
        false,
        NOT_FOUND,
        ResponseError::User(UserError::UserNotFound),
    ));
    steps
}


} // verus!
