//! Requests on the signed-in user's own account.

use vstd::prelude::*;
use crate::api::plan::{
    finds,
    updates,
    find_step,
    update_step,
    text_param,
    text_or_empty_param,
    hashed_param,
    Stamps,
    Step,
    NOT_FOUND,
    INTERNAL_SERVER_ERROR,
};
use crate::query::{params_view, text_view, ArchiveFilter, Param};
use crate::passwords::sha512_hex_of;
use crate::authentication::AuthenticationError;
use crate::user::{User, UserError};

verus! {

/// The failure of a request, by the part of the system that raised it.
#[derive(Debug, Clone, Copy, PartialEq, Eq, Structural)]
pub enum ResponseError {
    Authentication(AuthenticationError),
    User(UserError),
}

#[derive(Debug, Clone)]
pub struct UserChangePasswordRequest {
    pub old_password: String,
    pub new_password: String,
}

/// The statement of reading the user.
pub fn get_user_plan(user_id: &String) -> (r: Vec<Step<ResponseError>>)
    ensures
        r@.len() == 1,
        finds::<User, ResponseError>(
            r@[0],
            ArchiveFilter::Unarchived,
            true,
            seq![("id"@, text_view(user_id@))],
            NOT_FOUND,
            ResponseError::User(UserError::UserNotFound),
        ),
{
    let mut steps: Vec<Step<ResponseError>> = Vec::new();
    let ps: Vec<Param> = vec![text_param("id", user_id)];
    proof {
        assert(params_view(ps@) =~= seq![("id"@, text_view(user_id@))]);
    }
    steps.push(find_step::<User, ResponseError>(
        ps,
        ArchiveFilter::Unarchived,
        true,
        NOT_FOUND,
        ResponseError::User(UserError::UserNotFound),
    ));
    steps
}

/// The statements of updating the user's names: all three are written, a name left
/// out as empty text. The updated row is then read again by its id.
pub fn update_user_plan(user_id: &String, user: &User, stamps: &Stamps) -> (r: Vec<Step<ResponseError>>)
    ensures
        r@.len() == 3,
        finds::<User, ResponseError>(
            r@[0],
            ArchiveFilter::Unarchived,
            true,
            seq![("id"@, text_view(user_id@))],
            NOT_FOUND,
            ResponseError::User(UserError::UserNotFound),
        ),
        updates::<User, ResponseError>(
            r@[1],
            seq![
                ("first_name"@, text_view(match user.first_name { Some(v) => v@, None => Seq::<char>::empty() })),
                ("last_name"@, text_view(match user.last_name { Some(v) => v@, None => Seq::<char>::empty() })),
                ("username"@, text_view(match user.username { Some(v) => v@, None => Seq::<char>::empty() })),
            ],
            user_id@,
            *stamps,
            INTERNAL_SERVER_ERROR,
            ResponseError::User(UserError::UserUpdateFailed),
        ),
        finds::<User, ResponseError>(
            r@[2],
            ArchiveFilter::Any,
            true,
            seq![("id"@, text_view(user_id@))],
            INTERNAL_SERVER_ERROR,
            ResponseError::User(UserError::UserUpdateFailed),
        ),
{
    let mut steps: Vec<Step<ResponseError>> = Vec::new();
    let ps: Vec<Param> = vec![text_param("id", user_id)];
    proof {
        assert(params_view(ps@) =~= seq![("id"@, text_view(user_id@))]);
    }
    steps.push(find_step::<User, ResponseError>(
        ps,
        ArchiveFilter::Unarchived,
        true,
        NOT_FOUND,
        ResponseError::User(UserError::UserNotFound),
    ));
    let ps: Vec<Param> = vec![
        text_or_empty_param("first_name", &user.first_name),
        text_or_empty_param("last_name", &user.last_name),
        text_or_empty_param("username", &user.username),
    ];
    proof {
        assert(params_view(ps@) =~= seq![
            ("first_name"@, text_view(match user.first_name { Some(v) => v@, None => Seq::<char>::empty() })),
            ("last_name"@, text_view(match user.last_name { Some(v) => v@, None => Seq::<char>::empty() })),
            ("username"@, text_view(match user.username { Some(v) => v@, None => Seq::<char>::empty() })),
        ]);
    }
    steps.push(update_step::<User, ResponseError>(
        ps,
        user_id,
        stamps,
        INTERNAL_SERVER_ERROR,
        ResponseError::User(UserError::UserUpdateFailed),
    ));
    let ps: Vec<Param> = vec![text_param("id", user_id)];
    proof {
        assert(params_view(ps@) =~= seq![("id"@, text_view(user_id@))]);
    }
    steps.push(find_step::<User, ResponseError>(
        ps,
        ArchiveFilter::Any,
        true,
        INTERNAL_SERVER_ERROR,
        ResponseError::User(UserError::UserUpdateFailed),
    ));
    steps
}

/// The statements of changing the user's password: the old one must match. The
/// updated row is then read again by its id.
pub fn change_password_plan(user_id: &String, request: &UserChangePasswordRequest, stamps: &Stamps) -> (r: Vec<Step<ResponseError>>)
    ensures
        r@.len() == 3,
        finds::<User, ResponseError>(
            r@[0],
            ArchiveFilter::Unarchived,
            true,
            seq![
                ("id"@, text_view(user_id@)),
                ("password_hash"@, text_view(sha512_hex_of(request.old_password@))),
            ],
            NOT_FOUND,
            ResponseError::User(UserError::UserNotFound),
        ),
        updates::<User, ResponseError>(
            r@[1],
            seq![("password_hash"@, text_view(sha512_hex_of(request.new_password@)))],
            user_id@,
            *stamps,
            INTERNAL_SERVER_ERROR,
            ResponseError::User(UserError::UserUpdateFailed),
        ),
        finds::<User, ResponseError>(
            r@[2],
            ArchiveFilter::Any,
            true,
            seq![("id"@, text_view(user_id@))],
            INTERNAL_SERVER_ERROR,
            ResponseError::User(UserError::UserUpdateFailed),
        ),
{
    let mut steps: Vec<Step<ResponseError>> = Vec::new();
    let ps: Vec<Param> = vec![
        text_param("id", user_id),
        hashed_param("password_hash", &request.old_password),
    ];
    proof {
        assert(params_view(ps@) =~= seq![
            ("id"@, text_view(user_id@)),
            ("password_hash"@, text_view(sha512_hex_of(request.old_password@))),
        ]);
    }
    steps.push(find_step::<User, ResponseError>(
        ps,
        ArchiveFilter::Unarchived,
        true,
        NOT_FOUND,
        ResponseError::User(UserError::UserNotFound),
    ));
    let ps: Vec<Param> = vec![hashed_param("password_hash", &request.new_password)];
    proof {
        assert(params_view(ps@) =~= seq![("password_hash"@, text_view(sha512_hex_of(request.new_password@)))]);
    }
    steps.push(update_step::<User, ResponseError>(
        ps,
        user_id,
        stamps,
        INTERNAL_SERVER_ERROR,
        ResponseError::User(UserError::UserUpdateFailed),
    ));
    let ps: Vec<Param> = vec![text_param("id", user_id)];
    proof {
        assert(params_view(ps@) =~= seq![("id"@, text_view(user_id@))]);
    }
    steps.push(find_step::<User, ResponseError>(
        ps,
        ArchiveFilter::Any,
        true,
        INTERNAL_SERVER_ERROR,
        ResponseError::User(UserError::UserUpdateFailed),
    ));
    steps
}


} // verus!
