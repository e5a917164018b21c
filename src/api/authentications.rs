//! Requests that sign users in and out, and register and unregister them.

use vstd::prelude::*;
use crate::api::plan::{
    finds,
    inserts,
    updates,
    deletes,
    find_step,
    insert_step,
    update_step,
    delete_step,
    text_param,
    null_param,
    hashed_param,
    Stamps,
    Step,
    NOT_FOUND,
    INTERNAL_SERVER_ERROR,
};
use crate::query::{params_view, text_view, ArchiveFilter, Param};
use crate::passwords::sha512_hex_of;
use crate::authentication::{Authentication, AuthenticationError};
use crate::backup_code::{BackupCode, BackupCodeError};
use crate::user::{User, UserError};

verus! {

/// The failure of a request, by the part of the system that raised it.
#[derive(Debug, Clone, Copy, PartialEq, Eq, Structural)]
pub enum ResponseError {
    Authentication(AuthenticationError),
    User(UserError),
    BackupCode(BackupCodeError),
}

#[derive(Debug, Clone)]
pub struct AuthenticationRequest {
    pub username: String,
    pub password: String,
}

#[derive(Debug, Clone)]
pub struct RegisterRequest {
    pub first_name: String,
    pub last_name: String,
    pub username: String,
    pub password: String,
}

#[derive(Debug, Clone)]
pub struct ResponseBackupCode {
    pub code: Option<String>,
    pub user_id: Option<String>,
}

#[derive(Debug, Clone)]
pub struct ResponseUser {
    pub user: User,
    pub backup_codes: Vec<String>,
}

/// The first statement of a login: the unarchived user with the username and the
/// stored form of the password. The statement that follows is the lookup of the
/// user's sessions, then the one `login_statement` chooses.
pub fn login_plan(request: &AuthenticationRequest) -> (r: Vec<Step<ResponseError>>)
    ensures
        r@.len() == 1,
        finds::<User, ResponseError>(
            r@[0],
            ArchiveFilter::Unarchived,
            true,
            seq![
                ("username"@, text_view(request.username@)),
                ("password_hash"@, text_view(sha512_hex_of(request.password@))),
            ],
            NOT_FOUND,
            ResponseError::User(UserError::UserNotFound),
        ),
{
    let mut steps: Vec<Step<ResponseError>> = Vec::new();
    let ps: Vec<Param> = vec![
        text_param("username", &request.username),
        hashed_param("password_hash", &request.password),
    ];
    proof {
        assert(params_view(ps@) =~= seq![
            ("username"@, text_view(request.username@)),
            ("password_hash"@, text_view(sha512_hex_of(request.password@))),
        ]);
    }
    steps.push(find_step::<User, ResponseError>(
        ps,
        ArchiveFilter::Unarchived,
        true,
        NOT_FOUND,
        ResponseError::User(UserError::UserNotFound),
    ));
    steps
}

/// The lookup of all the sessions of a user, which a login chooses from.
pub fn sessions_plan(user_id: &String) -> (r: Vec<Step<ResponseError>>)
    ensures
        r@.len() == 1,
        finds::<Authentication, ResponseError>(
            r@[0],
            ArchiveFilter::Any,
            false,
            seq![("user_id"@, text_view(user_id@))],
            INTERNAL_SERVER_ERROR,
            ResponseError::Authentication(AuthenticationError::SessionCreationFailed),
        ),
{
    let mut steps: Vec<Step<ResponseError>> = Vec::new();
    let ps: Vec<Param> = vec![text_param("user_id", user_id)];
    proof {
        assert(params_view(ps@) =~= seq![("user_id"@, text_view(user_id@))]);
    }
    steps.push(find_step::<Authentication, ResponseError>(
        ps,
        ArchiveFilter::Any,
        false,
        INTERNAL_SERVER_ERROR,
        ResponseError::Authentication(AuthenticationError::SessionCreationFailed),
    ));
    steps
}

/// The statement of a logout: the session with the bearer token is deleted.
pub fn logout_plan(token: &String, stamps: &Stamps) -> (r: Vec<Step<ResponseError>>)
    ensures
        r@.len() == 1,
        deletes::<Authentication, ResponseError>(
            r@[0],
            seq![("token"@, text_view(token@))],
            *stamps,
            INTERNAL_SERVER_ERROR,
            ResponseError::Authentication(AuthenticationError::SessionDeletionFailed),
        ),
{
    let mut steps: Vec<Step<ResponseError>> = Vec::new();
    let ps: Vec<Param> = vec![text_param("token", token)];
    proof {
        assert(params_view(ps@) =~= seq![("token"@, text_view(token@))]);
    }
    steps.push(delete_step::<Authentication, ResponseError>(
        ps,
        stamps,
        INTERNAL_SERVER_ERROR,
        ResponseError::Authentication(AuthenticationError::SessionDeletionFailed),
    ));
    steps
}

/// The first statement of a registration: an archived user with the same username
/// and password, whom registering restores instead of creating another.
pub fn register_lookup_plan(request: &RegisterRequest) -> (r: Vec<Step<ResponseError>>)
    ensures
        r@.len() == 1,
        finds::<User, ResponseError>(
            r@[0],
            ArchiveFilter::Archived,
            true,
            seq![
                ("username"@, text_view(request.username@)),
                ("password_hash"@, text_view(sha512_hex_of(request.password@))),
            ],
            NOT_FOUND,
            ResponseError::User(UserError::UserNotFound),
        ),
{
    let mut steps: Vec<Step<ResponseError>> = Vec::new();
    let ps: Vec<Param> = vec![
        text_param("username", &request.username),
        hashed_param("password_hash", &request.password),
    ];
    proof {
        assert(params_view(ps@) =~= seq![
            ("username"@, text_view(request.username@)),
            ("password_hash"@, text_view(sha512_hex_of(request.password@))),
        ]);
    }
    steps.push(find_step::<User, ResponseError>(
        ps,
        ArchiveFilter::Archived,
        true,
        NOT_FOUND,
        ResponseError::User(UserError::UserNotFound),
    ));
    steps
}

/// The statement that restores an archived user. The updated row is then read again
/// by its id.
pub fn register_restore_plan(user_id: &String, stamps: &Stamps) -> (r: Vec<Step<ResponseError>>)
    ensures
        r@.len() == 2,
        updates::<User, ResponseError>(
            r@[0],
            seq![("archived_at"@, (0nat, None::<Seq<char>>))],
            user_id@,
            *stamps,
            INTERNAL_SERVER_ERROR,
            ResponseError::User(UserError::UserUpdateFailed),
        ),
        finds::<User, ResponseError>(
            r@[1],
            ArchiveFilter::Any,
            true,
            seq![("id"@, text_view(user_id@))],
            INTERNAL_SERVER_ERROR,
            ResponseError::User(UserError::UserUpdateFailed),
        ),
{
    let mut steps: Vec<Step<ResponseError>> = Vec::new();
    let ps: Vec<Param> = vec![null_param("archived_at")];
    proof {
        assert(params_view(ps@) =~= seq![("archived_at"@, (0nat, None::<Seq<char>>))]);
    }
    steps.push(update_step::<User, ResponseError>(
        ps,
        user_id,
        stamps,
        INTERNAL_SERVER_ERROR,
        ResponseError::User(UserError::UserUpdateFailed),
    ));
    let ps: Vec<Param> = vec![text_param("id", user_id)];
    proof {
        assert(params_view(ps@) =~= seq![("id"@, text_view(user_id@))]);
    }
    steps.push(find_step::<User, ResponseError>(
        ps,
        ArchiveFilter::Any,
        true,
        INTERNAL_SERVER_ERROR,
        ResponseError::User(UserError::UserUpdateFailed),
    ));
    steps
}

/// The statement that creates a new user; the backup codes are inserted after it.
pub fn register_create_plan(request: &RegisterRequest, stamps: &Stamps) -> (r: Vec<Step<ResponseError>>)
    ensures
        r@.len() == 1,
        inserts::<User, ResponseError>(
            r@[0],
            seq![
                ("first_name"@, text_view(request.first_name@)),
                ("last_name"@, text_view(request.last_name@)),
                ("username"@, text_view(request.username@)),
                ("password_hash"@, text_view(sha512_hex_of(request.password@))),
            ],
            *stamps,
            INTERNAL_SERVER_ERROR,
            ResponseError::User(UserError::UserCreationFailed),
        ),
{
    let mut steps: Vec<Step<ResponseError>> = Vec::new();
    let ps: Vec<Param> = vec![
        text_param("first_name", &request.first_name),
        text_param("last_name", &request.last_name),
        text_param("username", &request.username),
        hashed_param("password_hash", &request.password),
    ];
    proof {
        assert(params_view(ps@) =~= seq![
            ("first_name"@, text_view(request.first_name@)),
            ("last_name"@, text_view(request.last_name@)),
            ("username"@, text_view(request.username@)),
            ("password_hash"@, text_view(sha512_hex_of(request.password@))),
        ]);
    }
    steps.push(insert_step::<User, ResponseError>(
        ps,
        stamps,
        INTERNAL_SERVER_ERROR,
        ResponseError::User(UserError::UserCreationFailed),
    ));
    steps
}

/// The statements of unregistering: the user must exist, archived or not; the
/// backup codes, the sessions and the user are deleted in turn.
pub fn unregister_plan(user_id: &String, stamps: &Stamps) -> (r: Vec<Step<ResponseError>>)
    ensures
        r@.len() == 4,
        finds::<User, ResponseError>(
            r@[0],
            ArchiveFilter::Any,
            true,
            seq![("id"@, text_view(user_id@))],
            NOT_FOUND,
            ResponseError::User(UserError::UserNotFound),
        ),
        deletes::<BackupCode, ResponseError>(
            r@[1],
            seq![("user_id"@, text_view(user_id@))],
            *stamps,
            INTERNAL_SERVER_ERROR,
            ResponseError::BackupCode(BackupCodeError::CodeDeletionFailed),
        ),
        deletes::<Authentication, ResponseError>(
            r@[2],
            seq![("user_id"@, text_view(user_id@))],
            *stamps,
            NOT_FOUND,
            ResponseError::Authentication(AuthenticationError::SessionNotFound),
        ),
        deletes::<User, ResponseError>(
            r@[3],
            seq![("id"@, text_view(user_id@))],
            *stamps,
            INTERNAL_SERVER_ERROR,
            ResponseError::User(UserError::UserDeletionFailed),
        ),
{
    let mut steps: Vec<Step<ResponseError>> = Vec::new();
    let ps: Vec<Param> = vec![text_param("id", user_id)];
    proof {
        assert(params_view(ps@) =~= seq![("id"@, text_view(user_id@))]);
    }
    steps.push(find_step::<User, ResponseError>(
        ps,
        ArchiveFilter::Any,
        true,
        NOT_FOUND,
        ResponseError::User(UserError::UserNotFound),
    ));
    let ps: Vec<Param> = vec![text_param("user_id", user_id)];
    proof {
        assert(params_view(ps@) =~= seq![("user_id"@, text_view(user_id@))]);
    }
    steps.push(delete_step::<BackupCode, ResponseError>(
        ps,
        stamps,
        INTERNAL_SERVER_ERROR,
        ResponseError::BackupCode(BackupCodeError::CodeDeletionFailed),
    ));
    let ps: Vec<Param> = vec![text_param("user_id", user_id)];
    proof {
        assert(params_view(ps@) =~= seq![("user_id"@, text_view(user_id@))]);
    }
    steps.push(delete_step::<Authentication, ResponseError>(
        ps,
        stamps,
        NOT_FOUND,
        ResponseError::Authentication(AuthenticationError::SessionNotFound),
    ));
    let ps: Vec<Param> = vec![text_param("id", user_id)];
    proof {
        assert(params_view(ps@) =~= seq![("id"@, text_view(user_id@))]);
    }
    steps.push(delete_step::<User, ResponseError>(
        ps,
        stamps,
        INTERNAL_SERVER_ERROR,
        ResponseError::User(UserError::UserDeletionFailed),
    ));
    steps
}


} // verus!
