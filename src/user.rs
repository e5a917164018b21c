use vstd::prelude::*;
use crate::resource::DatabaseResource;
use vstd::string::*;
use crate::values::{copy_text, opt_text};

verus! {

/// What can go wrong with a user request.
#[derive(Debug, Clone, Copy, PartialEq, Eq, Structural)]
pub enum UserError {
    UserNotFound,
    UserCreationFailed,
    UserUpdateFailed,
    UserDeletionFailed,
}

impl UserError {
    /// The human-readable message of the error.
    pub open spec fn message(&self) -> Seq<char> {
        match self {
            UserError::UserNotFound => "User not found"@,
            UserError::UserCreationFailed => "User creation failed"@,
            UserError::UserUpdateFailed => "User update failed"@,
            UserError::UserDeletionFailed => "User deletion failed"@,
        }
    }

    pub fn to_string(&self) -> (r: String)
        ensures
            r@ == self.message(),
    {
        match self {
            UserError::UserNotFound => String::from_str("User not found"),
            UserError::UserCreationFailed => String::from_str("User creation failed"),
            UserError::UserUpdateFailed => String::from_str("User update failed"),
            UserError::UserDeletionFailed => String::from_str("User deletion failed"),
        }
    }
}

/// A user account; the password hash is never part of it.
#[derive(Debug, Clone)]
pub struct User {
    pub id: Option<String>,
    pub first_name: Option<String>,
    pub last_name: Option<String>,
    pub username: Option<String>,
    pub created_at: Option<i64>,
    pub updated_at: Option<i64>,
    pub archived_at: Option<i64>,
}

impl DatabaseResource for User {
    open spec fn spec_name() -> Seq<char> {
        "User"@
    }

    open spec fn spec_has_id() -> bool {
        true
    }

    open spec fn spec_is_archivable() -> bool {
        true
    }

    open spec fn spec_is_updatable() -> bool {
        true
    }

    open spec fn spec_is_creatable() -> bool {
        true
    }

    open spec fn spec_is_expirable() -> bool {
        false
    }

    fn resource_name() -> (r: String) {
        let r = String::from_str("User");
        proof {
            reveal_strlit("User");
        }
        r
    }

    fn has_id() -> (r: bool) {
        true
    }

    fn is_archivable() -> (r: bool) {
        true
    }

    fn is_updatable() -> (r: bool) {
        true
    }

    fn is_creatable() -> (r: bool) {
        true
    }

    fn is_expirable() -> (r: bool) {
        false
    }
}

impl User {
    /// The user's fields, texts by their view.
    pub open spec fn fields(&self) -> (
        Option<Seq<char>>,
        Option<Seq<char>>,
        Option<Seq<char>>,
        Option<Seq<char>>,
        Option<i64>,
        Option<i64>,
        Option<i64>,
    ) {
        (
            opt_text(self.id),
            opt_text(self.first_name),
            opt_text(self.last_name),
            opt_text(self.username),
            self.created_at,
            self.updated_at,
            self.archived_at,
        )
    }

    /// A copy of the user.
    pub fn duplicate(&self) -> (r: User)
        ensures
            r.fields() == self.fields(),
    {
        User {
            id: copy_text(&self.id),
            first_name: copy_text(&self.first_name),
            last_name: copy_text(&self.last_name),
            username: copy_text(&self.username),
            created_at: self.created_at,
            updated_at: self.updated_at,
            archived_at: self.archived_at,
        }
    }
}

} // verus!
