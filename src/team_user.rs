use vstd::prelude::*;
use crate::resource::DatabaseResource;
use vstd::string::*;

verus! {

/// What can go wrong with a team membership request.
#[derive(Debug, Clone, Copy, PartialEq, Eq, Structural)]
pub enum TeamUserError {
    TeamUserNotFound,
    TeamUserCreationFailed,
    TeamUserDeletionFailed,
}

impl TeamUserError {
    /// The human-readable message of the error.
    pub open spec fn message(&self) -> Seq<char> {
        match self {
            TeamUserError::TeamUserNotFound => "Team user not found"@,
            TeamUserError::TeamUserCreationFailed => "Team user creation failed"@,
            TeamUserError::TeamUserDeletionFailed => "Team user deletion failed"@,
        }
    }

    pub fn to_string(&self) -> (r: String)
        ensures
            r@ == self.message(),
    {
        match self {
            TeamUserError::TeamUserNotFound => String::from_str("Team user not found"),
            TeamUserError::TeamUserCreationFailed => String::from_str("Team user creation failed"),
            TeamUserError::TeamUserDeletionFailed => String::from_str("Team user deletion failed"),
        }
    }
}

/// The membership of a user in a team.
#[derive(Debug, Clone)]
pub struct TeamUser {
    pub team_id: Option<String>,
    pub user_id: Option<String>,
}

impl DatabaseResource for TeamUser {
    open spec fn spec_name() -> Seq<char> {
        "TeamUser"@
    }

    open spec fn spec_has_id() -> bool {
        false
    }

    open spec fn spec_is_archivable() -> bool {
        false
    }

    open spec fn spec_is_updatable() -> bool {
        false
    }

    open spec fn spec_is_creatable() -> bool {
        false
    }

    open spec fn spec_is_expirable() -> bool {
        false
    }

    fn resource_name() -> (r: String) {
        let r = String::from_str("TeamUser");
        proof {
            reveal_strlit("TeamUser");
        }
        r
    }

    fn has_id() -> (r: bool) {
        false
    }

    fn is_archivable() -> (r: bool) {
        false
    }

    fn is_updatable() -> (r: bool) {
        false
    }

    fn is_creatable() -> (r: bool) {
        false
    }

    fn is_expirable() -> (r: bool) {
        false
    }
}

} // verus!
