use vstd::prelude::*;
use crate::resource::DatabaseResource;
use vstd::string::*;

verus! {

/// What can go wrong with a team request.
#[derive(Debug, Clone, Copy, PartialEq, Eq, Structural)]
pub enum TeamError {
    TeamNotFound,
    TeamCreationFailed,
    TeamUpdateFailed,
    TeamDeletionFailed,
}

impl TeamError {
    /// The human-readable message of the error.
    pub open spec fn message(&self) -> Seq<char> {
        match self {
            TeamError::TeamNotFound => "Team not found"@,
            TeamError::TeamCreationFailed => "Team creation failed"@,
            TeamError::TeamUpdateFailed => "Team update failed"@,
            TeamError::TeamDeletionFailed => "Team deletion failed"@,
        }
    }

    pub fn to_string(&self) -> (r: String)
        ensures
            r@ == self.message(),
    {
        match self {
            TeamError::TeamNotFound => String::from_str("Team not found"),
            TeamError::TeamCreationFailed => String::from_str("Team creation failed"),
            TeamError::TeamUpdateFailed => String::from_str("Team update failed"),
            TeamError::TeamDeletionFailed => String::from_str("Team deletion failed"),
        }
    }
}

/// A team, owned by a user.
#[derive(Debug, Clone)]
pub struct Team {
    pub id: Option<String>,
    pub owner_id: Option<String>,
    pub team_name: Option<String>,
    pub team_description: Option<String>,
    pub created_at: Option<i64>,
    pub updated_at: Option<i64>,
    pub archived_at: Option<i64>,
}

impl DatabaseResource for Team {
    open spec fn spec_name() -> Seq<char> {
        "Team"@
    }

    open spec fn spec_has_id() -> bool {
        true
    }

    open spec fn spec_is_archivable() -> bool {
        true
    }

    open spec fn spec_is_updatable() -> bool {
        true
    }

    open spec fn spec_is_creatable() -> bool {
        true
    }

    open spec fn spec_is_expirable() -> bool {
        false
    }

    fn resource_name() -> (r: String) {
        let r = String::from_str("Team");
        proof {
            reveal_strlit("Team");
        }
        r
    }

    fn has_id() -> (r: bool) {
        true
    }

    fn is_archivable() -> (r: bool) {
        true
    }

    fn is_updatable() -> (r: bool) {
        true
    }

    fn is_creatable() -> (r: bool) {
        true
    }

    fn is_expirable() -> (r: bool) {
        false
    }
}

} // verus!
