use vstd::prelude::*;
use crate::resource::DatabaseResource;
use crate::team_role::TeamRole;
use vstd::string::*;

verus! {

/// What can go wrong with an invitation request.
#[derive(Debug, Clone, Copy, PartialEq, Eq, Structural)]
pub enum InvitationError {
    InvitationNotFound,
    InvitationCreationFailed,
    InvitationUpdateFailed,
    InvitationDeletionFailed,
}

impl InvitationError {
    /// The human-readable message of the error.
    pub open spec fn message(&self) -> Seq<char> {
        match self {
            InvitationError::InvitationNotFound => "Invitation not found"@,
            InvitationError::InvitationCreationFailed => "Invitation creation failed"@,
            InvitationError::InvitationUpdateFailed => "Invitation update failed"@,
            InvitationError::InvitationDeletionFailed => "Invitation deletion failed"@,
        }
    }

    pub fn to_string(&self) -> (r: String)
        ensures
            r@ == self.message(),
    {
        match self {
            InvitationError::InvitationNotFound => String::from_str("Invitation not found"),
            InvitationError::InvitationCreationFailed => String::from_str("Invitation creation failed"),
            InvitationError::InvitationUpdateFailed => String::from_str("Invitation update failed"),
            InvitationError::InvitationDeletionFailed => String::from_str("Invitation deletion failed"),
        }
    }
}

/// An invitation of a user into a team, with a role; accepted or rejected once answered.
#[derive(Debug, Clone)]
pub struct Invitation {
    pub id: Option<String>,
    pub user_id: Option<String>,
    pub team_id: Option<String>,
    pub team_role: Option<TeamRole>,
    pub created_at: Option<i64>,
    pub updated_at: Option<i64>,
    pub accepted_at: Option<i64>,
    pub rejected_at: Option<i64>,
}

impl DatabaseResource for Invitation {
    open spec fn spec_name() -> Seq<char> {
        "Invitation"@
    }

    open spec fn spec_has_id() -> bool {
        true
    }

    open spec fn spec_is_archivable() -> bool {
        false
    }

    open spec fn spec_is_updatable() -> bool {
        true
    }

    open spec fn spec_is_creatable() -> bool {
        true
    }

    open spec fn spec_is_expirable() -> bool {
        false
    }

    fn resource_name() -> (r: String) {
        let r = String::from_str("Invitation");
        proof {
            reveal_strlit("Invitation");
        }
        r
    }

    fn has_id() -> (r: bool) {
        true
    }

    fn is_archivable() -> (r: bool) {
        false
    }

    fn is_updatable() -> (r: bool) {
        true
    }

    fn is_creatable() -> (r: bool) {
        true
    }

    fn is_expirable() -> (r: bool) {
        false
    }
}

impl Invitation {
    /// The invitation was accepted: `accepted_at` is set.
    pub fn is_accepted(&self) -> (r: bool)
        ensures
            r == self.accepted_at.is_some(),
    {
        self.accepted_at.is_some()
    }

    /// The invitation was rejected: `rejected_at` is set.
    pub fn is_rejected(&self) -> (r: bool)
        ensures
            r == self.rejected_at.is_some(),
    {
        self.rejected_at.is_some()
    }
}

} // verus!
