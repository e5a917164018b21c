use vstd::prelude::*;
use crate::resource::DatabaseResource;
use vstd::string::*;

verus! {

/// What can go wrong with an activity request.
#[derive(Debug, Clone, Copy, PartialEq, Eq, Structural)]
pub enum ActivityError {
    ActivityNotFound,
    ActivityAlreadyExists,
    ActivityNotStarted,
    ActivityAlreadyStarted,
    ActivityAlreadyEnded,
    ActivityNotPaused,
    ActivityNotEnded,
    ActivityDeletionError,
    ActivityUpdateError,
    ActivityCreationError,
    ActivityCreationFailed,
    ActivityUpdateFailed,
    ActivityDeletionFailed,
}

impl ActivityError {
    /// The human-readable message of the error.
    pub open spec fn message(&self) -> Seq<char> {
        match self {
            ActivityError::ActivityNotFound => "Activity not found"@,
            ActivityError::ActivityAlreadyExists => "Activity already exists"@,
            ActivityError::ActivityNotStarted => "Activity not started"@,
            ActivityError::ActivityAlreadyStarted => "Activity already started"@,
            ActivityError::ActivityAlreadyEnded => "Activity already ended"@,
            ActivityError::ActivityNotPaused => "Activity not paused"@,
            ActivityError::ActivityNotEnded => "Activity not ended"@,
            ActivityError::ActivityDeletionError => "Activity deletion error"@,
            ActivityError::ActivityUpdateError => "Activity update error"@,
            ActivityError::ActivityCreationError => "Activity creation error"@,
            ActivityError::ActivityCreationFailed => "Failed to create activity"@,
            ActivityError::ActivityUpdateFailed => "Failed to update activity"@,
            ActivityError::ActivityDeletionFailed => "Failed to delete activity"@,
        }
    }

    pub fn to_string(&self) -> (r: String)
        ensures
            r@ == self.message(),
    {
        match self {
            ActivityError::ActivityNotFound => String::from_str("Activity not found"),
            ActivityError::ActivityAlreadyExists => String::from_str("Activity already exists"),
            ActivityError::ActivityNotStarted => String::from_str("Activity not started"),
            ActivityError::ActivityAlreadyStarted => String::from_str("Activity already started"),
            ActivityError::ActivityAlreadyEnded => String::from_str("Activity already ended"),
            ActivityError::ActivityNotPaused => String::from_str("Activity not paused"),
            ActivityError::ActivityNotEnded => String::from_str("Activity not ended"),
            ActivityError::ActivityDeletionError => String::from_str("Activity deletion error"),
            ActivityError::ActivityUpdateError => String::from_str("Activity update error"),
            ActivityError::ActivityCreationError => String::from_str("Activity creation error"),
            ActivityError::ActivityCreationFailed => String::from_str("Failed to create activity"),
            ActivityError::ActivityUpdateFailed => String::from_str("Failed to update activity"),
            ActivityError::ActivityDeletionFailed => String::from_str("Failed to delete activity"),
        }
    }
}

/// A task of a team: assigned to a member or not, paused, resumed, completed.
#[derive(Debug, Clone)]
pub struct Activity {
    pub id: Option<String>,
    pub activity_name: Option<String>,
    pub activity_description: Option<String>,
    pub assigned_to: Option<String>,
    pub team_id: Option<String>,
    pub duration_in_hours: Option<i64>,
    pub started_at: Option<i64>,
    pub paused_at: Option<i64>,
    pub ended_at: Option<i64>,
    pub created_at: Option<i64>,
    pub updated_at: Option<i64>,
    pub archived_at: Option<i64>,
}

impl DatabaseResource for Activity {
    open spec fn spec_name() -> Seq<char> {
        "Activity"@
    }

    open spec fn spec_has_id() -> bool {
        true
    }

    open spec fn spec_is_archivable() -> bool {
        true
    }

    open spec fn spec_is_updatable() -> bool {
        true
    }

    open spec fn spec_is_creatable() -> bool {
        true
    }

    open spec fn spec_is_expirable() -> bool {
        false
    }

    fn resource_name() -> (r: String) {
        let r = String::from_str("Activity");
        proof {
            reveal_strlit("Activity");
        }
        r
    }

    fn has_id() -> (r: bool) {
        true
    }

    fn is_archivable() -> (r: bool) {
        true
    }

    fn is_updatable() -> (r: bool) {
        true
    }

    fn is_creatable() -> (r: bool) {
        true
    }

    fn is_expirable() -> (r: bool) {
        false
    }
}

} // verus!
