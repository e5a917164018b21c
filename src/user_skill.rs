use vstd::prelude::*;
use crate::resource::DatabaseResource;
use vstd::string::*;

verus! {

/// What can go wrong with a user skill request.
#[derive(Debug, Clone, Copy, PartialEq, Eq, Structural)]
pub enum UserSkillError {
    UserSkillsNotFound,
    UserSkillCreationFailed,
    UserSkillNotFound,
    UserSkillUpdateFailed,
    UserSkillDeletionFailed,
}

impl UserSkillError {
    /// The human-readable message of the error.
    pub open spec fn message(&self) -> Seq<char> {
        match self {
            UserSkillError::UserSkillsNotFound => "User skills not found"@,
            UserSkillError::UserSkillCreationFailed => "User skill creation failed"@,
            UserSkillError::UserSkillNotFound => "User skill not found"@,
            UserSkillError::UserSkillUpdateFailed => "User skill update failed"@,
            UserSkillError::UserSkillDeletionFailed => "User skill deletion failed"@,
        }
    }

    pub fn to_string(&self) -> (r: String)
        ensures
            r@ == self.message(),
    {
        match self {
            UserSkillError::UserSkillsNotFound => String::from_str("User skills not found"),
            UserSkillError::UserSkillCreationFailed => String::from_str("User skill creation failed"),
            UserSkillError::UserSkillNotFound => String::from_str("User skill not found"),
            UserSkillError::UserSkillUpdateFailed => String::from_str("User skill update failed"),
            UserSkillError::UserSkillDeletionFailed => String::from_str("User skill deletion failed"),
        }
    }
}

/// A skill of a user, with its level; the name is stored lowercased.
#[derive(Debug, Clone)]
pub struct UserSkill {
    pub id: Option<String>,
    pub user_id: Option<String>,
    pub skill_name: Option<String>,
    pub skill_level: Option<i32>,
    pub created_at: Option<i64>,
    pub updated_at: Option<i64>,
}

impl DatabaseResource for UserSkill {
    open spec fn spec_name() -> Seq<char> {
        "UserSkill"@
    }

    open spec fn spec_has_id() -> bool {
        true
    }

    open spec fn spec_is_archivable() -> bool {
        false
    }

    open spec fn spec_is_updatable() -> bool {
        true
    }

    open spec fn spec_is_creatable() -> bool {
        true
    }

    open spec fn spec_is_expirable() -> bool {
        false
    }

    fn resource_name() -> (r: String) {
        let r = String::from_str("UserSkill");
        proof {
            reveal_strlit("UserSkill");
        }
        r
    }

    fn has_id() -> (r: bool) {
        true
    }

    fn is_archivable() -> (r: bool) {
        false
    }

    fn is_updatable() -> (r: bool) {
        true
    }

    fn is_creatable() -> (r: bool) {
        true
    }

    fn is_expirable() -> (r: bool) {
        false
    }
}

} // verus!
