use vstd::prelude::*;
use crate::resource::DatabaseResource;
use vstd::string::*;

verus! {

/// What can go wrong with a backup code request.
#[derive(Debug, Clone, Copy, PartialEq, Eq, Structural)]
pub enum BackupCodeError {
    CodeAlreadyUsed,
    CodeNotFound,
    CodeExpired,
    CodeNotValid,
    CodeCreationFailed,
    CodeVerificationFailed,
    CodeDeletionFailed,
}

impl BackupCodeError {
    /// The human-readable message of the error.
    pub open spec fn message(&self) -> Seq<char> {
        match self {
            BackupCodeError::CodeAlreadyUsed => "Code already used"@,
            BackupCodeError::CodeNotFound => "Code not found"@,
            BackupCodeError::CodeExpired => "Code expired"@,
            BackupCodeError::CodeNotValid => "Code not valid"@,
            BackupCodeError::CodeCreationFailed => "Code creation failed"@,
            BackupCodeError::CodeVerificationFailed => "Code verification failed"@,
            BackupCodeError::CodeDeletionFailed => "Code deletion failed"@,
        }
    }

    pub fn to_string(&self) -> (r: String)
        ensures
            r@ == self.message(),
    {
        match self {
            BackupCodeError::CodeAlreadyUsed => String::from_str("Code already used"),
            BackupCodeError::CodeNotFound => String::from_str("Code not found"),
            BackupCodeError::CodeExpired => String::from_str("Code expired"),
            BackupCodeError::CodeNotValid => String::from_str("Code not valid"),
            BackupCodeError::CodeCreationFailed => String::from_str("Code creation failed"),
            BackupCodeError::CodeVerificationFailed => String::from_str("Code verification failed"),
            BackupCodeError::CodeDeletionFailed => String::from_str("Code deletion failed"),
        }
    }
}

/// One of the codes a user can sign in with when the password is lost.
#[derive(Debug, Clone)]
pub struct BackupCode {
    pub id: Option<String>,
    pub code: Option<String>,
    pub user_id: Option<String>,
    pub created_at: Option<i64>,
    pub updated_at: Option<i64>,
    pub archived_at: Option<i64>,
}

impl DatabaseResource for BackupCode {
    open spec fn spec_name() -> Seq<char> {
        "BackupCode"@
    }

    open spec fn spec_has_id() -> bool {
        true
    }

    open spec fn spec_is_archivable() -> bool {
        true
    }

    open spec fn spec_is_updatable() -> bool {
        true
    }

    open spec fn spec_is_creatable() -> bool {
        true
    }

    open spec fn spec_is_expirable() -> bool {
        false
    }

    fn resource_name() -> (r: String) {
        let r = String::from_str("BackupCode");
        proof {
            reveal_strlit("BackupCode");
        }
        r
    }

    fn has_id() -> (r: bool) {
        true
    }

    fn is_archivable() -> (r: bool) {
        true
    }

    fn is_updatable() -> (r: bool) {
        true
    }

    fn is_creatable() -> (r: bool) {
        true
    }

    fn is_expirable() -> (r: bool) {
        false
    }
}

} // verus!
