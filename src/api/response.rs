use vstd::prelude::*;
use vstd::string::*;

verus! {

/// The generic failure of a request, by its HTTP meaning.
#[derive(Debug, Clone, Copy, PartialEq, Eq, Structural)]
pub enum ResponseError {
    NotFound,
    Unauthorized,
    Forbidden,
    Failed,
    BadRequest,
    InternalServerError,
}

impl ResponseError {
    pub open spec fn message(&self) -> Seq<char> {
        match self {
            ResponseError::NotFound => "Not Found"@,
            ResponseError::Unauthorized => "Unauthorized"@,
            ResponseError::Forbidden => "Forbidden"@,
            ResponseError::Failed => "Failed"@,
            ResponseError::BadRequest => "Bad Request"@,
            ResponseError::InternalServerError => "Internal Server Error"@,
        }
    }

    pub fn to_string(&self) -> (r: String)
        ensures
            r@ == self.message(),
    {
        match self {
            ResponseError::NotFound => String::from_str("Not Found"),
            ResponseError::Unauthorized => String::from_str("Unauthorized"),
            ResponseError::Forbidden => String::from_str("Forbidden"),
            ResponseError::Failed => String::from_str("Failed"),
            ResponseError::BadRequest => String::from_str("Bad Request"),
            ResponseError::InternalServerError => String::from_str("Internal Server Error"),
        }
    }
}

} // verus!
