use vstd::prelude::*;
use vstd::string::*;

verus! {

/// A member's role in a team.
#[derive(Debug, Clone, Copy, PartialEq, Eq, Structural)]
pub enum TeamRole {
    Admin,
    Manager,
    Member,
}

impl TeamRole {
    /// The role's name as stored in the database.
    pub open spec fn name(&self) -> Seq<char> {
        match self {
            TeamRole::Admin => "admin"@,
            TeamRole::Manager => "manager"@,
            TeamRole::Member => "member"@,
        }
    }

    pub fn to_string(&self) -> (r: String)
        ensures
            r@ == self.name(),
    {
        match self {
            TeamRole::Admin => String::from_str("admin"),
            TeamRole::Manager => String::from_str("manager"),
            TeamRole::Member => String::from_str("member"),
        }
    }

    /// Reads a role from its stored name; any other text is an error.
    pub fn from_str(s: &str) -> (r: Result<TeamRole, String>)
        ensures
            r is Ok <==> (s@ == "admin"@ || s@ == "manager"@ || s@ == "member"@),
            r matches Ok(role) ==> role.name() == s@,
            r matches Err(e) ==> e@ == "Invalid team role"@,
    {
        let t = String::from_str(s);
        if t == String::from_str("admin") {
            Ok(TeamRole::Admin)
        } else if t == String::from_str("manager") {
            Ok(TeamRole::Manager)
        } else if t == String::from_str("member") {
            Ok(TeamRole::Member)
        } else {
            Err(String::from_str("Invalid team role"))
        }
    }
}

} // verus!
