use vstd::prelude::*;
use vstd::string::*;
use crate::authentication::{Authentication, AuthenticationError};
use crate::query::{
    fields_of, find_query, params_view, select_sql, table_of, text_view, value_views, values_of,
    ArchiveFilter, Param, Query,
};
use crate::resource::DatabaseResource;
use crate::values::DatabaseValue;

verus! {

/// A session token as handed to a client.
#[derive(Debug, Clone)]
pub struct Token {
    pub user_id: String,
    pub token: String,
    pub expires_at: String,
}

/// The bearer token of a request, as read from its `Authorization` header; empty
/// when the request carries none.
#[derive(Debug, Clone)]
pub struct RawToken {
    pub value: String,
}

/// A principal whose token matched a live session.
#[derive(Debug, Clone)]
pub struct VerifiedToken {
    pub raw_token: Option<String>,
    pub user_id: String,
    pub expires_at: Option<i64>,
}

/// The first index from `k` on that holds a space, or the length of `s`.
pub open spec fn space_from(s: Seq<char>, k: int) -> int
    decreases s.len() - k,
{
    if k < 0 || k >= s.len() {
        s.len() as int
    } else if s[k] == ' ' {
        k
    } else {
        space_from(s, k + 1)
    }
}

/// The second of the space-separated pieces of `s`, or nothing when `s` has no
/// space: the token of `Bearer <token>`.
pub open spec fn second_piece(s: Seq<char>) -> Seq<char> {
    let i = space_from(s, 0);
    if i >= s.len() {
        Seq::empty()
    } else {
        s.subrange(i + 1, space_from(s, i + 1))
    }
}

fn find_space(s: &str, start: usize) -> (r: usize)
    requires
        start <= s@.len(),
    ensures
        r as int == space_from(s@, start as int),
        start <= r <= s@.len(),
{
    let n = s.unicode_len();
    let mut i = start;
    while i < n
        invariant
            n == s@.len(),
            start <= i <= n,
            space_from(s@, start as int) == space_from(s@, i as int),
        decreases n - i,
    {
        if s.get_char(i) == ' ' {
            return i;
        }
        i = i + 1;
    }
    i
}

impl RawToken {
    /// The lookup of the session that holds this token.
    pub fn lookup_query(&self) -> (r: Query)
        ensures
            r.sql@ == select_sql(
                table_of(Authentication::spec_name()),
                ArchiveFilter::Any,
                seq!["token"@],
                "created_at ASC"@,
                true,
            ),
            value_views(r.binds@) == seq![text_view(self.value@)],
    {
        let ps: Vec<Param> = vec![(String::from_str("token"), DatabaseValue::String(self.value.clone()))];
        proof {
            assert(fields_of(params_view(ps@)) =~= seq!["token"@]);
            assert(values_of(params_view(ps@)) =~= seq![text_view(self.value@)]);
        }
        find_query::<Authentication>(&ps, ArchiveFilter::Any, "created_at ASC", true)
    }

    /// The token of an `Authorization` header of the form `Bearer <token>`: the
    /// text after the first space, up to the next one. A missing header, or one
    /// without a space, gives an empty token.
    pub fn from_header(header: Option<&str>) -> (r: RawToken)
        ensures
            r.value@ == match header {
                Some(h) => second_piece(h@),
                None => Seq::<char>::empty(),
            },
    {
        match header {
            None => RawToken { value: String::new() },
            Some(h) => {
                let n = h.unicode_len();
                let i = find_space(h, 0);
                if i >= n {
                    RawToken { value: String::new() }
                } else {
                    let j = find_space(h, i + 1);
                    RawToken { value: String::from_str(h.substring_char(i + 1, j)) }
                }
            },
        }
    }
}

/// The session row verifies the token `raw` at time `now`: it holds exactly that
/// token and expires at `now` or later.
pub open spec fn session_verifies(raw: Seq<char>, auth: Authentication, now: i64) -> bool {
    &&& raw.len() > 0
    &&& auth.token@ == raw
    &&& auth.expires_at is Some
    &&& now <= auth.expires_at.unwrap()
}

impl VerifiedToken {
    pub fn new(raw_token: String, user_id: String, expires_at: Option<i64>) -> (r: Self)
        ensures
            r.raw_token == Some(raw_token),
            r.user_id == user_id,
            r.expires_at == expires_at,
    {
        VerifiedToken { raw_token: Some(raw_token), user_id, expires_at }
    }

    /// Verifies a bearer token against the session row that was looked up by it
    /// (`None` when there is none). An empty token, a missing row, or a row with
    /// another token is an invalid token; a row without an expiry, or one whose
    /// expiry lies before `now`, has expired.
    pub fn from_raw(raw_token: RawToken, authentication: Option<Authentication>, now: i64) -> (r:
        Result<Self, AuthenticationError>)
        ensures
            r is Ok <==> (authentication matches Some(a) && session_verifies(
                raw_token.value@,
                a,
                now,
            )),
            r matches Ok(v) ==> {
                &&& v.raw_token matches Some(t) && t@ == raw_token.value@
                &&& v.user_id@ == authentication.unwrap().user_id@
                &&& v.expires_at == authentication.unwrap().expires_at
            },
            r matches Err(e) ==> (e == AuthenticationError::TokenExpired <==> (
            authentication matches Some(a) && raw_token.value@.len() > 0 && a.token@
                == raw_token.value@)),
            r matches Err(e) ==> (e == AuthenticationError::TokenExpired || e
                == AuthenticationError::InvalidToken),
            authentication matches Some(a) && a.expires_at matches Some(e) && e < now ==> r is Err,
    {
        if raw_token.value.as_str().unicode_len() == 0 {
            return Err(AuthenticationError::InvalidToken);
        }
        match authentication {
            None => Err(AuthenticationError::InvalidToken),
            Some(a) => {
                if a.token != raw_token.value {
                    return Err(AuthenticationError::InvalidToken);
                }
                match a.expires_at {
                    None => Err(AuthenticationError::TokenExpired),
                    Some(e) => {
                        if e < now {
                            Err(AuthenticationError::TokenExpired)
                        } else {
                            Ok(VerifiedToken::new(raw_token.value, a.user_id, a.expires_at))
                        }
                    },
                }
            },
        }
    }
}

} // verus!
