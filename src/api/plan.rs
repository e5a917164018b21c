use vstd::prelude::*;
use vstd::string::*;
use crate::ids::{is_uuid_v4_text, new_uuid};
use crate::query::{
    delete_binds, delete_query, delete_sql, fields_of, find_query, insert_params_of, insert_query,
    insert_sql, params_view, select_sql, table_of, text_view, timestamp_view, update_params_of,
    update_query, update_sql, value_views, values_of, ArchiveFilter, Param, ParamView, Query,
};
use crate::backup_code::BackupCode;
use crate::resource::DatabaseResource;
use crate::strings::{push_signed_decimal, signed_decimal_of};
use crate::values::DatabaseValue;
use crate::capability::{lower_of, lowercase};
use crate::passwords::{hash_password, sha512_hex_of};

verus! {

pub const OK: u16 = 200;

pub const CREATED: u16 = 201;

pub const BAD_REQUEST: u16 = 400;

pub const UNAUTHORIZED: u16 = 401;

pub const FORBIDDEN: u16 = 403;

pub const NOT_FOUND: u16 = 404;

pub const INTERNAL_SERVER_ERROR: u16 = 500;

/// What a step needs from the database to succeed.
#[derive(Debug, Clone, Copy, PartialEq, Eq, Structural)]
pub enum Expect {
    /// At least one row; the first is used.
    One,
    /// Any number of rows.
    All,
    /// The statement runs without error.
    Execute,
}

/// One statement of a request, with the response to give when it fails.
pub struct Step<E> {
    pub query: Query,
    pub expect: Expect,
    pub status: u16,
    pub failure: E,
}

/// The texts of the current time and of the expiry of anything stamped now.
pub struct Stamps {
    pub now: String,
    pub expires: String,
}

/// The step finds rows of `R` by the filters `ps` and the archive filter: one
/// row, or all.
pub open spec fn finds<R: DatabaseResource, E>(
    s: Step<E>,
    filter: ArchiveFilter,
    one: bool,
    ps: Seq<ParamView>,
    status: u16,
    failure: E,
) -> bool {
    &&& s.query.sql@ == select_sql(
        table_of(R::spec_name()),
        filter,
        fields_of(ps),
        "created_at ASC"@,
        one,
    )
    &&& value_views(s.query.binds@) == values_of(ps)
    &&& s.expect == if one {
        Expect::One
    } else {
        Expect::All
    }
    &&& s.status == status
    &&& s.failure == failure
}

/// The step updates the row of `R` with `id`, writing `ps`.
pub open spec fn updates<R: DatabaseResource, E>(
    s: Step<E>,
    ps: Seq<ParamView>,
    id: Seq<char>,
    stamps: Stamps,
    status: u16,
    failure: E,
) -> bool {
    let ups = update_params_of::<R>(ps, stamps.now@, stamps.expires@);
    &&& s.query.sql@ == update_sql(table_of(R::spec_name()), fields_of(ups))
    &&& value_views(s.query.binds@) == values_of(ups).push(text_view(id))
    &&& s.expect == Expect::Execute
    &&& s.status == status
    &&& s.failure == failure
}

/// The step inserts a new row of `R` with the columns `ps` and a fresh random id.
pub open spec fn inserts<R: DatabaseResource, E>(
    s: Step<E>,
    ps: Seq<ParamView>,
    stamps: Stamps,
    status: u16,
    failure: E,
) -> bool {
    &&& exists|id: Seq<char>|
        #![trigger is_uuid_v4_text(id)]
        {
            let all = insert_params_of::<R>(ps, id, stamps.now@, stamps.expires@);
            &&& is_uuid_v4_text(id)
            &&& s.query.sql@ == insert_sql(table_of(R::spec_name()), all)
            &&& value_views(s.query.binds@) == values_of(all)
        }
    &&& s.expect == Expect::One
    &&& s.status == status
    &&& s.failure == failure
}

/// The step deletes the rows of `R` that the filters `ps` match.
pub open spec fn deletes<R: DatabaseResource, E>(
    s: Step<E>,
    ps: Seq<ParamView>,
    stamps: Stamps,
    status: u16,
    failure: E,
) -> bool {
    &&& s.query.sql@ == delete_sql(table_of(R::spec_name()), R::spec_is_archivable(), fields_of(ps))
    &&& value_views(s.query.binds@) == delete_binds(R::spec_is_archivable(), ps, stamps.now@)
    &&& s.expect == Expect::Execute
    &&& s.status == status
    &&& s.failure == failure
}

/// `name = value` with a text value.
pub fn text_param(name: &str, value: &String) -> (r: Param)
    ensures
        r.0@ == name@,
        r.1@ == text_view(value@),
{
    (String::from_str(name), DatabaseValue::String(value.clone()))
}

/// `name = NULL`.
pub fn null_param(name: &str) -> (r: Param)
    ensures
        r.0@ == name@,
        r.1@ == (0nat, None::<Seq<char>>),
{
    (String::from_str(name), DatabaseValue::Null)
}

/// `name = value` with a timestamp value.
pub fn time_param(name: &str, value: &String) -> (r: Param)
    ensures
        r.0@ == name@,
        r.1@ == timestamp_view(value@),
{
    (String::from_str(name), DatabaseValue::DateTime(value.clone()))
}

/// `name = value` with an integer value.
pub fn int_param(name: &str, value: i32) -> (r: Param)
    ensures
        r.0@ == name@,
        r.1@ == (3nat, Some(signed_decimal_of(value as int))),
{
    let mut text = String::new();
    push_signed_decimal(&mut text, value as i64);
    (String::from_str(name), DatabaseValue::Int(text))
}

/// `name = value` with an optional text value: NULL when it is absent.
pub fn optional_text_param(name: &str, value: &Option<String>) -> (r: Param)
    ensures
        r.0@ == name@,
        r.1@ == match *value {
            Some(v) => text_view(v@),
            None => (0nat, None::<Seq<char>>),
        },
{
    match value {
        Some(v) => text_param(name, v),
        None => null_param(name),
    }
}

/// The entry `name = value` for a field the caller gave; nothing for one left out.
pub open spec fn present(name: Seq<char>, value: Option<String>) -> Seq<ParamView> {
    match value {
        Some(v) => seq![(name, text_view(v@))],
        None => Seq::empty(),
    }
}

/// Adds `name = value` to `params` where the value is given; a field left out
/// adds nothing, so an update keeps its stored value.
pub fn push_present(params: &mut Vec<Param>, name: &str, value: &Option<String>)
    ensures
        params_view(final(params)@) == params_view(old(params)@) + present(name@, *value),
{
    let ghost before = params_view(params@);
    match value {
        Some(v) => {
            params.push(text_param(name, v));
        },
        None => {},
    }
    assert(params_view(params@) =~= before + present(name@, *value));
}

/// `name = value` with the text of an optional value, empty when it is absent.
pub fn text_or_empty_param(name: &str, value: &Option<String>) -> (r: Param)
    ensures
        r.0@ == name@,
        r.1@ == text_view(
            match *value {
                Some(v) => v@,
                None => Seq::<char>::empty(),
            },
        ),
{
    match value {
        Some(v) => text_param(name, v),
        None => text_param(name, &String::new()),
    }
}

/// `name = value` with the stored form of a password.
pub fn hashed_param(name: &str, password: &String) -> (r: Param)
    ensures
        r.0@ == name@,
        r.1@ == text_view(sha512_hex_of(password@)),
{
    let hashed = hash_password(password.as_str());
    text_param(name, &hashed)
}

/// `name = value` with a text value lowercased.
pub fn lowered_param(name: &str, value: &String) -> (r: Param)
    ensures
        r.0@ == name@,
        r.1@ == text_view(lower_of(value@)),
{
    let lowered = lowercase(value.as_str());
    text_param(name, &lowered)
}

/// A step that finds rows of `R`.
pub fn find_step<R: DatabaseResource, E>(
    params: Vec<Param>,
    filter: ArchiveFilter,
    one: bool,
    status: u16,
    failure: E,
) -> (r: Step<E>)
    ensures
        finds::<R, E>(r, filter, one, params_view(params@), status, failure),
{
    let query = find_query::<R>(&params, filter, "created_at ASC", one);
    let expect = if one {
        Expect::One
    } else {
        Expect::All
    };
    Step { query, expect, status, failure }
}

/// A step that updates the row of `R` with `id`.
pub fn update_step<R: DatabaseResource, E>(
    params: Vec<Param>,
    id: &String,
    stamps: &Stamps,
    status: u16,
    failure: E,
) -> (r: Step<E>)
    requires
        params@.len() + 3 <= usize::MAX,
    ensures
        updates::<R, E>(r, params_view(params@), id@, *stamps, status, failure),
{
    let query = update_query::<R>(
        params,
        &DatabaseValue::String(id.clone()),
        &stamps.now,
        &stamps.expires,
    );
    Step { query, expect: Expect::Execute, status, failure }
}

/// A step that inserts a new row of `R` with a fresh random id.
pub fn insert_step<R: DatabaseResource, E>(
    params: Vec<Param>,
    stamps: &Stamps,
    status: u16,
    failure: E,
) -> (r: Step<E>)
    ensures
        inserts::<R, E>(r, params_view(params@), *stamps, status, failure),
{
    let ghost ps = params_view(params@);
    let id = new_uuid();
    let query = insert_query::<R>(params, &id, &stamps.now, &stamps.expires);
    let r = Step { query, expect: Expect::One, status, failure };
    assert(is_uuid_v4_text(id@));
    r
}

/// A step that deletes the rows of `R` that the filters match.
pub fn delete_step<R: DatabaseResource, E>(
    params: Vec<Param>,
    stamps: &Stamps,
    status: u16,
    failure: E,
) -> (r: Step<E>)
    requires
        params@.len() < usize::MAX,
    ensures
        deletes::<R, E>(r, params_view(params@), *stamps, status, failure),
{
    let query = delete_query::<R>(&params, &stamps.now);
    Step { query, expect: Expect::Execute, status, failure }
}

/// The columns of a new backup code of a user, as the contracts see them.
pub open spec fn code_param_views(code: Seq<char>, user: Seq<char>) -> Seq<ParamView> {
    seq![("code"@, text_view(code)), ("user_id"@, text_view(user))]
}

/// One insert per code, in order, each of a backup code of the user.
pub fn code_insert_steps<E: Copy>(
    user_id: &String,
    codes: &Vec<String>,
    stamps: &Stamps,
    failure: E,
) -> (r: Vec<Step<E>>)
    ensures
        r@.len() == codes@.len(),
        forall|k: int|
            0 <= k < codes@.len() ==> inserts::<BackupCode, E>(
                #[trigger] r@[k],
                code_param_views(codes@[k]@, user_id@),
                *stamps,
                INTERNAL_SERVER_ERROR,
                failure,
            ),
{
    let mut steps: Vec<Step<E>> = Vec::new();
    let mut k: usize = 0;
    while k < codes.len()
        invariant
            k <= codes@.len(),
            steps@.len() == k,
            forall|j: int|
                0 <= j < k ==> inserts::<BackupCode, E>(
                    #[trigger] steps@[j],
                    code_param_views(codes@[j]@, user_id@),
                    *stamps,
                    INTERNAL_SERVER_ERROR,
                    failure,
                ),
        decreases codes@.len() - k,
    {
        let ps: Vec<Param> = vec![text_param("code", &codes[k]), text_param("user_id", user_id)];
        proof {
            assert(params_view(ps@) =~= code_param_views(codes@[k as int]@, user_id@));
        }
        let step = insert_step::<BackupCode, E>(ps, stamps, INTERNAL_SERVER_ERROR, failure);
        let ghost prev = steps@;
        steps.push(step);
        proof {
            assert forall|j: int| 0 <= j < k + 1 implies inserts::<BackupCode, E>(
                #[trigger] steps@[j],
                code_param_views(codes@[j]@, user_id@),
                *stamps,
                INTERNAL_SERVER_ERROR,
                failure,
            ) by {
                if j < k {
                    assert(steps@[j] == prev[j]);
                }
            }
        }
        k = k + 1;
    }
    steps
}

} // verus!
