//! Requests on the backup codes of the signed-in user.

use vstd::prelude::*;
use crate::api::plan::{
    code_insert_steps,
    code_param_views,
    finds,
    inserts,
    deletes,
    find_step,
    delete_step,
    text_param,
    Stamps,
    Step,
    BAD_REQUEST,
    NOT_FOUND,
    INTERNAL_SERVER_ERROR,
};
use crate::query::{params_view, text_view, ArchiveFilter, Param};
use crate::authentication::AuthenticationError;
use crate::backup_code::{BackupCode, BackupCodeError};
use crate::user::{User, UserError};
use crate::token::RawToken;
use crate::query::texts;
use vstd::string::*;

verus! {

/// The failure of a request, by the part of the system that raised it.
#[derive(Debug, Clone, Copy, PartialEq, Eq, Structural)]
pub enum ResponseError {
    Authentication(AuthenticationError),
    User(UserError),
    BackupCode(BackupCodeError),
}

/// The statements of listing the user's codes.
pub fn get_backup_codes_plan(user_id: &String) -> (r: Vec<Step<ResponseError>>)
    ensures
        r@.len() == 2,
        finds::<User, ResponseError>(
            r@[0],
            ArchiveFilter::Unarchived,
            true,
            seq![("id"@, text_view(user_id@))],
            NOT_FOUND,
            ResponseError::User(UserError::UserNotFound),
        ),
        finds::<BackupCode, ResponseError>(
            r@[1],
            ArchiveFilter::Unarchived,
            false,
            seq![("user_id"@, text_view(user_id@))],
            NOT_FOUND,
            ResponseError::BackupCode(BackupCodeError::CodeNotFound),
        ),
{
    let mut steps: Vec<Step<ResponseError>> = Vec::new();
    let ps: Vec<Param> = vec![text_param("id", user_id)];
    proof {
        assert(params_view(ps@) =~= seq![("id"@, text_view(user_id@))]);
    }
    steps.push(find_step::<User, ResponseError>(
        ps,
        ArchiveFilter::Unarchived,
        true,
        NOT_FOUND,
        ResponseError::User(UserError::UserNotFound),
    ));
    let ps: Vec<Param> = vec![text_param("user_id", user_id)];
    proof {
        assert(params_view(ps@) =~= seq![("user_id"@, text_view(user_id@))]);
    }
    steps.push(find_step::<BackupCode, ResponseError>(
        ps,
        ArchiveFilter::Unarchived,
        false,
        NOT_FOUND,
        ResponseError::BackupCode(BackupCodeError::CodeNotFound),
    ));
    steps
}

/// The first statements of regenerating the user's codes: the user must exist, and
/// the codes they hold are all deleted.
pub fn regenerate_lookup_plan(user_id: &String, stamps: &Stamps) -> (r: Vec<Step<ResponseError>>)
    ensures
        r@.len() == 2,
        finds::<User, ResponseError>(
            r@[0],
            ArchiveFilter::Unarchived,
            true,
            seq![("id"@, text_view(user_id@))],
            NOT_FOUND,
            ResponseError::User(UserError::UserNotFound),
        ),
        deletes::<BackupCode, ResponseError>(
            r@[1],
            seq![("user_id"@, text_view(user_id@))],
            *stamps,
            INTERNAL_SERVER_ERROR,
            ResponseError::BackupCode(BackupCodeError::CodeDeletionFailed),
        ),
{
    let mut steps: Vec<Step<ResponseError>> = Vec::new();
    let ps: Vec<Param> = vec![text_param("id", user_id)];
    proof {
        assert(params_view(ps@) =~= seq![("id"@, text_view(user_id@))]);
    }
    steps.push(find_step::<User, ResponseError>(
        ps,
        ArchiveFilter::Unarchived,
        true,
        NOT_FOUND,
        ResponseError::User(UserError::UserNotFound),
    ));
    let ps: Vec<Param> = vec![text_param("user_id", user_id)];
    proof {
        assert(params_view(ps@) =~= seq![("user_id"@, text_view(user_id@))]);
    }
    steps.push(delete_step::<BackupCode, ResponseError>(
        ps,
        stamps,
        INTERNAL_SERVER_ERROR,
        ResponseError::BackupCode(BackupCodeError::CodeDeletionFailed),
    ));
    steps
}

/// The statement that lists the user's codes after they were regenerated.
pub fn codes_listing_plan(user_id: &String) -> (r: Vec<Step<ResponseError>>)
    ensures
        r@.len() == 1,
        finds::<BackupCode, ResponseError>(
            r@[0],
            ArchiveFilter::Unarchived,
            false,
            seq![("user_id"@, text_view(user_id@))],
            NOT_FOUND,
            ResponseError::BackupCode(BackupCodeError::CodeNotFound),
        ),
{
    let mut steps: Vec<Step<ResponseError>> = Vec::new();
    let ps: Vec<Param> = vec![text_param("user_id", user_id)];
    proof {
        assert(params_view(ps@) =~= seq![("user_id"@, text_view(user_id@))]);
    }
    steps.push(find_step::<BackupCode, ResponseError>(
        ps,
        ArchiveFilter::Unarchived,
        false,
        NOT_FOUND,
        ResponseError::BackupCode(BackupCodeError::CodeNotFound),
    ));
    steps
}

/// The statements of regenerating the user's codes: the user must exist, all
/// the codes they hold are deleted, each new code is inserted, and the codes are
/// listed again.
pub fn regenerate_backup_codes_plan(user_id: &String, codes: &Vec<String>, stamps: &Stamps) -> (r:
    Vec<Step<ResponseError>>)
    ensures
        r@.len() == codes@.len() + 3,
        finds::<User, ResponseError>(
            r@[0],
            ArchiveFilter::Unarchived,
            true,
            seq![("id"@, text_view(user_id@))],
            NOT_FOUND,
            ResponseError::User(UserError::UserNotFound),
        ),
        deletes::<BackupCode, ResponseError>(
            r@[1],
            seq![("user_id"@, text_view(user_id@))],
            *stamps,
            INTERNAL_SERVER_ERROR,
            ResponseError::BackupCode(BackupCodeError::CodeDeletionFailed),
        ),
        forall|k: int|
            0 <= k < codes@.len() ==> inserts::<BackupCode, ResponseError>(
                #[trigger] r@[k + 2],
                code_param_views(codes@[k]@, user_id@),
                *stamps,
                INTERNAL_SERVER_ERROR,
                ResponseError::BackupCode(BackupCodeError::CodeCreationFailed),
            ),
        finds::<BackupCode, ResponseError>(
            r@[codes@.len() as int + 2],
            ArchiveFilter::Unarchived,
            false,
            seq![("user_id"@, text_view(user_id@))],
            NOT_FOUND,
            ResponseError::BackupCode(BackupCodeError::CodeNotFound),
        ),
{
    let mut steps = regenerate_lookup_plan(user_id, stamps);
    let mut added = code_insert_steps(
        user_id,
        codes,
        stamps,
        ResponseError::BackupCode(BackupCodeError::CodeCreationFailed),
    );
    let mut listing = codes_listing_plan(user_id);
    let ghost s0 = steps@;
    let ghost ins = added@;
    let ghost lst = listing@;
    steps.append(&mut added);
    steps.append(&mut listing);
    proof {
        assert(steps@ == s0 + ins + lst);
        assert forall|k: int| 0 <= k < codes@.len() implies inserts::<BackupCode, ResponseError>(
            #[trigger] steps@[k + 2],
            code_param_views(codes@[k]@, user_id@),
            *stamps,
            INTERNAL_SERVER_ERROR,
            ResponseError::BackupCode(BackupCodeError::CodeCreationFailed),
        ) by {
            assert(steps@[k + 2] == ins[k]);
        }
        assert(steps@[codes@.len() as int + 2] == lst[0]);
    }
    steps
}

/// The codes of the rows that have one, in order.
pub open spec fn codes_of(rows: Seq<BackupCode>) -> Seq<Seq<char>>
    decreases rows.len(),
{
    if rows.len() == 0 {
        Seq::empty()
    } else {
        codes_of(rows.drop_last()) + match rows.last().code {
            Some(c) => seq![c@],
            None => Seq::empty(),
        }
    }
}

/// The codes of the listed backup codes, in order; a row without a code is
/// skipped.
pub fn code_texts(codes: &Vec<BackupCode>) -> (r: Vec<String>)
    ensures
        texts(r@) == codes_of(codes@),
{
    let mut out: Vec<String> = Vec::new();
    let mut i: usize = 0;
    while i < codes.len()
        invariant
            i <= codes@.len(),
            texts(out@) == codes_of(codes@.take(i as int)),
        decreases codes@.len() - i,
    {
        let ghost before = out@;
        match &codes[i].code {
            Some(c) => {
                out.push(c.clone());
            },
            None => {},
        }
        assert(codes@.take(i + 1).drop_last() =~= codes@.take(i as int));
        assert(texts(out@) =~= codes_of(codes@.take(i + 1)));
        i = i + 1;
    }
    assert(codes@.take(i as int) =~= codes@);
    out
}

/// The requests on backup codes refuse a missing bearer token before looking it
/// up, with a bad request; as does a token that does not verify.
pub fn token_check(token: &RawToken) -> (r: Option<(u16, ResponseError)>)
    ensures
        r is Some <==> token.value@.len() == 0,
        r matches Some(e) ==> e == (
            BAD_REQUEST,
            ResponseError::Authentication(AuthenticationError::InvalidToken),
        ),
{
    if token.value.as_str().unicode_len() == 0 {
        Some((BAD_REQUEST, ResponseError::Authentication(AuthenticationError::InvalidToken)))
    } else {
        None
    }
}

} // verus!
