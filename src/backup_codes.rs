use vstd::prelude::*;
use vstd::string::*;
use crate::query::texts;
use crate::strings::{digit_char, push_char, push_signed_decimal, push_zero_padded, signed_decimal_of, zero_padded_of};

verus! {

/// How many backup codes a user holds at a time.
pub const BACKUP_CODE_COUNT: usize = 10;

/// How many bytes of the digest a backup code shows, as two hex digits each.
pub const CODE_BYTES: usize = 7;

/// The exclusive upper bound of the random number mixed into a code.
pub const CODE_DRAW_BOUND: u32 = 1000000;

/// The SHA-256 digest of the UTF-8 bytes of a text.
pub uninterp spec fn sha256_of(text: Seq<char>) -> Seq<u8>;

/// Relies on `sha2::Sha256::digest`: the 32-byte digest of the text's bytes.
#[verifier::external_body]
fn sha256_digest(text: &str) -> (r: Vec<u8>)
    ensures
        r@ == sha256_of(text@),
        r@.len() == 32,
{
    <sha2::Sha256 as sha2::Digest>::digest(text.as_bytes()).to_vec()
}

/// Relies on `rand::Rng::random_range` on the thread-local generator: a number
/// below `bound`; it panics on an empty range, which `bound > 0` rules out.
#[verifier::external_body]
fn draw_below(bound: u32) -> (r: u32)
    requires
        bound > 0,
    ensures
        r < bound,
{
    rand::Rng::random_range(&mut rand::rng(), 0..bound)
}

/// The lowercase hex digit of a value below sixteen.
pub open spec fn hex_digit(d: nat) -> char {
    if d < 10 {
        digit_char(d)
    } else {
        ((d + 87) as u32) as char
    }
}

/// Two lowercase hex digits per byte.
pub open spec fn hex_of(bytes: Seq<u8>) -> Seq<char>
    decreases bytes.len(),
{
    if bytes.len() == 0 {
        Seq::empty()
    } else {
        hex_of(bytes.drop_last()) + seq![
            hex_digit((bytes.last() / 16) as nat),
            hex_digit((bytes.last() % 16) as nat),
        ]
    }
}

/// The text a code is hashed from: the time in seconds, then the drawn number in
/// six digits.
pub open spec fn code_seed(timestamp: i64, draw: nat) -> Seq<char> {
    signed_decimal_of(timestamp as int) + zero_padded_of(draw, 6)
}

/// The backup code made at `timestamp` from the drawn number `draw`.
pub open spec fn code_of(timestamp: i64, draw: nat) -> Seq<char> {
    hex_of(sha256_of(code_seed(timestamp, draw)).take(CODE_BYTES as int))
}

fn hex_char(d: u8) -> (r: char)
    requires
        d < 16,
    ensures
        r == hex_digit(d as nat),
{
    if d < 10 {
        crate::strings::digit(d as usize)
    } else {
        let c = (d + 87) as char;
        assert(c == ((d + 87) as u32) as char);
        c
    }
}

/// The lowercase hex text of the first `n` bytes.
pub fn hex_prefix(bytes: &Vec<u8>, n: usize) -> (r: String)
    requires
        n <= bytes@.len(),
    ensures
        r@ == hex_of(bytes@.take(n as int)),
{
    let mut s = String::new();
    let mut i: usize = 0;
    while i < n
        invariant
            i <= n <= bytes@.len(),
            s@ == hex_of(bytes@.take(i as int)),
        decreases n - i,
    {
        let b = bytes[i];
        push_char(&mut s, hex_char(b / 16));
        push_char(&mut s, hex_char(b % 16));
        assert(bytes@.take(i + 1).drop_last() =~= bytes@.take(i as int));
        assert(s@ =~= hex_of(bytes@.take(i + 1)));
        i = i + 1;
    }
    s
}

/// The backup code made at `timestamp` from the drawn number `draw`: the first
/// seven bytes, in hex, of the SHA-256 digest of the timestamp followed by the
/// number in six digits.
pub fn code_from_draw(timestamp: i64, draw: u32) -> (r: String)
    ensures
        r@ == code_of(timestamp, draw as nat),
        r@.len() == 2 * CODE_BYTES,
{
    let mut seed = String::new();
    push_signed_decimal(&mut seed, timestamp);
    push_zero_padded(&mut seed, draw as u64, 6);
    assert(seed@ =~= code_seed(timestamp, draw as nat));
    let digest = sha256_digest(seed.as_str());
    let r = hex_prefix(&digest, CODE_BYTES);
    proof {
        lemma_hex_len(digest@.take(CODE_BYTES as int));
    }
    r
}

proof fn lemma_hex_len(bytes: Seq<u8>)
    ensures
        hex_of(bytes).len() == 2 * bytes.len(),
    decreases bytes.len(),
{
    if bytes.len() > 0 {
        lemma_hex_len(bytes.drop_last());
    }
}

/// A fresh backup code for `timestamp`, from a number drawn at random below one
/// million.
pub fn generate_code(timestamp: i64) -> (r: String)
    ensures
        exists|draw: nat| draw < CODE_DRAW_BOUND && r@ == code_of(timestamp, draw),
        r@.len() == 2 * CODE_BYTES,
{
    let draw = draw_below(CODE_DRAW_BOUND);
    code_from_draw(timestamp, draw)
}

/// The batch is complete: it holds `BACKUP_CODE_COUNT` codes.
pub fn batch_complete(codes: &Vec<String>) -> (r: bool)
    ensures
        r == (codes@.len() >= BACKUP_CODE_COUNT),
{
    codes.len() >= BACKUP_CODE_COUNT
}

/// The batch after one drawn candidate: it joins the batch when the batch is
/// not yet complete and the lookup of stored codes equal to it succeeded and
/// found none (`stored` is the number of rows found, `None` when the lookup
/// failed); otherwise the batch is unchanged and another code is drawn.
pub fn next_codes(codes: Vec<String>, candidate: String, stored: Option<usize>) -> (r: Vec<String>)
    ensures
        texts(r@) == if codes@.len() < BACKUP_CODE_COUNT && stored == Some(0usize) {
            texts(codes@).push(candidate@)
        } else {
            texts(codes@)
        },
{
    let mut codes = codes;
    if codes.len() < BACKUP_CODE_COUNT {
        match stored {
            Some(n) => {
                if n == 0 {
                    let ghost before = codes@;
                    codes.push(candidate);
                    assert(texts(codes@) =~= texts(before).push(candidate@));
                }
            },
            None => {},
        }
    }
    codes
}

} // verus!
