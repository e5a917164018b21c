use vstd::prelude::*;
use vstd::string::*;

verus! {

/// `c` is an ASCII uppercase letter.
pub open spec fn is_upper(c: char) -> bool {
    'A' <= c && c <= 'Z'
}

/// ASCII lowercase of `c`; every other character is left as it is.
pub open spec fn lower_char(c: char) -> char {
    if is_upper(c) {
        ((c as u32) + 32) as char
    } else {
        c
    }
}

/// What the character at `i` of `s` turns into: an uppercase letter after the
/// first character becomes an underscore and its lowercase; any other character
/// is lowercased.
pub open spec fn snake_piece(s: Seq<char>, i: int) -> Seq<char> {
    if i > 0 && is_upper(s[i]) {
        seq!['_', lower_char(s[i])]
    } else {
        seq![lower_char(s[i])]
    }
}

/// The snake_case text of the first `k` characters of `s` (looking one past them).
pub open spec fn snake_prefix(s: Seq<char>, k: int) -> Seq<char>
    decreases k,
{
    if k <= 0 {
        Seq::empty()
    } else {
        snake_prefix(s, k - 1) + snake_piece(s, k - 1)
    }
}

/// Every character of `s` is ASCII.
pub open spec fn is_ascii_text(s: Seq<char>) -> bool {
    forall|i: int| 0 <= i < s.len() ==> (#[trigger] s[i]) as u32 <= 127
}

/// The snake_case form of ASCII text is ASCII.
pub proof fn lemma_snake_ascii(s: Seq<char>, k: int)
    requires
        is_ascii_text(s),
        0 <= k <= s.len(),
    ensures
        is_ascii_text(snake_prefix(s, k)),
    decreases k,
{
    if k > 0 {
        lemma_snake_ascii(s, k - 1);
        let prev = snake_prefix(s, k - 1);
        let piece = snake_piece(s, k - 1);
        assert(is_ascii_text(piece));
        assert forall|i: int| 0 <= i < (prev + piece).len() implies ((#[trigger] (prev + piece)[i]) as u32) <= 127 by {
            if i < prev.len() {
                assert((prev + piece)[i] == prev[i]);
            } else {
                assert((prev + piece)[i] == piece[i - prev.len()]);
            }
        }
    }
}

/// The snake_case form of a camelCase or PascalCase identifier.
pub open spec fn snake_of(s: Seq<char>) -> Seq<char> {
    snake_prefix(s, s.len() as int)
}

/// The decimal character of a digit below ten.
pub open spec fn digit_char(d: nat) -> char {
    ((d + 48) as u32) as char
}

/// The decimal text of `n`, without leading zeros.
pub open spec fn decimal_of(n: nat) -> Seq<char>
    decreases n,
{
    if n < 10 {
        seq![digit_char(n)]
    } else {
        decimal_of(n / 10).push(digit_char(n % 10))
    }
}

/// The decimal text of `n`, padded on the left with zeros to `width` characters.
pub open spec fn zero_padded_of(n: nat, width: nat) -> Seq<char> {
    let d = decimal_of(n);
    if d.len() >= width {
        d
    } else {
        Seq::new((width - d.len()) as nat, |_i: int| '0') + d
    }
}

/// Relies on `String::push`: appends one character.
#[verifier::external_body]
pub(crate) fn push_char(s: &mut String, c: char)
    ensures
        final(s)@ == old(s)@.push(c),
{
    s.push(c);
}

/// ASCII lowercase of one character.
pub fn ascii_lower(c: char) -> (r: char)
    ensures
        r == lower_char(c),
{
    if 'A' <= c && c <= 'Z' {
        let code: u32 = (c as u32) + 32;
        proof {
            assert(code == (c as u32) + 32);
        }
        char_from_ascii(code as u8)
    } else {
        c
    }
}

fn char_from_ascii(b: u8) -> (r: char)
    ensures
        r == (b as u32) as char,
{
    b as char
}

/// The character of a decimal digit.
pub fn digit(d: usize) -> (r: char)
    requires
        d < 10,
    ensures
        r == digit_char(d as nat),
{
    char_from_ascii((d + 48) as u8)
}

/// Appends the decimal text of `n` to `s`.
pub fn push_decimal(s: &mut String, n: u64)
    ensures
        final(s)@ == old(s)@ + decimal_of(n as nat),
    decreases n,
{
    if n >= 10 {
        push_decimal(s, n / 10);
    }
    push_char(s, digit((n % 10) as usize));
    assert(final(s)@ =~= old(s)@ + decimal_of(n as nat));
}

/// The decimal text of `n`.
pub fn decimal_text(n: u64) -> (r: String)
    ensures
        r@ == decimal_of(n as nat),
{
    let mut s = String::new();
    push_decimal(&mut s, n);
    assert(s@ =~= decimal_of(n as nat));
    s
}

/// Converts a camelCase or PascalCase identifier to snake_case: every uppercase
/// letter but a leading one starts a new word, set off by an underscore, and all
/// letters are lowercased.
pub fn camel_to_snake_case(camel: String) -> (snake: String)
    ensures
        snake@ == snake_of(camel@),
{
    let n = camel.as_str().unicode_len();
    let mut snake = String::new();
    let mut i: usize = 0;
    while i < n
        invariant
            n == camel@.len(),
            i <= n,
            snake@ == snake_prefix(camel@, i as int),
        decreases n - i,
    {
        let current = camel.as_str().get_char(i);
        if i > 0 && 'A' <= current && current <= 'Z' {
            push_char(&mut snake, '_');
        }
        push_char(&mut snake, ascii_lower(current));
        assert(snake@ =~= snake_prefix(camel@, i as int + 1));
        i = i + 1;
    }
    snake
}

/// The decimal text of a signed integer, with a leading `-` when it is negative.
pub open spec fn signed_decimal_of(n: int) -> Seq<char> {
    if n < 0 {
        seq!['-'] + decimal_of((-n) as nat)
    } else {
        decimal_of(n as nat)
    }
}

/// Appends the decimal text of a signed integer to `s`.
pub fn push_signed_decimal(s: &mut String, n: i64)
    ensures
        final(s)@ == old(s)@ + signed_decimal_of(n as int),
{
    if n < 0 {
        push_char(s, '-');
        let magnitude: u64 = if n == i64::MIN {
            9223372036854775808u64
        } else {
            (-n) as u64
        };
        push_decimal(s, magnitude);
        assert(final(s)@ =~= old(s)@ + signed_decimal_of(n as int));
    } else {
        push_decimal(s, n as u64);
    }
}

/// Appends the decimal text of `n` to `s`, padded on the left with zeros to
/// `width` characters.
pub fn push_zero_padded(s: &mut String, n: u64, width: usize)
    ensures
        final(s)@ == old(s)@ + zero_padded_of(n as nat, width as nat),
{
    let d = decimal_text(n);
    let len = d.as_str().unicode_len();
    let ghost start = s@;
    if len < width {
        let mut k: usize = len;
        while k < width
            invariant
                len <= k <= width,
                len == d@.len(),
                s@ == start + Seq::new((k - len) as nat, |_i: int| '0'),
            decreases width - k,
        {
            push_char(s, '0');
            assert(s@ =~= start + Seq::new((k + 1 - len) as nat, |_i: int| '0'));
            k = k + 1;
        }
    }
    s.append(d.as_str());
    assert(s@ =~= start + zero_padded_of(n as nat, width as nat));
}

} // verus!
