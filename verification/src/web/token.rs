//! The session token grammar.
//!
//! A token reads `user-<digits>.<exp>.<sign>`: the literal `user-`, a run of
//! decimal digits, a dot, and then two non-empty fields separated by a dot.
//! The fields end at the first line feed, if there is one; what follows it is
//! ignored. Of the dots that can separate the two fields, the last one does.

use vstd::prelude::*;
use crate::error::Error;

verus! {

/// The literal that every token starts with.
pub open spec fn token_prefix() -> Seq<char> {
    seq!['u', 's', 'e', 'r', '-']
}

pub open spec fn is_digit(c: char) -> bool {
    '0' <= c && c <= '9'
}

pub open spec fn digit_value(c: char) -> nat {
    (c as u32 - '0' as u32) as nat
}

/// The number that a string of decimal digits denotes.
pub open spec fn decimal_value(digits: Seq<char>) -> nat
    decreases digits.len(),
{
    if digits.len() == 0 {
        0
    } else {
        10 * decimal_value(digits.drop_last()) + digit_value(digits.last())
    }
}

/// Where the run of digits that starts at `i` ends.
pub open spec fn digits_end(s: Seq<char>, i: int) -> int
    decreases s.len() - i,
{
    if 0 <= i < s.len() && is_digit(s[i]) {
        digits_end(s, i + 1)
    } else {
        i
    }
}

/// Where the line that starts at `i` ends: at the first line feed, or at the
/// end of `s`.
pub open spec fn line_end(s: Seq<char>, i: int) -> int
    decreases s.len() - i,
{
    if 0 <= i < s.len() && s[i] != '\n' {
        line_end(s, i + 1)
    } else {
        i
    }
}

/// The last index in `lo..hi` that holds a dot, or `lo - 1` if none does.
pub open spec fn last_dot(s: Seq<char>, lo: int, hi: int) -> int
    decreases hi - lo,
{
    if hi <= lo {
        lo - 1
    } else if s[hi - 1] == '.' {
        hi - 1
    } else {
        last_dot(s, lo, hi - 1)
    }
}

/// What a token denotes: the user id and the two trailing fields, or nothing
/// if the text is no token or its id does not fit in 64 bits.
pub open spec fn spec_parse_token(token: Seq<char>) -> Option<(u64, Seq<char>, Seq<char>)> {
    let id_start = token_prefix().len() as int;
    let id_end = digits_end(token, id_start);
    let user_id = decimal_value(token.subrange(id_start, id_end));
    let exp_start = id_end + 1;
    let end = line_end(token, exp_start);
    // The separating dot leaves at least one character on either side.
    let dot = last_dot(token, exp_start + 1, end - 1);
    let is_token = {
        &&& id_start <= token.len()
        &&& token.take(id_start) == token_prefix()
        &&& id_start < id_end < token.len()
        &&& token[id_end] == '.'
        &&& user_id <= u64::MAX
        &&& exp_start < dot
    };
    if is_token {
        Some((user_id as u64, token.subrange(exp_start, dot), token.subrange(dot + 1, end)))
    } else {
        None
    }
}

proof fn lemma_digits_end_bounds(s: Seq<char>, i: int)
    requires
        0 <= i <= s.len(),
    ensures
        i <= digits_end(s, i) <= s.len(),
        forall|k: int| i <= k < digits_end(s, i) ==> is_digit(#[trigger] s[k]),
        digits_end(s, i) < s.len() ==> !is_digit(s[digits_end(s, i)]),
    decreases s.len() - i,
{
    if i < s.len() && is_digit(s[i]) {
        lemma_digits_end_bounds(s, i + 1);
    }
}

proof fn lemma_line_end_bounds(s: Seq<char>, i: int)
    requires
        0 <= i <= s.len(),
    ensures
        i <= line_end(s, i) <= s.len(),
        forall|k: int| i <= k < line_end(s, i) ==> #[trigger] s[k] != '\n',
        line_end(s, i) < s.len() ==> s[line_end(s, i)] == '\n',
    decreases s.len() - i,
{
    if i < s.len() && s[i] != '\n' {
        lemma_line_end_bounds(s, i + 1);
    }
}

/// Appending digits never makes the number smaller.
proof fn lemma_decimal_value_grows(s: Seq<char>, a: int, j: int, b: int)
    requires
        0 <= a <= j <= b <= s.len(),
    ensures
        decimal_value(s.subrange(a, j)) <= decimal_value(s.subrange(a, b)),
    decreases b - j,
{
    if j < b {
        lemma_decimal_value_grows(s, a, j, b - 1);
        assert(s.subrange(a, b).drop_last() == s.subrange(a, b - 1));
    }
}

proof fn lemma_last_dot_bounds(s: Seq<char>, lo: int, hi: int)
    requires
        0 <= lo,
        hi <= s.len(),
    ensures
        lo - 1 <= last_dot(s, lo, hi),
        last_dot(s, lo, hi) < hi || hi <= lo,
        lo <= last_dot(s, lo, hi) ==> s[last_dot(s, lo, hi)] == '.',
        forall|k: int| last_dot(s, lo, hi) < k < hi && lo <= k ==> #[trigger] s[k] != '.',
    decreases hi - lo,
{
    if lo < hi && s[hi - 1] != '.' {
        lemma_last_dot_bounds(s, lo, hi - 1);
    }
}

proof fn lemma_digits_end_is(s: Seq<char>, i: int, j: int)
    requires
        0 <= i <= j <= s.len(),
        forall|k: int| i <= k < j ==> is_digit(#[trigger] s[k]),
        j < s.len() ==> !is_digit(s[j]),
    ensures
        digits_end(s, i) == j,
    decreases j - i,
{
    if i < j {
        lemma_digits_end_is(s, i + 1, j);
    }
}

proof fn lemma_line_end_is(s: Seq<char>, i: int, j: int)
    requires
        0 <= i <= j <= s.len(),
        forall|k: int| i <= k < j ==> #[trigger] s[k] != '\n',
        j < s.len() ==> s[j] == '\n',
    ensures
        line_end(s, i) == j,
    decreases j - i,
{
    if i < j {
        lemma_line_end_is(s, i + 1, j);
    }
}

proof fn lemma_last_dot_is(s: Seq<char>, lo: int, hi: int, dot: int)
    requires
        0 <= lo <= dot < hi <= s.len(),
        s[dot] == '.',
        forall|k: int| dot < k < hi ==> #[trigger] s[k] != '.',
    ensures
        last_dot(s, lo, hi) == dot,
    decreases hi - dot,
{
    if dot < hi - 1 {
        lemma_last_dot_is(s, lo, hi - 1, dot);
    }
}

/// The shape of a token, piece by piece: `token` is `user-`, `digits`, a
/// dot, `exp`, a dot, `sign`, and then `rest`, which is empty or starts a new
/// line. A dot inside `sign` can only be its last character: any earlier one
/// would have been the separator.
pub open spec fn token_shape(
    token: Seq<char>,
    digits: Seq<char>,
    exp: Seq<char>,
    sign: Seq<char>,
    rest: Seq<char>,
) -> bool {
    &&& token == token_prefix() + digits + seq!['.'] + exp + seq!['.'] + sign + rest
    &&& digits.len() > 0
    &&& forall|k: int| 0 <= k < digits.len() ==> is_digit(#[trigger] digits[k])
    &&& exp.len() > 0
    &&& forall|k: int| 0 <= k < exp.len() ==> #[trigger] exp[k] != '\n'
    &&& sign.len() > 0
    &&& forall|k: int| 0 <= k < sign.len() ==> #[trigger] sign[k] != '\n'
    &&& forall|k: int| 0 <= k < sign.len() - 1 ==> #[trigger] sign[k] != '.'
    &&& rest.len() > 0 ==> rest[0] == '\n'
}

/// Whatever parses has the shape of a token, and the id is the number that
/// its digits denote.
pub proof fn lemma_parsed_token_has_shape(token: Seq<char>)
    requires
        spec_parse_token(token) is Some,
    ensures
        ({
            let (user_id, exp, sign) = spec_parse_token(token)->0;
            exists|digits: Seq<char>, rest: Seq<char>|
                #[trigger] token_shape(token, digits, exp, sign, rest) && decimal_value(digits)
                    == user_id
        }),
{
    let id_end = digits_end(token, 5);
    let exp_start = id_end + 1;
    lemma_digits_end_bounds(token, 5);
    lemma_line_end_bounds(token, exp_start);
    let end = line_end(token, exp_start);
    lemma_last_dot_bounds(token, exp_start + 1, end - 1);
    let dot = last_dot(token, exp_start + 1, end - 1);
    let (user_id, exp, sign) = spec_parse_token(token)->0;
    let digits = token.subrange(5, id_end);
    let rest = token.skip(end);
    assert(token =~= token_prefix() + digits + seq!['.'] + exp + seq!['.'] + sign + rest);
    assert(token_shape(token, digits, exp, sign, rest));
}

/// Whatever has the shape of a token, with an id that fits in 64 bits,
/// parses into that id and those two fields.
pub proof fn lemma_shaped_token_parses(
    token: Seq<char>,
    digits: Seq<char>,
    exp: Seq<char>,
    sign: Seq<char>,
    rest: Seq<char>,
)
    requires
        token_shape(token, digits, exp, sign, rest),
        decimal_value(digits) <= u64::MAX,
    ensures
        spec_parse_token(token) == Some((decimal_value(digits) as u64, exp, sign)),
{
    let id_end: int = 5 + digits.len() as int;
    let exp_start: int = id_end + 1;
    let dot: int = exp_start + exp.len();
    let end: int = dot + 1 + sign.len();
    assert(token.take(5) =~= token_prefix());
    assert(token.subrange(5, id_end) =~= digits);
    lemma_digits_end_is(token, 5, id_end);
    lemma_line_end_is(token, exp_start, end);
    lemma_last_dot_is(token, exp_start + 1, end - 1, dot);
}

fn is_digit_char(c: char) -> (r: bool)
    ensures
        r == is_digit(c),
{
    '0' <= c && c <= '9'
}

/// The characters of `s`, one by one.
fn chars_of(s: &str) -> (chars: Vec<char>)
    ensures
        chars@ == s@,
{
    let mut chars: Vec<char> = Vec::new();
    for c in it: s.chars()
        invariant
            it.seq() == s@,
            chars@ == it.seq().take(it.index() as int),
    {
        chars.push(c);
    }
    chars
}

/// The user id that the digits in `chars[start..]` denote, and where they
/// end; `None` if the number does not fit in 64 bits.
fn parse_digits(chars: &Vec<char>, start: usize) -> (r: Option<(u64, usize)>)
    requires
        start <= chars.len(),
    ensures
        match r {
            Some((value, end)) => {
                &&& end == digits_end(chars@, start as int)
                &&& value == decimal_value(chars@.subrange(start as int, end as int))
            },
            None => decimal_value(
                chars@.subrange(start as int, digits_end(chars@, start as int)),
            ) > u64::MAX,
        },
{
    let n = chars.len();
    let mut i: usize = start;
    let mut value: u64 = 0;
    proof {
        lemma_digits_end_bounds(chars@, start as int);
    }
    while i < n && is_digit_char(chars[i])
        invariant
            n == chars.len(),
            start <= i <= digits_end(chars@, start as int) <= n,
            digits_end(chars@, i as int) == digits_end(chars@, start as int),
            value == decimal_value(chars@.subrange(start as int, i as int)),
        decreases n - i,
    {
        let digit: u64 = (chars[i] as u32 - '0' as u32) as u64;
        proof {
            lemma_digits_end_bounds(chars@, i + 1);
            let longer = chars@.subrange(start as int, i + 1);
            assert(longer.drop_last() == chars@.subrange(start as int, i as int));
            lemma_decimal_value_grows(
                chars@,
                start as int,
                i + 1,
                digits_end(chars@, start as int),
            );
        }
        if value > (u64::MAX - digit) / 10 {
            return None;
        }
        value = 10 * value + digit;
        i = i + 1;
    }
    Some((value, i))
}

/// Splits a session token into the user id and its two trailing fields.
///
/// Fails with [`Error::AuthTokenInvalid`] exactly when the text is no token
/// or its user id does not fit in 64 bits.
pub fn parse_token(token: String) -> (r: Result<(u64, String, String), Error>)
    ensures
        match spec_parse_token(token@) {
            Some((user_id, exp, sign)) => {
                &&& r matches Ok((u, e, s))
                &&& u == user_id
                &&& e@ == exp
                &&& s@ == sign
            },
            None => r == Err::<(u64, String, String), Error>(Error::AuthTokenInvalid),
        },
{
    let chars = chars_of(token.as_str());
    let n = chars.len();
    if n < 5 || chars[0] != 'u' || chars[1] != 's' || chars[2] != 'e' || chars[3] != 'r'
        || chars[4] != '-' {
        return Err(Error::AuthTokenInvalid);
    }
    assert(token@.take(5) == token_prefix());
    let (user_id, id_end) = match parse_digits(&chars, 5) {
        Some(found) => found,
        None => {
            return Err(Error::AuthTokenInvalid);
        },
    };
    if id_end == 5 || id_end >= n || chars[id_end] != '.' {
        return Err(Error::AuthTokenInvalid);
    }
    let exp_start = id_end + 1;
    let mut end = exp_start;
    while end < n && chars[end] != '\n'
        invariant
            n == chars.len(),
            exp_start <= end <= n,
            line_end(chars@, end as int) == line_end(chars@, exp_start as int),
        decreases n - end,
    {
        end = end + 1;
    }
    if end - exp_start < 3 {
        return Err(Error::AuthTokenInvalid);
    }
    let mut hi = end - 1;
    while hi > exp_start + 1 && chars[hi - 1] != '.'
        invariant
            exp_start + 1 <= hi <= end - 1 < n,
            n == chars.len(),
            last_dot(chars@, exp_start + 1, hi as int) == last_dot(
                chars@,
                exp_start + 1,
                end - 1,
            ),
        decreases hi,
    {
        hi = hi - 1;
    }
    if hi <= exp_start + 1 {
        return Err(Error::AuthTokenInvalid);
    }
    let dot = hi - 1;
    let exp = token.as_str().substring_char(exp_start, dot).to_owned();
    let sign = token.as_str().substring_char(dot + 1, end).to_owned();
    Ok((user_id, exp, sign))
}

} // verus!
