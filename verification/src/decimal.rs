//! Decimal text: reading unsigned integers the way `str::parse::<u64>` does,
//! and writing integers the way `{}` formatting does.

use vstd::prelude::*;

verus! {

/// An ASCII decimal digit.
pub open spec fn is_digit(c: char) -> bool {
    '0' <= c && c <= '9'
}

/// The value of a decimal digit.
pub open spec fn digit_value(c: char) -> int {
    c as int - '0' as int
}

/// Every character of `s` is a decimal digit.
pub open spec fn all_digits(s: Seq<char>) -> bool {
    forall|i: int| 0 <= i < s.len() ==> #[trigger] is_digit(s[i])
}

/// The number that the digit string `s` denotes (most significant digit first).
pub open spec fn digits_value(s: Seq<char>) -> int
    decreases s.len(),
{
    if s.len() == 0 {
        0
    } else {
        digits_value(s.drop_last()) * 10 + digit_value(s.last())
    }
}

/// The digits of an unsigned number's text: a single leading `+` is allowed.
pub open spec fn unsigned_digits(s: Seq<char>) -> Seq<char> {
    if s.len() > 0 && s[0] == '+' {
        s.drop_first()
    } else {
        s
    }
}

/// What `str::parse::<u64>` accepts: an optional `+` followed by one or more
/// decimal digits whose value fits in a `u64`.
pub open spec fn spec_parse_u64(s: Seq<char>) -> Option<u64> {
    let d = unsigned_digits(s);
    if d.len() > 0 && all_digits(d) && digits_value(d) <= u64::MAX {
        Some(digits_value(d) as u64)
    } else {
        None
    }
}

/// The character of the digit `d`.
pub open spec fn digit_char(d: nat) -> char
    recommends
        d < 10,
{
    (d + '0' as nat) as char
}

/// Shortest decimal text of `n` (no sign, no leading zeros).
pub open spec fn decimal_text(n: nat) -> Seq<char>
    decreases n,
{
    if n < 10 {
        seq![digit_char(n)]
    } else {
        decimal_text(n / 10).push(digit_char(n % 10))
    }
}

/// Decimal text of a signed number: a `-` in front of the magnitude of a
/// negative number.
pub open spec fn signed_decimal_text(n: int) -> Seq<char> {
    if n < 0 {
        seq!['-'].add(decimal_text((-n) as nat))
    } else {
        decimal_text(n as nat)
    }
}

pub proof fn lemma_digits_value_nonneg(s: Seq<char>)
    requires
        all_digits(s),
    ensures
        digits_value(s) >= 0,
    decreases s.len(),
{
    if s.len() > 0 {
        assert(is_digit(s[s.len() - 1]));
        assert(all_digits(s.drop_last()));
        lemma_digits_value_nonneg(s.drop_last());
    }
}

/// Appending digits never makes the value smaller.
pub proof fn lemma_digits_value_prefix(s: Seq<char>, k: int)
    requires
        all_digits(s),
        0 <= k <= s.len(),
    ensures
        digits_value(s.take(k)) <= digits_value(s),
    decreases s.len() - k,
{
    if k < s.len() {
        let t = s.take(k + 1);
        assert(all_digits(t));
        assert(t.drop_last() =~= s.take(k));
        assert(is_digit(t.last()));
        assert(all_digits(t.drop_last()));
        lemma_digits_value_nonneg(t.drop_last());
        lemma_digits_value_prefix(s, k + 1);
    } else {
        assert(s.take(k) =~= s);
    }
}

/// The text of `n` is made of digits, does not start with `+`, and denotes `n`.
pub proof fn lemma_decimal_text(n: nat)
    ensures
        decimal_text(n).len() > 0,
        all_digits(decimal_text(n)),
        decimal_text(n)[0] != '+',
        digits_value(decimal_text(n)) == n,
    decreases n,
{
    if n < 10 {
        let t = decimal_text(n);
        assert(digit_value(digit_char(n)) == n);
        assert(t.drop_last() =~= Seq::<char>::empty());
        assert(digits_value(t.drop_last()) == 0);
        assert(t.last() == digit_char(n));
    } else {
        lemma_decimal_text(n / 10);
        let t = decimal_text(n);
        assert(digit_value(digit_char(n % 10)) == n % 10);
        assert(t.drop_last() =~= decimal_text(n / 10));
        assert(forall|i: int| 0 <= i < t.len() - 1 ==> t[i] == decimal_text(n / 10)[i]);
        assert(t.last() == digit_char(n % 10));
        assert(digits_value(t) == digits_value(decimal_text(n / 10)) * 10 + digit_value(digit_char(n % 10)));
        assert((n / 10) * 10 + n % 10 == n);
    }
}

/// Reading back the text of a `u64` gives the same number.
pub proof fn lemma_parse_u64_of_decimal_text(n: u64)
    ensures
        spec_parse_u64(decimal_text(n as nat)) == Some(n),
{
    lemma_decimal_text(n as nat);
}

/// Appends one character to a `String` (`String::push`).
#[verifier::external_body]
pub(crate) fn push_char(s: &mut String, c: char)
    ensures
        final(s)@ == old(s)@.push(c),
{
    s.push(c);
}

fn digit_to_char(d: u64) -> (c: char)
    requires
        d < 10,
    ensures
        c == digit_char(d as nat),
        is_digit(c),
{
    if d == 0 { '0' }
    else if d == 1 { '1' }
    else if d == 2 { '2' }
    else if d == 3 { '3' }
    else if d == 4 { '4' }
    else if d == 5 { '5' }
    else if d == 6 { '6' }
    else if d == 7 { '7' }
    else if d == 8 { '8' }
    else { '9' }
}

/// The value of a decimal digit character.
pub fn char_digit(c: char) -> (d: u64)
    requires
        is_digit(c),
    ensures
        d == digit_value(c),
        d < 10,
{
    (c as u32 - '0' as u32) as u64
}

/// Writes `n` in decimal into `out`.
fn push_decimal(out: &mut String, n: u64)
    ensures
        final(out)@ == old(out)@ + decimal_text(n as nat),
    decreases n,
{
    if n < 10 {
        push_char(out, digit_to_char(n));
        assert(old(out)@.push(digit_char(n as nat)) =~= old(out)@ + decimal_text(n as nat));
    } else {
        push_decimal(out, n / 10);
        push_char(out, digit_to_char(n % 10));
        assert(old(out)@ + decimal_text((n / 10) as nat) + seq![digit_char((n % 10) as nat)]
            =~= old(out)@ + decimal_text(n as nat));
    }
}

/// The decimal text of an unsigned number, as `n.to_string()` gives it.
pub fn format_u64(n: u64) -> (r: String)
    ensures
        r@ == decimal_text(n as nat),
{
    let mut out = String::new();
    push_decimal(&mut out, n);
    assert(Seq::<char>::empty() + decimal_text(n as nat) =~= decimal_text(n as nat));
    out
}

/// The decimal text of a signed number, as `n.to_string()` gives it.
pub fn format_i64(n: i64) -> (r: String)
    ensures
        r@ == signed_decimal_text(n as int),
{
    let mut out = String::new();
    if n < 0 {
        push_char(&mut out, '-');
        // the magnitude of i64::MIN fits in a u64
        let magnitude: u64 = if n == i64::MIN {
            9223372036854775808u64
        } else {
            (-n) as u64
        };
        push_decimal(&mut out, magnitude);
    } else {
        push_decimal(&mut out, n as u64);
    }
    out
}

/// Why a text is not a `u64` (the kinds `str::parse::<u64>` reports).
#[derive(Clone, Copy, Debug, PartialEq, Eq, Structural)]
pub enum IntErrorKind {
    /// The text is empty.
    Empty,
    /// A character that is not a digit (or a lone sign).
    InvalidDigit,
    /// The number is larger than `u64::MAX`.
    PosOverflow,
}

/// Where the first character that is not a digit stands (`s.len()` if none).
pub open spec fn first_non_digit(s: Seq<char>) -> nat
    decreases s.len(),
{
    if s.len() == 0 {
        0
    } else if is_digit(s[0]) {
        1 + first_non_digit(s.drop_first())
    } else {
        0
    }
}

/// What `str::parse::<u64>` gives for `s`. Digits are read from the left and
/// the first problem met is reported: overflow among the digits before the
/// first invalid character is met before that character.
pub open spec fn spec_parse_u64_result(s: Seq<char>) -> Result<u64, IntErrorKind> {
    let d = unsigned_digits(s);
    let j = first_non_digit(d) as int;
    if s.len() == 0 {
        Err(IntErrorKind::Empty)
    } else if d.len() == 0 {
        Err(IntErrorKind::InvalidDigit)
    } else if digits_value(d.take(j)) > u64::MAX {
        Err(IntErrorKind::PosOverflow)
    } else if j < d.len() {
        Err(IntErrorKind::InvalidDigit)
    } else {
        Ok(digits_value(d) as u64)
    }
}

/// The first non-digit of `s` stands at `j`.
pub proof fn lemma_first_non_digit_at(s: Seq<char>, j: int)
    requires
        0 <= j <= s.len(),
        all_digits(s.take(j)),
        j == s.len() || !is_digit(s[j]),
    ensures
        first_non_digit(s) == j,
    decreases s.len(),
{
    if j > 0 {
        assert(is_digit(s.take(j)[0]));
        let t = s.drop_first();
        assert forall|i: int| 0 <= i < j - 1 implies #[trigger] is_digit(t.take(j - 1)[i]) by {
            assert(t.take(j - 1)[i] == s.take(j)[i + 1]);
        }
        if j < s.len() {
            assert(t[j - 1] == s[j]);
        }
        lemma_first_non_digit_at(t, j - 1);
    }
}

/// Both ways of describing `str::parse::<u64>` agree.
pub proof fn lemma_parse_u64_result_ok(s: Seq<char>)
    ensures
        spec_parse_u64(s) == (match spec_parse_u64_result(s) {
            Ok(v) => Some(v),
            Err(_) => None,
        }),
{
    let d = unsigned_digits(s);
    let j = first_non_digit(d) as int;
    lemma_first_non_digit_bounds(d);
    if d.len() > 0 {
        if all_digits(d) {
            lemma_first_non_digit_at(d, d.len() as int);
            assert(d.take(d.len() as int) =~= d);
        } else {
            let i = choose|i: int| 0 <= i < d.len() && !#[trigger] is_digit(d[i]);
            if j == d.len() {
                assert(d.take(j)[i] == d[i]);
            }
        }
    }
}

proof fn lemma_first_non_digit_bounds(s: Seq<char>)
    ensures
        first_non_digit(s) <= s.len(),
        all_digits(s.take(first_non_digit(s) as int)),
        first_non_digit(s) < s.len() ==> !is_digit(s[first_non_digit(s) as int]),
    decreases s.len(),
{
    if s.len() > 0 && is_digit(s[0]) {
        let t = s.drop_first();
        lemma_first_non_digit_bounds(t);
        let j = first_non_digit(s) as int;
        assert forall|i: int| 0 <= i < j implies #[trigger] is_digit(s.take(j)[i]) by {
            if i > 0 {
                assert(s.take(j)[i] == t.take(j - 1)[i - 1]);
            }
        }
        if j < s.len() {
            assert(s[j] == t[j - 1]);
        }
    }
}

/// Reads an unsigned decimal number exactly as `str::parse::<u64>` does:
/// an optional `+`, then one or more ASCII digits, with no overflow; on
/// failure, why.
pub fn parse_u64_checked(s: &str) -> (r: Result<u64, IntErrorKind>)
    ensures
        r == spec_parse_u64_result(s@),
{
    broadcast use vstd::string::group_string_axioms;

    let ghost d = unsigned_digits(s@);
    let ghost start: int = if s@.len() > 0 && s@[0] == '+' { 1 } else { 0 };
    if s.is_empty() {
        return Err(IntErrorKind::Empty);
    }
    let mut value: u64 = 0;
    let mut seen_digit = false;
    let mut first = true;
    for c in it: s.chars()
        invariant
            it.seq() == s@,
            s@.len() > 0,
            d == unsigned_digits(s@),
            start == (if s@.len() > 0 && s@[0] == '+' { 1int } else { 0int }),
            d =~= s@.skip(start),
            first == (it.index() == 0),
            seen_digit == (it.index() > start),
            it.index() >= start ==> all_digits(d.take(it.index() - start)),
            it.index() >= start ==> value == digits_value(d.take(it.index() - start)),
            it.index() < start ==> value == 0,
    {
        if first && c == '+' {
            first = false;
        } else {
            first = false;
            let ghost k = it.index() - start;
            assert(d[k] == c);
            if !('0' <= c && c <= '9') {
                proof {
                    assert(!is_digit(d[k]));
                    lemma_first_non_digit_at(d, k);
                }
                return Err(IntErrorKind::InvalidDigit);
            }
            let digit = char_digit(c);
            assert(d.take(k + 1).drop_last() =~= d.take(k));
            assert(all_digits(d.take(k + 1))) by {
                assert forall|j: int| 0 <= j < k + 1 implies #[trigger] is_digit(d.take(k + 1)[j]) by {
                    if j < k {
                        assert(d.take(k + 1)[j] == d.take(k)[j]);
                    }
                }
            }
            match value.checked_mul(10) {
                Some(v10) => match v10.checked_add(digit) {
                    Some(v) => {
                        value = v;
                    },
                    None => {
                        proof {
                            lemma_overflow_reported(d, k + 1);
                        }
                        return Err(IntErrorKind::PosOverflow);
                    },
                },
                None => {
                    proof {
                        assert(digits_value(d.take(k)) * 10 > u64::MAX);
                        lemma_digits_value_nonneg(d.take(k + 1));
                        lemma_overflow_reported(d, k + 1);
                    }
                    return Err(IntErrorKind::PosOverflow);
                },
            }
            seen_digit = true;
        }
    }
    if !seen_digit {
        Err(IntErrorKind::InvalidDigit)
    } else {
        proof {
            assert(d.take(s@.len() - start) =~= d);
            lemma_first_non_digit_at(d, d.len() as int);
            assert(d.take(d.len() as int) =~= d);
        }
        Ok(value)
    }
}

/// Overflow among the leading digits is what gets reported.
proof fn lemma_overflow_reported(d: Seq<char>, k: int)
    requires
        0 < k <= d.len(),
        all_digits(d.take(k)),
        digits_value(d.take(k)) > u64::MAX,
    ensures
        digits_value(d.take(first_non_digit(d) as int)) > u64::MAX,
        first_non_digit(d) >= k,
{
    lemma_first_non_digit_bounds(d);
    let j = first_non_digit(d) as int;
    if j < k {
        assert(d.take(k)[j] == d[j]);
        assert(is_digit(d.take(k)[j]));
    }
    let t = d.take(j);
    assert(t.take(k) =~= d.take(k));
    lemma_digits_value_prefix(t, k);
}

/// Reads an unsigned decimal number exactly as `str::parse::<u64>().ok()`
/// does: an optional `+`, then one or more ASCII digits, with no overflow.
pub fn parse_u64(s: &str) -> (r: Option<u64>)
    ensures
        r == spec_parse_u64(s@),
{
    proof {
        lemma_parse_u64_result_ok(s@);
    }
    match parse_u64_checked(s) {
        Ok(v) => Some(v),
        Err(_) => None,
    }
}

} // verus!
