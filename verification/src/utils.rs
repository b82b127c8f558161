//! Small helpers shared by the commands: duration parsing, the clock, the
//! configured sponsor roles, colours and the text of a player's extra data.

use vstd::prelude::*;

use rand::RngExt;
use std::time::{Duration, SystemTime, SystemTimeError, UNIX_EPOCH};
use vstd::string::StringExecFns;

use crate::decimal::{
    all_digits, char_digit, decimal_text, digits_value, format_i64, format_u64, is_digit,
    lemma_digits_value_nonneg, parse_u64, push_char, signed_decimal_text, spec_parse_u64,
};

verus! {

// ---------------------------------------------------------------------------
// Durations such as `1w3d12h`
// ---------------------------------------------------------------------------

/// Seconds in one unit of the given letter; letters are case-insensitive.
pub open spec fn unit_seconds(c: char) -> Option<int> {
    if c == 's' || c == 'S' {
        Some(1)
    } else if c == 'm' || c == 'M' {
        Some(60)
    } else if c == 'h' || c == 'H' {
        Some(3600)
    } else if c == 'd' || c == 'D' {
        Some(86_400)
    } else if c == 'w' || c == 'W' {
        Some(604_800)
    } else {
        None
    }
}

/// Where the run of digits that ends `s` begins.
pub open spec fn trailing_digits_start(s: Seq<char>) -> nat
    decreases s.len(),
{
    if s.len() == 0 {
        0
    } else if is_digit(s.last()) {
        trailing_digits_start(s.drop_last())
    } else {
        s.len()
    }
}

/// If `s` is a sequence of segments, each one or more digits followed by a
/// unit letter, the number of seconds they add up to; otherwise `None`.
pub open spec fn segments_total(s: Seq<char>) -> Option<int>
    decreases s.len(),
{
    if s.len() == 0 {
        Some(0)
    } else {
        match unit_seconds(s.last()) {
            None => None,
            Some(unit) => {
                let body = s.drop_last();
                let k = trailing_digits_start(body);
                if k >= body.len() {
                    None
                } else {
                    match segments_total(body.take(k as int)) {
                        Some(t) => Some(t + digits_value(body.skip(k as int)) * unit),
                        None => None,
                    }
                }
            },
        }
    }
}

/// The duration that `parse_duration_secs` reads from `s`: at least one
/// segment, and a total that fits in an `i64`.
pub open spec fn spec_parse_duration_secs(s: Seq<char>) -> Option<i64> {
    match segments_total(s) {
        Some(t) => if s.len() > 0 && t <= i64::MAX {
            Some(t as i64)
        } else {
            None
        },
        None => None,
    }
}

proof fn lemma_trailing_digits_start_bounds(s: Seq<char>)
    ensures
        trailing_digits_start(s) <= s.len(),
        all_digits(s.skip(trailing_digits_start(s) as int)),
        trailing_digits_start(s) == 0 || !is_digit(s[trailing_digits_start(s) - 1]),
    decreases s.len(),
{
    if s.len() > 0 {
        if is_digit(s.last()) {
            lemma_trailing_digits_start_bounds(s.drop_last());
            let k = trailing_digits_start(s) as int;
            assert forall|i: int| 0 <= i < s.skip(k).len() implies #[trigger] is_digit(
                s.skip(k)[i],
            ) by {
                if k + i < s.len() - 1 {
                    assert(s.skip(k)[i] == s.drop_last().skip(k)[i]);
                }
            }
        } else {
            assert(s.skip(s.len() as int) =~= Seq::<char>::empty());
        }
    } else {
        assert(s.skip(0) =~= Seq::<char>::empty());
    }
}

/// The digit run that ends `s` starts right after the last non-digit.
proof fn lemma_trailing_digits_start_at(s: Seq<char>, p: int)
    requires
        0 <= p <= s.len(),
        all_digits(s.skip(p)),
        p == 0 || !is_digit(s[p - 1]),
    ensures
        trailing_digits_start(s) == p,
    decreases s.len(),
{
    if s.len() > p {
        assert(is_digit(s.skip(p)[s.len() - 1 - p]));
        let t = s.drop_last();
        assert forall|i: int| 0 <= i < t.skip(p).len() implies #[trigger] is_digit(t.skip(p)[i]) by {
            assert(t.skip(p)[i] == s.skip(p)[i]);
        }
        lemma_trailing_digits_start_at(t, p);
    }
}

/// A well-formed duration never adds up to a negative number of seconds.
proof fn lemma_segments_total_nonneg(s: Seq<char>)
    ensures
        segments_total(s) matches Some(t) ==> t >= 0,
    decreases s.len(),
{
    if s.len() > 0 {
        let body = s.drop_last();
        let k = trailing_digits_start(body);
        lemma_trailing_digits_start_bounds(body);
        if k < body.len() {
            lemma_segments_total_nonneg(body.take(k as int));
            lemma_digits_value_nonneg(body.skip(k as int));
        }
    }
}

/// Cutting a duration right after a non-digit splits it into two durations
/// whose totals add up.
proof fn lemma_segments_total_cut(s: Seq<char>, j: int)
    requires
        1 <= j <= s.len(),
        !is_digit(s[j - 1]),
    ensures
        segments_total(s) == (match (segments_total(s.take(j)), segments_total(s.skip(j))) {
            (Some(a), Some(b)) => Some(a + b),
            _ => None,
        }),
    decreases s.len(),
{
    if j == s.len() {
        assert(s.take(j) =~= s);
        assert(s.skip(j) =~= Seq::<char>::empty());
    } else {
        let t = s.skip(j);
        assert(t.last() == s.last());
        match unit_seconds(s.last()) {
            None => {},
            Some(unit) => {
                let body = s.drop_last();
                let k = trailing_digits_start(body) as int;
                lemma_trailing_digits_start_bounds(body);
                // the digit run cannot reach back over the non-digit at j - 1
                if k < j {
                    assert(body.skip(k)[j - 1 - k] == s[j - 1]);
                    assert(is_digit(body.skip(k)[j - 1 - k]));
                }
                assert(k >= j);
                let tb = t.drop_last();
                assert(tb =~= body.skip(j));
                assert(tb.skip(k - j) =~= body.skip(k));
                if k > j {
                    assert(tb[k - j - 1] == body[k - 1]);
                }
                lemma_trailing_digits_start_at(tb, k - j);
                assert(trailing_digits_start(tb) == k - j);
                if k < body.len() {
                    let head = body.take(k);
                    assert(tb.take(k - j) =~= head.skip(j));
                    assert(head.take(j) =~= s.take(j));
                    if j < k {
                        assert(head[j - 1] == s[j - 1]);
                        lemma_segments_total_cut(head, j);
                    } else {
                        assert(head =~= s.take(j));
                        assert(head.skip(j) =~= Seq::<char>::empty());
                    }
                }
            },
        }
    }
}

/// Extending a well-formed prefix by one more segment.
proof fn lemma_segments_total_extend(s: Seq<char>, p: int, i: int, unit: int)
    requires
        0 <= p < i < s.len(),
        p == 0 || !is_digit(s[p - 1]),
        all_digits(s.subrange(p, i)),
        unit_seconds(s[i]) == Some(unit),
    ensures
        segments_total(s.take(i + 1)) == (match segments_total(s.take(p)) {
            Some(t) => Some(t + digits_value(s.subrange(p, i)) * unit),
            None => None,
        }),
{
    let w = s.take(i + 1);
    let body = w.drop_last();
    assert(body =~= s.take(i));
    assert(body.skip(p) =~= s.subrange(p, i));
    if p > 0 {
        assert(body[p - 1] == s[p - 1]);
    }
    lemma_trailing_digits_start_at(body, p);
    assert(body.take(p) =~= s.take(p));
}

/// Every duration that is read is a non-negative number of seconds.
pub proof fn lemma_duration_nonneg(s: Seq<char>)
    ensures
        spec_parse_duration_secs(s) matches Some(t) ==> t >= 0,
{
    lemma_segments_total_nonneg(s);
}

/// Segments combine: writing two durations one after the other (such as `1w`
/// and `3d12h` into `1w3d12h`) reads as their sum, as long as the sum fits.
pub proof fn lemma_duration_concat(a: Seq<char>, b: Seq<char>)
    requires
        spec_parse_duration_secs(a) is Some,
        spec_parse_duration_secs(b) is Some,
        spec_parse_duration_secs(a)->Some_0 + spec_parse_duration_secs(b)->Some_0 <= i64::MAX,
    ensures
        spec_parse_duration_secs(a + b) == Some(
            (spec_parse_duration_secs(a)->Some_0 + spec_parse_duration_secs(b)->Some_0) as i64,
        ),
{
    let s = a + b;
    lemma_segments_total_nonneg(a);
    lemma_segments_total_nonneg(b);
    // a ends with its last unit letter, which is not a digit
    assert(unit_seconds(a.last()) is Some);
    assert(s[a.len() - 1] == a.last());
    lemma_segments_total_cut(s, a.len() as int);
    assert(s.take(a.len() as int) =~= a);
    assert(s.skip(a.len() as int) =~= b);
}

/// One segment: digits followed by a unit letter (`s`, `m`, `h`, `d` or `w`,
/// in either case) read as the number times the unit's seconds (1, 60, 3600,
/// 86400, 604800), or as nothing when that does not fit in an `i64`.
pub proof fn lemma_duration_single_segment(digits: Seq<char>, unit: char, secs: int)
    requires
        digits.len() > 0,
        all_digits(digits),
        ((unit == 's' || unit == 'S') && secs == 1) || ((unit == 'm' || unit == 'M') && secs == 60)
            || ((unit == 'h' || unit == 'H') && secs == 3600) || ((unit == 'd' || unit == 'D')
            && secs == 86_400) || ((unit == 'w' || unit == 'W') && secs == 604_800),
    ensures
        spec_parse_duration_secs(digits.push(unit)) == (if digits_value(digits) * secs
            <= i64::MAX {
            Some((digits_value(digits) * secs) as i64)
        } else {
            None
        }),
{
    let s = digits.push(unit);
    assert(s.last() == unit);
    assert(s.drop_last() =~= digits);
    assert(digits.skip(0) =~= digits);
    lemma_trailing_digits_start_at(digits, 0);
    assert(digits.take(0) =~= Seq::<char>::empty());
    lemma_digits_value_nonneg(digits);
    assert(unit_seconds(unit) == Some(secs));
    assert(trailing_digits_start(digits) == 0);
    assert(segments_total(Seq::<char>::empty()) == Some(0int));
    assert(segments_total(s) == Some(0 + digits_value(digits) * secs));
}

/// Unit letters are read the same in upper and in lower case.
pub proof fn lemma_duration_unit_case(digits: Seq<char>, unit: char)
    requires
        digits.len() > 0,
        all_digits(digits),
        unit == 's' || unit == 'm' || unit == 'h' || unit == 'd' || unit == 'w',
    ensures
        spec_parse_duration_secs(digits.push(ascii_upper(unit))) == spec_parse_duration_secs(
            digits.push(unit),
        ),
{
    let secs: int = if unit == 's' {
        1
    } else if unit == 'm' {
        60
    } else if unit == 'h' {
        3600
    } else if unit == 'd' {
        86_400
    } else {
        604_800
    };
    let upper = ascii_upper(unit);
    assert(upper == 'S' || upper == 'M' || upper == 'H' || upper == 'D' || upper == 'W');
    assert(unit == 's' ==> upper == 'S');
    assert(unit == 'm' ==> upper == 'M');
    assert(unit == 'h' ==> upper == 'H');
    assert(unit == 'd' ==> upper == 'D');
    assert(unit == 'w' ==> upper == 'W');
    lemma_duration_single_segment(digits, unit, secs);
    lemma_duration_single_segment(digits, upper, secs);
}

/// The unit letter's seconds, as `parse_duration_secs` reads it.
fn unit_seconds_of(c: char) -> (r: Option<i64>)
    ensures
        r matches Some(u) ==> unit_seconds(c) == Some(u as int),
        r is None ==> unit_seconds(c) is None,
{
    if c == 's' || c == 'S' {
        Some(1)
    } else if c == 'm' || c == 'M' {
        Some(60)
    } else if c == 'h' || c == 'H' {
        Some(3600)
    } else if c == 'd' || c == 'D' {
        Some(86_400)
    } else if c == 'w' || c == 'W' {
        Some(604_800)
    } else {
        None
    }
}

/// Parses a human duration expression into a number of seconds.
///
/// Supported units: `s` (seconds), `m` (minutes), `h` (hours), `d` (days),
/// `w` (weeks). Multiple segments may be combined, e.g. `1w3d12h`.
/// Every numeric part must be followed by a unit, otherwise `None` is returned;
/// so is a total that does not fit in an `i64`.
pub fn parse_duration_secs(input: &str) -> (r: Option<i64>)
    ensures
        r == spec_parse_duration_secs(input@),
{
    broadcast use vstd::string::group_string_axioms;

    let ghost s = input@;
    let mut total: i64 = 0;
    let mut value: i64 = 0;
    let mut has_num = false;
    let mut too_big = false;
    let mut seen = false;
    let ghost mut p: int = 0;
    assert(s.take(0) =~= Seq::<char>::empty());
    for c in it: input.chars()
        invariant
            it.seq() == s,
            s == input@,
            0 <= p <= it.index(),
            p == 0 || !is_digit(s[p - 1]),
            all_digits(s.subrange(p, it.index() as int)),
            has_num == (p < it.index()),
            seen == (p > 0),
            segments_total(s.take(p)) == Some(total as int),
            total >= 0,
            !too_big ==> value == digits_value(s.subrange(p, it.index() as int)),
            too_big ==> digits_value(s.subrange(p, it.index() as int)) > i64::MAX,
    {
        let ghost i = it.index() as int;
        assert(c == s[i]);
        let ghost prev = s.subrange(p, i);
        let ghost next = s.subrange(p, i + 1);
        if '0' <= c && c <= '9' {
            assert(next.drop_last() =~= prev);
            assert(all_digits(next)) by {
                assert forall|j: int| 0 <= j < next.len() implies #[trigger] is_digit(next[j]) by {
                    if j < next.len() - 1 {
                        assert(next[j] == prev[j]);
                    }
                }
            }
            proof {
                lemma_digits_value_nonneg(prev);
            }
            let d = char_digit(c) as i64;
            if !too_big {
                match value.checked_mul(10) {
                    Some(v10) => match v10.checked_add(d) {
                        Some(v) => {
                            value = v;
                        },
                        None => {
                            too_big = true;
                        },
                    },
                    None => {
                        too_big = true;
                    },
                }
            }
            has_num = true;
        } else {
            // Cutting right after `c` leaves the rest of the input to be
            // added on; the prefix up to `c` decides failures.
            let ghost w = s.take(i + 1);
            proof {
                lemma_segments_total_cut(s, i + 1);
                lemma_segments_total_nonneg(s.skip(i + 1));
            }
            if !has_num {
                proof {
                    let body = w.drop_last();
                    assert(body =~= s.take(i));
                    if p > 0 {
                        assert(body[p - 1] == s[p - 1]);
                    }
                    assert(body.skip(p) =~= Seq::<char>::empty());
                    lemma_trailing_digits_start_at(body, p);
                }
                return None;
            }
            let unit = match unit_seconds_of(c) {
                Some(u) => u,
                None => {
                    return None;
                },
            };
            proof {
                lemma_segments_total_extend(s, p, i, unit as int);
                lemma_digits_value_nonneg(prev);
            }
            if too_big {
                assert(digits_value(prev) * unit > i64::MAX) by (nonlinear_arith)
                    requires
                        digits_value(prev) > i64::MAX,
                        unit >= 1,
                ;
                return None;
            }
            let term = match value.checked_mul(unit) {
                Some(t) => t,
                None => {
                    return None;
                },
            };
            total = match total.checked_add(term) {
                Some(t) => t,
                None => {
                    return None;
                },
            };
            value = 0;
            has_num = false;
            seen = true;
            proof {
                p = i + 1;
                assert(s.subrange(p, p) =~= Seq::<char>::empty());
            }
        }
    }
    assert(s.take(s.len() as int) =~= s);
    if has_num || !seen {
        proof {
            if has_num {
                assert(is_digit(s.subrange(p, s.len() as int)[s.len() - 1 - p]));
            }
        }
        return None;
    }
    Some(total)
}


// ---------------------------------------------------------------------------
// The clock
// ---------------------------------------------------------------------------

#[verifier::external_type_specification]
#[verifier::external_body]
pub struct ExSystemTime(SystemTime);

#[verifier::external_type_specification]
#[verifier::external_body]
pub struct ExSystemTimeError(SystemTimeError);

/// `SystemTime::now`: the current reading of the system clock. It depends on
/// the time of the call, so nothing is stated of it.
#[verifier::external_body]
fn system_time_now() -> SystemTime {
    SystemTime::now()
}

/// `SystemTime::duration_since` against `UNIX_EPOCH`: how long after the epoch
/// the given time lies, or an error for a time before it. Which of the two
/// comes back depends on the clock's reading, so nothing is stated of it.
#[verifier::external_body]
fn duration_since_unix_epoch(t: &SystemTime) -> Result<Duration, SystemTimeError> {
    t.duration_since(UNIX_EPOCH)
}

/// `Duration::as_secs`: the whole seconds of a duration. `Duration` is opaque
/// here, so nothing is stated of the number.
#[verifier::external_body]
fn duration_whole_secs(d: &Duration) -> u64 {
    d.as_secs()
}

/// The unix timestamp that `now_unix` reports for a clock reading that lies
/// `elapsed` whole seconds after the epoch, or before the epoch (`None`):
/// the seconds, wrapped into an `i64` as an `as` cast does, or zero.
pub fn unix_secs_from(elapsed: Option<u64>) -> (r: i64)
    ensures
        r == (match elapsed {
            Some(secs) => secs as i64,
            None => 0i64,
        }),
{
    match elapsed {
        Some(secs) => secs as i64,
        None => 0,
    }
}

/// Current unix timestamp in seconds (zero if the clock is before 1970).
/// The clock is read, so the number is whatever the system reports.
pub fn now_unix() -> i64 {
    let now = system_time_now();
    let elapsed = match duration_since_unix_epoch(&now) {
        Ok(d) => Some(duration_whole_secs(&d)),
        Err(_) => None,
    };
    unix_secs_from(elapsed)
}

// ---------------------------------------------------------------------------
// Sponsor roles from the configuration
// ---------------------------------------------------------------------------

/// One entry of the `discord.sponsor_roles` configuration array, holding the
/// two string fields that are read from it. A field that is missing or is not
/// a string (or an entry that is not an object) is `None`.
#[derive(Clone, Debug)]
pub struct SponsorRoleEntry {
    pub name: Option<String>,
    pub id: Option<String>,
}

/// The `(name, role id)` pair an entry stands for, if it is well formed.
pub open spec fn entry_role(e: SponsorRoleEntry) -> Option<(Seq<char>, u64)> {
    match (e.name, e.id) {
        (Some(name), Some(id)) => match spec_parse_u64(id@) {
            Some(v) => Some((name@, v)),
            None => None,
        },
        _ => None,
    }
}

/// The well-formed entries of `entries`, in order.
pub open spec fn configured_roles(entries: Seq<SponsorRoleEntry>) -> Seq<(Seq<char>, u64)>
    decreases entries.len(),
{
    if entries.len() == 0 {
        Seq::empty()
    } else {
        let rest = configured_roles(entries.drop_last());
        match entry_role(entries.last()) {
            Some(r) => rest.push(r),
            None => rest,
        }
    }
}

/// The view of a list of `(name, id)` pairs.
pub open spec fn roles_view(roles: Seq<(String, u64)>) -> Seq<(Seq<char>, u64)> {
    roles.map_values(|r: (String, u64)| (r.0@, r.1))
}

/// Reads the list of configured sponsor roles from the entries of
/// `discord.sponsor_roles`.
///
/// Each entry is a `(name, role_id)` pair. Malformed entries are skipped.
pub fn sponsor_roles(entries: &Vec<SponsorRoleEntry>) -> (r: Vec<(String, u64)>)
    ensures
        roles_view(r@) == configured_roles(entries@),
{
    let mut out: Vec<(String, u64)> = Vec::new();
    for i in 0..entries.len()
        invariant
            roles_view(out@) == configured_roles(entries@.take(i as int)),
    {
        let ghost before = out@;
        assert(entries@.take(i + 1).drop_last() =~= entries@.take(i as int));
        let entry = &entries[i];
        match (&entry.name, &entry.id) {
            (Some(name), Some(id)) => match parse_u64(id.as_str()) {
                Some(v) => {
                    out.push((name.clone(), v));
                    assert(roles_view(out@) =~= roles_view(before).push((name@, v)));
                },
                None => {},
            },
            _ => {},
        }
    }
    assert(entries@.take(entries.len() as int) =~= entries@);
    out
}

// ---------------------------------------------------------------------------
// Colours
// ---------------------------------------------------------------------------

/// An RGB colour packed as `0xRRGGBB`, as Discord embeds take it.
#[derive(Clone, Copy, Debug, PartialEq, Eq, Structural)]
pub struct Color {
    pub value: u32,
}

/// The packed value of the colour with the given components.
pub open spec fn rgb_value(red: u8, green: u8, blue: u8) -> int {
    red * 65536 + green * 256 + blue
}

impl Color {
    /// The colour with the given red, green and blue components.
    pub fn from_rgb(red: u8, green: u8, blue: u8) -> (c: Color)
        ensures
            c.value == rgb_value(red, green, blue),
    {
        Color { value: red as u32 * 65536 + green as u32 * 256 + blue as u32 }
    }
}

/// The colour of error replies.
pub fn red_color() -> (c: Color)
    ensures
        c.value == rgb_value(255, 0, 0),
{
    Color::from_rgb(255, 0, 0)
}

/// The red of Discord's role colour palette (`0xE74C3C`).
pub fn palette_red() -> (c: Color)
    ensures
        c.value == 0xE7_4C3C,
{
    Color { value: 0xE7_4C3C }
}

/// `rand::rng().random::<u8>()`: a byte from the thread-local generator.
/// It is random, so nothing is stated of it.
#[verifier::external_body]
fn random_byte() -> u8 {
    rand::rng().random::<u8>()
}

/// A colour with random components.
pub fn gen_random_color() -> (c: Color)
    ensures
        c.value <= 0xFF_FFFF,
{
    let red = random_byte();
    let green = random_byte();
    let blue = random_byte();
    Color::from_rgb(red, green, blue)
}

// ---------------------------------------------------------------------------
// A player's extra data
// ---------------------------------------------------------------------------

/// `char::to_uppercase`: the uppercase mapping of a character, one or more
/// characters long. What it is for non-ASCII characters is Unicode's table.
pub uninterp spec fn uppercase_mapping(c: char) -> Seq<char>;

/// The ASCII uppercase of an ASCII character.
pub open spec fn ascii_upper(c: char) -> char {
    if 'a' <= c && c <= 'z' {
        ((c as u32) - 32) as char
    } else {
        c
    }
}

/// Applies `char::to_uppercase` and collects the characters it yields. The
/// std documentation says that a character without an uppercase mapping is
/// yielded unchanged; for ASCII only `a`..=`z` have one, `A`..=`Z`.
#[verifier::external_body]
fn char_to_uppercase(c: char) -> (r: String)
    ensures
        r@ == uppercase_mapping(c),
        (c as u32) < 128 ==> r@ == seq![ascii_upper(c)],
{
    c.to_uppercase().collect()
}

/// The characters `char::to_uppercase` yields for `c`: the ASCII uppercase of
/// an ASCII character, Unicode's mapping for any other.
pub open spec fn uppercase_of(c: char) -> Seq<char> {
    if (c as u32) < 128 {
        seq![ascii_upper(c)]
    } else {
        uppercase_mapping(c)
    }
}

/// What the character at `i` of a key becomes: `_` separates words and turns
/// into a space, the first character of each word is upper-cased, the rest is
/// kept.
pub open spec fn capitalized_char(key: Seq<char>, i: int) -> Seq<char> {
    if key[i] == '_' {
        seq![' ']
    } else if i == 0 || key[i - 1] == '_' {
        uppercase_of(key[i])
    } else {
        seq![key[i]]
    }
}

/// A key in the form `Word Word` for display: see `capitalized_char`.
pub open spec fn capitalized(key: Seq<char>) -> Seq<char>
    decreases key.len(),
{
    if key.len() == 0 {
        Seq::empty()
    } else {
        capitalized(key.drop_last()) + capitalized_char(key, key.len() - 1)
    }
}

/// Turns `snake_case_key` into `Snake Case Key`: the key is split on `_`, the
/// first character of every part is upper-cased, and the parts are joined with
/// spaces.
pub fn capitalize_key(key: &str) -> (r: String)
    ensures
        r@ == capitalized(key@),
{
    broadcast use vstd::string::group_string_axioms;

    let ghost k = key@;
    let mut out = String::new();
    let mut at_word_start = true;
    for c in it: key.chars()
        invariant
            it.seq() == k,
            k == key@,
            out@ == capitalized(k.take(it.index() as int)),
            at_word_start == (it.index() == 0 || k[it.index() - 1] == '_'),
    {
        let ghost i = it.index() as int;
        assert(c == k[i]);
        let ghost t = k.take(i + 1);
        assert(t.drop_last() =~= k.take(i));
        assert(capitalized_char(t, i) == capitalized_char(k, i));
        if c == '_' {
            push_char(&mut out, ' ');
            assert(capitalized_char(k, i) =~= seq![' ']);
        } else if at_word_start {
            let upper = char_to_uppercase(c);
            out.append(upper.as_str());
        } else {
            push_char(&mut out, c);
            assert(capitalized_char(k, i) =~= seq![c]);
        }
        at_word_start = c == '_';
    }
    assert(k.take(k.len() as int) =~= k);
    out
}

/// A value of a player's extra data, as far as it is shown: strings and
/// integers are shown, anything else (floats, arrays, objects, ...) is not.
#[derive(Clone, Debug)]
pub enum ExtraValue {
    Text(String),
    Unsigned(u64),
    Signed(i64),
    Other,
}

/// One `key: value` entry of a player's extra data.
#[derive(Clone, Debug)]
pub struct ExtraField {
    pub key: String,
    pub value: ExtraValue,
}

/// The line shown for one entry (empty for a value that is not shown).
pub open spec fn extra_field_line(f: ExtraField) -> Seq<char> {
    let shown = match f.value {
        ExtraValue::Text(s) => Some(s@),
        ExtraValue::Unsigned(n) => Some(decimal_text(n as nat)),
        ExtraValue::Signed(n) => Some(signed_decimal_text(n as int)),
        ExtraValue::Other => None,
    };
    match shown {
        Some(v) => capitalized(f.key@) + ": "@ + v + "\n"@,
        None => Seq::empty(),
    }
}

/// The lines for all entries, in order.
pub open spec fn extra_fields_text(fields: Seq<ExtraField>) -> Seq<char>
    decreases fields.len(),
{
    if fields.len() == 0 {
        Seq::empty()
    } else {
        extra_fields_text(fields.drop_last()) + extra_field_line(fields.last())
    }
}

/// The text of a player's extra data (`None` when there is none at all).
pub open spec fn extra_data_text(data: Option<Seq<ExtraField>>) -> Seq<char> {
    match data {
        Some(fields) => if extra_fields_text(fields).len() == 0 {
            "No extra data found."@
        } else {
            extra_fields_text(fields)
        },
        None => "No extra data found."@,
    }
}

/// Formats a player's extra data for display, one `Key: value` line per
/// string or integer entry, or `No extra data found.` when nothing is shown.
pub fn format_extra_data(data: Option<&Vec<ExtraField>>) -> (r: String)
    ensures
        r@ == extra_data_text(match data {
            Some(v) => Some(v@),
            None => None,
        }),
{
    match data {
        Some(fields) => {
            let mut result = String::new();
            for i in 0..fields.len()
                invariant
                    result@ == extra_fields_text(fields@.take(i as int)),
            {
                assert(fields@.take(i + 1).drop_last() =~= fields@.take(i as int));
                let field = &fields[i];
                let shown: Option<String> = match &field.value {
                    ExtraValue::Text(s) => Some(s.clone()),
                    ExtraValue::Unsigned(n) => Some(format_u64(*n)),
                    ExtraValue::Signed(n) => Some(format_i64(*n)),
                    ExtraValue::Other => None,
                };
                match shown {
                    Some(v) => {
                        let key = capitalize_key(field.key.as_str());
                        result.append(key.as_str());
                        result.append(": ");
                        result.append(v.as_str());
                        result.append("\n");
                        assert(result@ =~= extra_fields_text(fields@.take(i as int))
                            + extra_field_line(fields@[i as int]));
                    },
                    None => {
                        assert(extra_field_line(fields@[i as int]) =~= Seq::<char>::empty());
                        assert(result@ =~= extra_fields_text(fields@.take(i as int))
                            + extra_field_line(fields@[i as int]));
                    },
                }
            }
            assert(fields@.take(fields.len() as int) =~= fields@);
            if result.as_str().is_empty() {
                String::from_str("No extra data found.")
            } else {
                result
            }
        },
        None => String::from_str("No extra data found."),
    }
}

// ---------------------------------------------------------------------------
// Trimming
// ---------------------------------------------------------------------------

/// `char::is_whitespace`: whether a character has Unicode's `White_Space`
/// property.
pub uninterp spec fn is_whitespace(c: char) -> bool;

/// Applies `char::is_whitespace`. Among ASCII characters Unicode's
/// `White_Space` holds exactly for tab, line feed, vertical tab, form feed,
/// carriage return and space.
#[verifier::external_body]
fn char_is_whitespace(c: char) -> (r: bool)
    ensures
        r == is_whitespace(c),
        (c as u32) < 128 ==> (r <==> (c == ' ' || ('\t' <= c && c <= '\r'))),
{
    c.is_whitespace()
}

/// Whether `char::is_whitespace` holds of `c`: for an ASCII character, tab
/// through carriage return and space; for any other, Unicode's `White_Space`.
pub open spec fn whitespace(c: char) -> bool {
    if (c as u32) < 128 {
        c == ' ' || ('\t' <= c && c <= '\r')
    } else {
        is_whitespace(c)
    }
}

/// `s` without the whitespace at its start and at its end.
pub open spec fn trim_whitespace(s: Seq<char>) -> Seq<char>
    decreases s.len(),
{
    if s.len() == 0 {
        s
    } else if whitespace(s[0]) {
        trim_whitespace(s.drop_first())
    } else if whitespace(s.last()) {
        trim_whitespace(s.drop_last())
    } else {
        s
    }
}

/// The characters of a string.
pub fn chars_of(s: &str) -> (v: Vec<char>)
    ensures
        v@ == s@,
{
    broadcast use vstd::string::group_string_axioms;

    let mut v: Vec<char> = Vec::new();
    for c in it: s.chars()
        invariant
            it.seq() == s@,
            v@ == s@.take(it.index() as int),
    {
        assert(c == s@[it.index() as int]);
        assert(s@.take(it.index() + 1) =~= v@.push(c));
        v.push(c);
    }
    assert(s@.take(s@.len() as int) =~= s@);
    v
}

/// A string made of `chars[from..to]`.
fn string_of_range(chars: &Vec<char>, from: usize, to: usize) -> (r: String)
    requires
        from <= to <= chars.len(),
    ensures
        r@ == chars@.subrange(from as int, to as int),
{
    let mut out = String::new();
    let mut i = from;
    while i < to
        invariant
            from <= i <= to <= chars.len(),
            out@ == chars@.subrange(from as int, i as int),
        decreases to - i,
    {
        push_char(&mut out, chars[i]);
        assert(out@ =~= chars@.subrange(from as int, i + 1));
        i = i + 1;
    }
    out
}

/// Removes leading and trailing whitespace, as `str::trim` does.
pub fn trim(s: &str) -> (r: String)
    ensures
        r@ == trim_whitespace(s@),
{
    let chars = chars_of(s);
    let n = chars.len();
    let mut i: usize = 0;
    assert(chars@.subrange(0, n as int) =~= chars@);
    while i < n && char_is_whitespace(chars[i])
        invariant
            i <= n == chars@.len(),
            trim_whitespace(s@) == trim_whitespace(chars@.subrange(i as int, n as int)),
            chars@ == s@,
        decreases n - i,
    {
        let ghost sub = chars@.subrange(i as int, n as int);
        assert(sub.drop_first() =~= chars@.subrange(i + 1, n as int));
        i = i + 1;
    }
    let mut j: usize = n;
    while j > i && char_is_whitespace(chars[j - 1])
        invariant
            i <= j <= n == chars@.len(),
            i < n ==> !whitespace(chars@[i as int]),
            trim_whitespace(s@) == trim_whitespace(chars@.subrange(i as int, j as int)),
        decreases j - i,
    {
        let ghost sub = chars@.subrange(i as int, j as int);
        assert(sub[0] == chars@[i as int]);
        assert(sub.drop_last() =~= chars@.subrange(i as int, j - 1));
        j = j - 1;
    }
    proof {
        let sub = chars@.subrange(i as int, j as int);
        if sub.len() > 0 {
            assert(sub[0] == chars@[i as int]);
            assert(sub.last() == chars@[j - 1]);
        }
    }
    string_of_range(&chars, i, j)
}

} // verus!
