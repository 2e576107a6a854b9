//! The HTML rules for parsing integers, legacy font sizes, and
//! dimension values, stated over character sequences.

use vstd::prelude::*;

use vstd::string::StrSliceExecFns;
use vstd::string::StringExecFns;

use crate::strutil::skip_ws;
use crate::strutil::spec_char_is_whitespace;
use crate::strutil::trim_ws;
use crate::strutil::char_is_whitespace;
use crate::strutil::trim_whitespace;

verus! {

pub open spec fn spec_is_ascii_digit(c: char) -> bool {
    '0' as u32 <= c as u32 && c as u32 <= '9' as u32
}

/// Whether `c` is an ASCII digit.
pub fn is_ascii_digit(c: &char) -> (b: bool)
    ensures
        b == spec_is_ascii_digit(*c),
{
    let u = *c as u32;
    48 <= u && u <= 57
}

/// The numeric value of an ASCII digit.
pub open spec fn digit_val(c: char) -> int {
    c as u32 - '0' as u32
}

/// The first index at or after `i` whose character is not a digit.
pub open spec fn digits_end(s: Seq<char>, i: int) -> int
    decreases s.len() - i,
{
    if i < 0 || i >= s.len() {
        i
    } else if spec_is_ascii_digit(s[i]) {
        digits_end(s, i + 1)
    } else {
        i
    }
}

/// Folds the digits of `s[i..end]` into a value, left to right, with
/// the overflow behaviour of checked 64-bit arithmetic: once a step
/// would exceed `i64::MAX`, the result is `None` and stays `None`.
pub open spec fn digits_fold(s: Seq<char>, i: int, end: int, acc: Option<int>) -> Option<int>
    decreases end - i,
{
    if i < 0 || i >= end || i >= s.len() {
        acc
    } else {
        let next = match acc {
            Some(a) => if a * 10 + digit_val(s[i]) <= i64::MAX {
                Some(a * 10 + digit_val(s[i]))
            } else {
                None
            },
            None => None,
        };
        digits_fold(s, i + 1, end, next)
    }
}

proof fn lemma_digits_end_bounds(s: Seq<char>, i: int)
    requires
        0 <= i <= s.len(),
    ensures
        i <= digits_end(s, i) <= s.len(),
    decreases s.len() - i,
{
    if i < s.len() && spec_is_ascii_digit(s[i]) {
        lemma_digits_end_bounds(s, i + 1);
    }
}

/// What reading a digit run at `i` yields: `None` unless a digit is
/// next; the folded value, unless it overflows 64 bits.
pub open spec fn spec_read_numbers(s: Seq<char>, i: int) -> Option<int> {
    if 0 <= i < s.len() && spec_is_ascii_digit(s[i]) {
        digits_fold(s, i, digits_end(s, i), Some(0))
    } else {
        None
    }
}

/// Reads a run of ASCII digits starting at character index `i`,
/// returning its value (or `None` at a non-digit or on 64-bit
/// overflow) and the index just past the run.
pub fn read_numbers(s: &str, i: usize) -> (r: (Option<i64>, usize))
    requires
        i <= s@.len(),
    ensures
        r.1 == digits_end(s@, i as int),
        match r.0 {
            Some(v) => spec_read_numbers(s@, i as int) == Some(v as int) && v >= 0,
            None => spec_read_numbers(s@, i as int) is None,
        },
{
    let n = s.unicode_len();
    if i >= n || !is_ascii_digit(&s.get_char(i)) {
        proof {
            assert(digits_end(s@, i as int) == i as int);
        }
        return (None, i);
    }
    let ghost end = digits_end(s@, i as int);
    let mut acc: Option<i64> = Some(0);
    let mut j: usize = i;
    while j < n && is_ascii_digit(&s.get_char(j))
        invariant
            i <= j <= n,
            n == s@.len(),
            end == digits_end(s@, i as int),
            digits_end(s@, i as int) == digits_end(s@, j as int),
            forall|k: int| i <= k < j ==> spec_is_ascii_digit(#[trigger] s@[k]),
            match acc {
                Some(a) => a >= 0 && digits_fold(s@, i as int, end, Some(0)) == digits_fold(
                    s@,
                    j as int,
                    end,
                    Some(a as int),
                ),
                None => digits_fold(s@, i as int, end, Some(0)) == digits_fold(
                    s@,
                    j as int,
                    end,
                    None,
                ),
            },
        decreases n - j,
    {
        let c = s.get_char(j);
        proof {
            lemma_digits_end_bounds(s@, j as int + 1);
            assert(digits_end(s@, j as int) == digits_end(s@, j as int + 1));
        }
        let d: i64 = (c as u32 - 48) as i64;
        acc = match acc {
            Some(a) => {
                if a <= 922_337_203_685_477_580i64 {
                    let a10 = a * 10;
                    if d <= i64::MAX - a10 {
                        Some(a10 + d)
                    } else {
                        None
                    }
                } else {
                    None
                }
            },
            None => None,
        };
        j = j + 1;
    }
    proof {
        assert(digits_end(s@, j as int) == j as int);
    }
    (acc, j)
}

/// The shared rule for parsing integers: leading HTML whitespace is
/// skipped, one sign character is honoured, and the digit run that
/// must follow gives the magnitude.
pub open spec fn spec_do_parse_integer(s: Seq<char>) -> Option<int> {
    let i = skip_ws(s, 0);
    if i >= s.len() {
        None
    } else {
        let (sign, j): (int, int) = if s[i] == '-' {
            (-1, i + 1)
        } else if s[i] == '+' {
            (1, i + 1)
        } else {
            (1, i)
        };
        match spec_read_numbers(s, j) {
            Some(v) => Some(sign * v),
            None => None,
        }
    }
}

/// Parses a signed integer per the shared HTML rule, with 64-bit
/// magnitude.
pub fn do_parse_integer(input: &str) -> (r: Option<i64>)
    ensures
        match r {
            Some(v) => spec_do_parse_integer(input@) == Some(v as int),
            None => spec_do_parse_integer(input@) is None,
        },
{
    let n = input.unicode_len();
    let mut i: usize = 0;
    while i < n && char_is_whitespace(input.get_char(i))
        invariant
            0 <= i <= n,
            n == input@.len(),
            skip_ws(input@, 0) == skip_ws(input@, i as int),
        decreases n - i,
    {
        i = i + 1;
    }
    proof {
        assert(skip_ws(input@, i as int) == i as int);
    }
    if i >= n {
        return None;
    }
    let c = input.get_char(i);
    let (negative, j): (bool, usize) = if c == '-' {
        (true, i + 1)
    } else if c == '+' {
        (false, i + 1)
    } else {
        (false, i)
    };
    let (value, _) = read_numbers(input, j);
    match value {
        Some(v) => {
            if negative {
                Some(-v)
            } else {
                Some(v)
            }
        },
        None => None,
    }
}

/// An integer parsed per the HTML rules for parsing integers, if it
/// also fits in 32 bits.
pub open spec fn spec_parse_integer(s: Seq<char>) -> Option<i32> {
    match spec_do_parse_integer(s) {
        Some(v) => if i32::MIN <= v <= i32::MAX {
            Some(v as i32)
        } else {
            None
        },
        None => None,
    }
}

/// Parses an integer per the HTML rules for parsing integers.
pub fn parse_integer(input: &str) -> (r: Option<i32>)
    ensures
        r == spec_parse_integer(input@),
{
    match do_parse_integer(input) {
        Some(v) => {
            if i32::MIN as i64 <= v && v <= i32::MAX as i64 {
                Some(v as i32)
            } else {
                None
            }
        },
        None => None,
    }
}

/// A non-negative integer parsed per the HTML rules for parsing
/// non-negative integers, if it fits in unsigned 32 bits.
pub open spec fn spec_parse_unsigned_integer(s: Seq<char>) -> Option<u32> {
    match spec_do_parse_integer(s) {
        Some(v) => if 0 <= v <= u32::MAX {
            Some(v as u32)
        } else {
            None
        },
        None => None,
    }
}

/// Parses a non-negative integer per the HTML rules.
pub fn parse_unsigned_integer(input: &str) -> (r: Option<u32>)
    ensures
        r == spec_parse_unsigned_integer(input@),
{
    match do_parse_integer(input) {
        Some(v) => {
            if 0 <= v && v <= u32::MAX as i64 {
                Some(v as u32)
            } else {
                None
            }
        },
        None => None,
    }
}

/// The legacy font size bucket: the input is trimmed, a sign makes the
/// number relative to the default size of three, and the result is
/// clamped into the named buckets (seven and above is the largest, one
/// and below the smallest).
pub open spec fn spec_legacy_font_size_bucket(s: Seq<char>) -> Option<int> {
    let t = trim_ws(s);
    if t.len() == 0 {
        None
    } else {
        let (mode, j): (int, int) = if t[0] == '+' {
            (1, 1)
        } else if t[0] == '-' {
            (-1, 1)
        } else {
            (0, 0)
        };
        match spec_read_numbers(t, j) {
            Some(v) => {
                let value: int = if mode == 1 {
                    3 + v
                } else if mode == -1 {
                    3 - v
                } else {
                    v
                };
                if value >= 7 {
                    Some(7)
                } else if value <= 1 {
                    Some(1)
                } else {
                    Some(value)
                }
            },
            None => None,
        }
    }
}

/// The keyword for a legacy font size bucket.
pub open spec fn font_size_keyword(n: int) -> Seq<char> {
    if n >= 7 {
        "xxx-large"@
    } else if n == 6 {
        "xx-large"@
    } else if n == 5 {
        "x-large"@
    } else if n == 4 {
        "large"@
    } else if n == 3 {
        "medium"@
    } else if n == 2 {
        "small"@
    } else {
        "x-small"@
    }
}

/// Parses a legacy font size per the HTML rules, returning the CSS
/// keyword for its bucket.
pub fn parse_legacy_font_size(input: &str) -> (r: Option<&'static str>)
    ensures
        match r {
            Some(t) => spec_legacy_font_size_bucket(input@) matches Some(n) && t@
                == font_size_keyword(n),
            None => spec_legacy_font_size_bucket(input@) is None,
        },
{
    let trimmed = trim_whitespace(input);
    let t = trimmed.as_str();
    let n = t.unicode_len();
    if n == 0 {
        return None;
    }
    let c = t.get_char(0);
    let (mode, j): (i64, usize) = if c == '+' {
        (1, 1)
    } else if c == '-' {
        (-1, 1)
    } else {
        (0, 0)
    };
    let (value, _) = read_numbers(t, j);
    let v = match value {
        Some(v) => v,
        None => {
            return None;
        },
    };
    let bucket: i64 = if mode == 1 {
        if v >= 4 {
            7
        } else {
            3 + v
        }
    } else if mode == -1 {
        if v >= 2 {
            1
        } else {
            3 - v
        }
    } else {
        if v >= 7 {
            7
        } else if v <= 1 {
            1
        } else {
            v
        }
    };
    if bucket >= 7 {
        Some("xxx-large")
    } else if bucket == 6 {
        Some("xx-large")
    } else if bucket == 5 {
        Some("x-large")
    } else if bucket == 4 {
        Some("large")
    } else if bucket == 3 {
        Some("medium")
    } else if bucket == 2 {
        Some("small")
    } else {
        Some("x-small")
    }
}

/// How a dimension string is classified once its numeric prefix has
/// been cut out.
#[derive(Clone, Debug, PartialEq, Eq)]
pub enum DimensionToken {
    /// No parseable dimension: treated as automatic sizing.
    Auto,
    /// A percentage: the digits (and at most one full stop) before the
    /// percent sign.
    Percentage(String),
    /// An absolute length: the digits and at most one full stop.
    Length(String),
}

/// Scans the numeric prefix from `i`: digits continue it, a percent
/// sign ends it as a percentage, a first full stop continues it, and
/// anything else ends it. Yields the end index and the percentage flag.
pub open spec fn scan_dimension(s: Seq<char>, i: int, seen_dot: bool) -> (int, bool)
    decreases s.len() - i,
{
    if i < 0 || i >= s.len() {
        (s.len() as int, false)
    } else if spec_is_ascii_digit(s[i]) {
        scan_dimension(s, i + 1, seen_dot)
    } else if s[i] == '%' {
        (i, true)
    } else if s[i] == '.' && !seen_dot {
        scan_dimension(s, i + 1, true)
    } else {
        (i, false)
    }
}

/// Where the numeric prefix of a dimension value starts: after leading
/// HTML whitespace and one optional plus sign.
pub open spec fn dimension_start(s: Seq<char>) -> int {
    let a = skip_ws(s, 0);
    if a < s.len() && s[a] == '+' {
        a + 1
    } else {
        a
    }
}

/// A dimension value without a leading digit parses as automatic
/// sizing.
pub open spec fn spec_dimension_auto(s: Seq<char>) -> bool {
    let b = dimension_start(s);
    b >= s.len() || !spec_is_ascii_digit(s[b])
}

/// Cuts the numeric token out of a dimension value per the HTML rules
/// for parsing dimension values: leading whitespace and one plus sign
/// are skipped; without a leading digit the value is automatic;
/// otherwise the numeric prefix is cut out and classified as a
/// percentage or a length. The caller turns the token into a number.
pub fn parse_length_token(value: &str) -> (r: DimensionToken)
    ensures
        ({
            let b = dimension_start(value@);
            let scanned = scan_dimension(value@, b, false);
            match r {
                DimensionToken::Auto => spec_dimension_auto(value@),
                DimensionToken::Percentage(p) => !spec_dimension_auto(value@) && scanned.1 && p@
                    == value@.subrange(b, scanned.0),
                DimensionToken::Length(p) => !spec_dimension_auto(value@) && !scanned.1 && p@
                    == value@.subrange(b, scanned.0),
            }
        }),
{
    let n = value.unicode_len();
    let mut a: usize = 0;
    while a < n && char_is_whitespace(value.get_char(a))
        invariant
            0 <= a <= n,
            n == value@.len(),
            skip_ws(value@, 0) == skip_ws(value@, a as int),
        decreases n - a,
    {
        a = a + 1;
    }
    proof {
        assert(skip_ws(value@, a as int) == a as int);
    }
    let b = if a < n && value.get_char(a) == '+' {
        a + 1
    } else {
        a
    };
    if b >= n || !is_ascii_digit(&value.get_char(b)) {
        return DimensionToken::Auto;
    }
    let mut end: usize = b;
    let mut seen_dot = false;
    let mut percent = false;
    let mut done = false;
    while !done && end < n
        invariant
            b <= end <= n,
            n == value@.len(),
            !done ==> scan_dimension(value@, b as int, false) == scan_dimension(
                value@,
                end as int,
                seen_dot,
            ),
            !done ==> !percent,
            done ==> scan_dimension(value@, b as int, false) == (end as int, percent),
        decreases n - end, (if done { 0int } else { 1int }),
    {
        let c = value.get_char(end);
        if is_ascii_digit(&c) {
            end = end + 1;
        } else if c == '%' {
            percent = true;
            done = true;
        } else if c == '.' && !seen_dot {
            seen_dot = true;
            end = end + 1;
        } else {
            done = true;
        }
    }
    proof {
        if !done {
            assert(scan_dimension(value@, end as int, seen_dot) == (n as int, false));
        }
    }
    let piece = value.substring_char(b, end);
    let token = String::from_str(piece);
    if percent {
        DimensionToken::Percentage(token)
    } else {
        DimensionToken::Length(token)
    }
}

} // verus!
