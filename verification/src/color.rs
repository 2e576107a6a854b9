//! The HTML rules for parsing a legacy colour value: named colours,
//! three-digit hex shorthand, and the forgiving fallback pipeline that
//! turns arbitrary text into a colour.

use vstd::prelude::*;

use vstd::string::StrSliceExecFns;

use crate::strutil::trim_ws;
use crate::strutil::trim_whitespace;

verus! {

/// A colour with a byte per channel.
#[derive(Clone, Copy, Debug, PartialEq, Eq, Structural)]
pub struct LegacyColor {
    pub red: u8,
    pub green: u8,
    pub blue: u8,
    pub alpha: u8,
}

/// The code point with ASCII uppercase folded to lowercase.
pub open spec fn ascii_lower_u32(u: u32) -> u32 {
    if 65 <= u <= 90 {
        (u + 32) as u32
    } else {
        u
    }
}

/// Character sequences equal up to ASCII case.
pub open spec fn seq_eq_ignore_ascii_case(a: Seq<char>, b: Seq<char>) -> bool {
    a.len() == b.len() && forall|i: int|
        0 <= i < a.len() ==> ascii_lower_u32(#[trigger] (a[i] as u32)) == ascii_lower_u32(
            b[i] as u32,
        )
}

pub open spec fn is_hex_digit(c: char) -> bool {
    (48 <= c as u32 && c as u32 <= 57) || (97 <= c as u32 && c as u32 <= 102) || (65 <= c as u32
        && c as u32 <= 70)
}

/// The value of a hex digit (zero on other characters).
pub open spec fn hex_val(c: char) -> int {
    if 48 <= c as u32 && c as u32 <= 57 {
        c as u32 - 48
    } else if 97 <= c as u32 && c as u32 <= 102 {
        c as u32 - 87
    } else if 65 <= c as u32 && c as u32 <= 70 {
        c as u32 - 55
    } else {
        0
    }
}

fn exec_is_hex_digit(c: char) -> (b: bool)
    ensures
        b == is_hex_digit(c),
{
    let u = c as u32;
    (48 <= u && u <= 57) || (97 <= u && u <= 102) || (65 <= u && u <= 70)
}

fn exec_hex_val(c: char) -> (v: u8)
    ensures
        v as int == hex_val(c),
        v <= 15,
{
    let u = c as u32;
    if 48 <= u && u <= 57 {
        (u - 48) as u8
    } else if 97 <= u && u <= 102 {
        (u - 87) as u8
    } else if 65 <= u && u <= 70 {
        (u - 55) as u8
    } else {
        0
    }
}

/// Characters outside the basic plane are replaced by two zero digits
/// (they cannot contribute hex digits and keep positions stable).
pub open spec fn expand_chars(s: Seq<char>, i: int) -> Seq<char>
    decreases s.len() - i,
{
    if i < 0 || i >= s.len() {
        Seq::empty()
    } else if s[i] as u32 > 0xffff {
        seq!['0', '0'] + expand_chars(s, i + 1)
    } else {
        seq![s[i]] + expand_chars(s, i + 1)
    }
}

/// The text is cut to its first 128 characters.
pub open spec fn truncate128(s: Seq<char>) -> Seq<char> {
    if s.len() > 128 {
        s.subrange(0, 128)
    } else {
        s
    }
}

/// One leading number sign is dropped.
pub open spec fn strip_hash(s: Seq<char>) -> Seq<char> {
    if s.len() > 0 && s[0] == '#' {
        s.subrange(1, s.len() as int)
    } else {
        s
    }
}

/// Every character that is not a hex digit becomes a zero digit.
pub open spec fn sanitize_hex(s: Seq<char>) -> Seq<char> {
    s.map_values(
        |c: char|
            if is_hex_digit(c) {
                c
            } else {
                '0'
            },
    )
}

/// Zero digits are appended until the length is a nonzero multiple of
/// three.
pub open spec fn pad3(s: Seq<char>) -> Seq<char> {
    if s.len() == 0 {
        seq!['0', '0', '0']
    } else if s.len() % 3 == 1 {
        s + seq!['0', '0']
    } else if s.len() % 3 == 2 {
        s + seq!['0']
    } else {
        s
    }
}

/// While the components are longer than two digits and all start with
/// a zero, the leading zeros are dropped together.
pub open spec fn strip_zeros(r: Seq<char>, g: Seq<char>, b: Seq<char>) -> (
    Seq<char>,
    Seq<char>,
    Seq<char>,
)
    decreases r.len(),
{
    if r.len() > 2 && g.len() == r.len() && b.len() == r.len() && r[0] == '0' && g[0] == '0'
        && b[0] == '0' {
        strip_zeros(r.drop_first(), g.drop_first(), b.drop_first())
    } else {
        (r, g, b)
    }
}

/// The channel value of a component: its first two hex digits (or its
/// only digit).
pub open spec fn hex2(s: Seq<char>) -> int {
    if s.len() == 1 {
        hex_val(s[0])
    } else {
        hex_val(s[0]) * 16 + hex_val(s[1])
    }
}

/// The channels read from the normalized hex text: it splits into
/// three equal components, of which at most the last eight digits
/// count; common leading zeros are dropped, and each component's first
/// one or two digits give a channel.
pub open spec fn channels_of(z: Seq<char>) -> LegacyColor {
    let l = z.len() as int / 3;
    let start: int = if l > 8 {
        l - 8
    } else {
        0
    };
    let r1 = z.subrange(start, l);
    let g1 = z.subrange(l + start, 2 * l);
    let b1 = z.subrange(2 * l + start, 3 * l);
    let parts = strip_zeros(r1, g1, b1);
    LegacyColor {
        red: hex2(parts.0) as u8,
        green: hex2(parts.1) as u8,
        blue: hex2(parts.2) as u8,
        alpha: 255,
    }
}

/// The forgiving fallback: expand, truncate, strip the sign, keep only
/// hex digits, pad to three equal components, and read the channels.
pub open spec fn legacy_color_pipeline(t: Seq<char>) -> LegacyColor {
    channels_of(pad3(sanitize_hex(strip_hash(truncate128(expand_chars(t, 0))))))
}

/// What looking a name up in the CSS colour keyword table yields. The
/// table's contents span pages; the lookup is a function of the name
/// alone (ASCII case-insensitive), so it is named rather than restated.
pub uninterp spec fn css_color_keyword_of(s: Seq<char>) -> Option<(u8, u8, u8, u8)>;

/// Relies on cssparser::parse_color_keyword: the CSS named-colour
/// lookup, a function of the name alone. Only names that resolve to a
/// concrete colour count; the current-colour keyword does not.
#[verifier::external_body]
fn color_keyword(s: &str) -> (r: Option<(u8, u8, u8, u8)>)
    ensures
        r == css_color_keyword_of(s@),
{
    match cssparser::parse_color_keyword(s) {
        Ok(cssparser::Color::RGBA(c)) => Some((c.red, c.green, c.blue, c.alpha)),
        _ => None,
    }
}

/// What parsing a legacy colour yields: an error on empty or
/// whitespace-only text and on the transparent keyword; a named colour
/// from the keyword table; a three-digit hex shorthand, each digit
/// doubled into a channel; and otherwise the forgiving pipeline.
pub open spec fn spec_parse_legacy_color(s: Seq<char>) -> Result<LegacyColor, ()> {
    if s.len() == 0 {
        Err(())
    } else {
        let t = trim_ws(s);
        if seq_eq_ignore_ascii_case(t, "transparent"@) {
            Err(())
        } else {
            match css_color_keyword_of(t) {
                Some(c) => Ok(LegacyColor { red: c.0, green: c.1, blue: c.2, alpha: c.3 }),
                None => if t.len() == 4 && t[0] == '#' && is_hex_digit(t[1]) && is_hex_digit(t[2])
                    && is_hex_digit(t[3]) {
                    Ok(
                        LegacyColor {
                            red: (hex_val(t[1]) * 17) as u8,
                            green: (hex_val(t[2]) * 17) as u8,
                            blue: (hex_val(t[3]) * 17) as u8,
                            alpha: 255,
                        },
                    )
                } else if t.len() == 0 {
                    Err(())
                } else {
                    Ok(legacy_color_pipeline(t))
                },
            }
        }
    }
}

fn chars_of(s: &str) -> (v: Vec<char>)
    ensures
        v@ == s@,
{
    let n = s.unicode_len();
    let mut v: Vec<char> = Vec::new();
    proof {
        assert(v@ =~= s@.subrange(0, 0));
    }
    for i in 0..n
        invariant
            n == s@.len(),
            v@ == s@.subrange(0, i as int),
    {
        let c = s.get_char(i);
        v.push(c);
        proof {
            assert(v@ =~= s@.subrange(0, i + 1));
        }
    }
    proof {
        assert(v@ =~= s@);
    }
    v
}

fn eq_ignore_case_transparent(t: &str) -> (b: bool)
    ensures
        b == seq_eq_ignore_ascii_case(t@, "transparent"@),
{
    proof {
        reveal_strlit("transparent");
    }
    let tgt = chars_of("transparent");
    let n = t.unicode_len();
    if n != 11 {
        return false;
    }
    for i in 0..11usize
        invariant
            n == 11 == t@.len(),
            tgt@ == "transparent"@,
            forall|j: int|
                0 <= j < i ==> ascii_lower_u32(#[trigger] (t@[j] as u32)) == ascii_lower_u32(
                    "transparent"@[j] as u32,
                ),
    {
        proof {
            reveal_strlit("transparent");
        }
        let a = t.get_char(i) as u32;
        let b = tgt[i] as u32;
        let la = if 65 <= a && a <= 90 {
            a + 32
        } else {
            a
        };
        let lb = if 65 <= b && b <= 90 {
            b + 32
        } else {
            b
        };
        if la != lb {
            proof {
                assert(ascii_lower_u32(t@[i as int] as u32) != ascii_lower_u32(
                    "transparent"@[i as int] as u32,
                ));
            }
            return false;
        }
        proof {
            assert(ascii_lower_u32(t@[i as int] as u32) == ascii_lower_u32(
                "transparent"@[i as int] as u32,
            ));
        }
    }
    true
}

/// Normalizes the trimmed colour text into hex-digit components:
/// expands characters outside the basic plane to two zero digits, cuts
/// to 128 characters, drops one leading number sign, replaces
/// non-hex-digits by zero digits, and pads to a nonzero multiple of
/// three digits.
fn normalize_hex(tv: &Vec<char>) -> (z: Vec<char>)
    ensures
        z@ == pad3(sanitize_hex(strip_hash(truncate128(expand_chars(tv@, 0))))),
        z@.len() >= 3,
        z@.len() % 3 == 0,
{
    let tn = tv.len();
    let mut e: Vec<char> = Vec::new();
    proof {
        assert(e@ + expand_chars(tv@, 0) =~= expand_chars(tv@, 0));
    }
    for i in 0..tn
        invariant
            tn == tv@.len(),
            expand_chars(tv@, 0) == e@ + expand_chars(tv@, i as int),
    {
        let ghost e0 = e@;
        let c = tv[i];
        if c as u32 > 0xffff {
            e.push('0');
            e.push('0');
            proof {
                assert(e@ =~= e0 + seq!['0', '0']);
                assert(e0 + (seq!['0', '0'] + expand_chars(tv@, i + 1)) =~= (e0 + seq!['0', '0'])
                    + expand_chars(tv@, i + 1));
            }
        } else {
            e.push(c);
            proof {
                assert(e@ =~= e0 + seq![tv@[i as int]]);
                assert(e0 + (seq![tv@[i as int]] + expand_chars(tv@, i + 1)) =~= (e0 + seq![
                    tv@[i as int],
                ]) + expand_chars(tv@, i + 1));
            }
        }
    }
    proof {
        assert(e@ + expand_chars(tv@, tn as int) =~= e@);
    }
    if e.len() > 128 {
        e.truncate(128);
    }
    proof {
        assert(e@ =~= truncate128(expand_chars(tv@, 0)));
    }
    if e.len() > 0 && e[0] == '#' {
        let _ = e.remove(0);
    }
    let ghost h = strip_hash(truncate128(expand_chars(tv@, 0)));
    proof {
        assert(e@ =~= h);
    }
    let en = e.len();
    let mut z: Vec<char> = Vec::new();
    for i in 0..en
        invariant
            en == e@.len(),
            e@ == h,
            z@.len() == i,
            forall|j: int|
                0 <= j < i ==> z@[j] == (if is_hex_digit(e@[j]) {
                    e@[j]
                } else {
                    '0'
                }),
    {
        let c = e[i];
        if exec_is_hex_digit(c) {
            z.push(c);
        } else {
            z.push('0');
        }
    }
    proof {
        assert(z@ =~= sanitize_hex(h));
    }
    let ghost zs = sanitize_hex(h);
    if z.len() == 0 {
        z.push('0');
        z.push('0');
        z.push('0');
        proof {
            assert(z@ =~= pad3(zs));
        }
    } else if z.len() % 3 == 1 {
        z.push('0');
        z.push('0');
        proof {
            assert(z@ =~= pad3(zs));
        }
    } else if z.len() % 3 == 2 {
        z.push('0');
        proof {
            assert(z@ =~= pad3(zs));
        }
    }
    proof {
        assert(z@ =~= pad3(zs));
    }
    z
}

/// Reads the three channels from the normalized hex text, as
/// `channels_of` describes.
fn channels(z: &Vec<char>) -> (c: LegacyColor)
    requires
        z@.len() >= 3,
        z@.len() % 3 == 0,
    ensures
        c == channels_of(z@),
{
    let l = z.len() / 3;
    proof {
        assert(z@.len() == 3 * l);
    }
    let start = if l > 8 {
        l - 8
    } else {
        0
    };
    let mut rp: Vec<char> = Vec::new();
    let mut gp: Vec<char> = Vec::new();
    let mut bp: Vec<char> = Vec::new();
    let m = l - start;
    for i in 0..m
        invariant
            z@.len() <= usize::MAX,
            l == z@.len() / 3,
            z@.len() == 3 * l,
            start == (if l > 8 {
                l - 8
            } else {
                0
            }),
            m == l - start,
            rp@ =~= z@.subrange(start as int, start as int + i),
            gp@ =~= z@.subrange(l as int + start, l as int + start + i),
            bp@ =~= z@.subrange(2 * l as int + start, 2 * l as int + start + i),
    {
        rp.push(z[start + i]);
        gp.push(z[l + start + i]);
        bp.push(z[2 * l + start + i]);
        proof {
            assert(rp@ =~= z@.subrange(start as int, start as int + i + 1));
            assert(gp@ =~= z@.subrange(l as int + start, l as int + start + i + 1));
            assert(bp@ =~= z@.subrange(2 * l as int + start, 2 * l as int + start + i + 1));
        }
    }
    let ghost r1 = z@.subrange(start as int, l as int);
    let ghost g1 = z@.subrange(l as int + start, 2 * l as int);
    let ghost b1 = z@.subrange(2 * l as int + start, 3 * l as int);
    proof {
        assert(rp@ =~= r1);
        assert(gp@ =~= g1);
        assert(bp@ =~= b1);
        assert(r1.subrange(0, m as int) =~= r1);
        assert(g1.subrange(0, m as int) =~= g1);
        assert(b1.subrange(0, m as int) =~= b1);
    }
    let mut k: usize = 0;
    while m - k > 2 && rp[k] == '0' && gp[k] == '0' && bp[k] == '0'
        invariant
            k <= m,
            1 <= m == rp@.len() == gp@.len() == bp@.len(),
            m - k >= 1,
            rp@ == r1 && gp@ == g1 && bp@ == b1,
            strip_zeros(r1, g1, b1) == strip_zeros(
                r1.subrange(k as int, m as int),
                g1.subrange(k as int, m as int),
                b1.subrange(k as int, m as int),
            ),
        decreases m - k,
    {
        proof {
            assert(r1.subrange(k as int, m as int).drop_first() =~= r1.subrange(
                k as int + 1,
                m as int,
            ));
            assert(g1.subrange(k as int, m as int).drop_first() =~= g1.subrange(
                k as int + 1,
                m as int,
            ));
            assert(b1.subrange(k as int, m as int).drop_first() =~= b1.subrange(
                k as int + 1,
                m as int,
            ));
        }
        k = k + 1;
    }
    proof {
        assert(strip_zeros(r1, g1, b1) == (
            r1.subrange(k as int, m as int),
            g1.subrange(k as int, m as int),
            b1.subrange(k as int, m as int),
        ));
    }
    let red: u8 = if m - k >= 2 {
        exec_hex_val(rp[k]) * 16 + exec_hex_val(rp[k + 1])
    } else {
        exec_hex_val(rp[k])
    };
    let green: u8 = if m - k >= 2 {
        exec_hex_val(gp[k]) * 16 + exec_hex_val(gp[k + 1])
    } else {
        exec_hex_val(gp[k])
    };
    let blue: u8 = if m - k >= 2 {
        exec_hex_val(bp[k]) * 16 + exec_hex_val(bp[k + 1])
    } else {
        exec_hex_val(bp[k])
    };
    LegacyColor { red, green, blue, alpha: 255 }
}

/// Parses a legacy colour per the HTML rules. Empty and
/// whitespace-only values and the transparent keyword have no colour;
/// everything else resolves to one.
pub fn parse_legacy_color(input: &str) -> (res: Result<LegacyColor, ()>)
    ensures
        res == spec_parse_legacy_color(input@),
{
    if input.unicode_len() == 0 {
        return Err(());
    }
    let trimmed = trim_whitespace(input);
    let t = trimmed.as_str();
    if eq_ignore_case_transparent(t) {
        return Err(());
    }
    match color_keyword(t) {
        Some(c) => {
            return Ok(LegacyColor { red: c.0, green: c.1, blue: c.2, alpha: c.3 });
        },
        None => {},
    }
    let tv = chars_of(t);
    let tn = tv.len();
    if tn == 4 && tv[0] == '#' && exec_is_hex_digit(tv[1]) && exec_is_hex_digit(tv[2])
        && exec_is_hex_digit(tv[3]) {
        return Ok(
            LegacyColor {
                red: exec_hex_val(tv[1]) * 17,
                green: exec_hex_val(tv[2]) * 17,
                blue: exec_hex_val(tv[3]) * 17,
                alpha: 255,
            },
        );
    }
    if tn == 0 {
        return Err(());
    }
    let z = normalize_hex(&tv);
    let c = channels(&z);
    Ok(c)
}

} // verus!
