//! String utilities over HTML's notion of whitespace: classification,
//! trimming, splitting on space characters, joining, and locating a
//! character by its byte index.

use vstd::prelude::*;

use vstd::string::StrSliceExecFns;
use vstd::string::StringExecFns;

verus! {

/// Whitespace as HTML defines it: space, tab, line feed, form feed,
/// carriage return.
pub open spec fn spec_char_is_whitespace(c: char) -> bool {
    c == ' ' || c == '\t' || c == '\n' || c == '\x0c' || c == '\r'
}

/// Whether `c` is an HTML space character.
pub fn char_is_whitespace(c: char) -> (b: bool)
    ensures
        b == spec_char_is_whitespace(c),
{
    c == ' ' || c == '\t' || c == '\n' || c == '\x0c' || c == '\r'
}

/// Whether every character of `s` is HTML whitespace (an empty string
/// counts as whitespace).
pub fn is_whitespace(s: &str) -> (b: bool)
    ensures
        b == (forall|i: int| 0 <= i < s@.len() ==> spec_char_is_whitespace(#[trigger] s@[i])),
{
    let n = s.unicode_len();
    for i in 0..n
        invariant
            n == s@.len(),
            forall|j: int| 0 <= j < i ==> spec_char_is_whitespace(#[trigger] s@[j]),
    {
        if !char_is_whitespace(s.get_char(i)) {
            return false;
        }
    }
    true
}

/// The first index at or after `i` whose character is not HTML
/// whitespace (or the length, if all the rest are).
pub open spec fn skip_ws(s: Seq<char>, i: int) -> int
    decreases s.len() - i,
{
    if i < 0 || i >= s.len() {
        i
    } else if spec_char_is_whitespace(s[i]) {
        skip_ws(s, i + 1)
    } else {
        i
    }
}

/// The start of the whitespace-only suffix ending at `j`: the smallest
/// index such that everything from it up to `j` is HTML whitespace.
pub open spec fn ws_suffix_start(s: Seq<char>, j: int) -> int
    decreases j,
{
    if j <= 0 {
        0
    } else if spec_char_is_whitespace(s[j - 1]) {
        ws_suffix_start(s, j - 1)
    } else {
        j
    }
}

/// `s` with HTML whitespace removed from both ends.
pub open spec fn trim_ws(s: Seq<char>) -> Seq<char> {
    let a = skip_ws(s, 0);
    let b = ws_suffix_start(s, s.len() as int);
    if a < b {
        s.subrange(a, b)
    } else {
        Seq::empty()
    }
}

proof fn lemma_skip_ws_bounds(s: Seq<char>, i: int)
    requires
        0 <= i <= s.len(),
    ensures
        i <= skip_ws(s, i) <= s.len(),
        forall|j: int| i <= j < skip_ws(s, i) ==> spec_char_is_whitespace(#[trigger] s[j]),
        skip_ws(s, i) < s.len() ==> !spec_char_is_whitespace(s[skip_ws(s, i)]),
    decreases s.len() - i,
{
    if i < s.len() && spec_char_is_whitespace(s[i]) {
        lemma_skip_ws_bounds(s, i + 1);
    }
}

proof fn lemma_ws_suffix_bounds(s: Seq<char>, j: int)
    requires
        0 <= j <= s.len(),
    ensures
        0 <= ws_suffix_start(s, j) <= j,
        forall|k: int|
            ws_suffix_start(s, j) <= k < j ==> spec_char_is_whitespace(#[trigger] s[k]),
        ws_suffix_start(s, j) > 0 ==> !spec_char_is_whitespace(s[ws_suffix_start(s, j) - 1]),
    decreases j,
{
    if j > 0 && spec_char_is_whitespace(s[j - 1]) {
        lemma_ws_suffix_bounds(s, j - 1);
    }
}

/// Trims HTML whitespace from both ends of `s`.
pub fn trim_whitespace(s: &str) -> (r: String)
    ensures
        r@ == trim_ws(s@),
{
    let n = s.unicode_len();
    let mut a: usize = 0;
    while a < n && char_is_whitespace(s.get_char(a))
        invariant
            n == s@.len(),
            0 <= a <= n,
            skip_ws(s@, 0) == skip_ws(s@, a as int),
        decreases n - a,
    {
        a = a + 1;
    }
    proof {
        assert(skip_ws(s@, a as int) == a as int);
    }
    let mut b: usize = n;
    while b > a && char_is_whitespace(s.get_char(b - 1))
        invariant
            n == s@.len(),
            a <= b <= n,
            a as int == skip_ws(s@, 0),
            ws_suffix_start(s@, n as int) == ws_suffix_start(s@, b as int),
        decreases b,
    {
        b = b - 1;
    }
    proof {
        lemma_skip_ws_bounds(s@, a as int);
        lemma_ws_suffix_bounds(s@, b as int);
        if b > a {
            assert(ws_suffix_start(s@, b as int) == b as int);
        } else {
            assert(skip_ws(s@, a as int) == a as int);
            assert(ws_suffix_start(s@, b as int) <= a as int);
        }
    }
    let piece = s.substring_char(a, b);
    let r = String::from_str(piece);
    proof {
        if !(skip_ws(s@, 0) < ws_suffix_start(s@, s@.len() as int)) {
            assert(r@ =~= trim_ws(s@));
        }
    }
    r
}

/// The segments of `s` between runs of HTML space characters, empty
/// segments dropped, processed left to right: `cur` is the segment
/// being collected and `acc` the segments already complete.
pub open spec fn split_rec(s: Seq<char>, i: int, cur: Seq<char>, acc: Seq<Seq<char>>) -> Seq<
    Seq<char>,
>
    decreases s.len() - i,
{
    if i < 0 || i >= s.len() {
        if cur.len() > 0 {
            acc.push(cur)
        } else {
            acc
        }
    } else if spec_char_is_whitespace(s[i]) {
        if cur.len() > 0 {
            split_rec(s, i + 1, Seq::empty(), acc.push(cur))
        } else {
            split_rec(s, i + 1, Seq::empty(), acc)
        }
    } else {
        split_rec(s, i + 1, cur.push(s[i]), acc)
    }
}

/// The non-empty pieces of `s` split on HTML space characters.
pub open spec fn spec_split_html_space_chars(s: Seq<char>) -> Seq<Seq<char>> {
    split_rec(s, 0, Seq::empty(), Seq::empty())
}

/// Splits `s` on HTML space characters, dropping empty pieces.
pub fn split_html_space_chars(s: &str) -> (r: Vec<String>)
    ensures
        r.deep_view() == spec_split_html_space_chars(s@),
{
    let n = s.unicode_len();
    let mut acc: Vec<String> = Vec::new();
    let mut cur: String = String::new();
    proof {
        assert(acc.deep_view() =~= Seq::<Seq<char>>::empty());
        assert(cur@ =~= Seq::<char>::empty());
    }
    for i in 0..n
        invariant
            n == s@.len(),
            split_rec(s@, i as int, cur@, acc.deep_view()) == spec_split_html_space_chars(s@),
    {
        let c = s.get_char(i);
        if char_is_whitespace(c) {
            if cur.unicode_len() > 0 {
                let ghost acc0 = acc.deep_view();
                let ghost cur0 = cur@;
                acc.push(cur);
                cur = String::new();
                proof {
                    assert(acc.deep_view() =~= acc0.push(cur0));
                    assert(cur@ =~= Seq::<char>::empty());
                }
            } else {
                proof {
                    assert(cur@ =~= Seq::<char>::empty());
                }
            }
        } else {
            let ghost cur0 = cur@;
            let piece = s.substring_char(i, i + 1);
            cur.append(piece);
            proof {
                assert(cur@ =~= cur0.push(s@[i as int]));
            }
        }
    }
    if cur.unicode_len() > 0 {
        let ghost acc0 = acc.deep_view();
        let ghost cur0 = cur@;
        acc.push(cur);
        proof {
            assert(acc.deep_view() =~= acc0.push(cur0));
        }
    }
    acc
}

/// The concatenation of the first `i` parts with `j` between them.
pub open spec fn join_upto(parts: Seq<Seq<char>>, j: Seq<char>, i: int) -> Seq<char>
    decreases i,
{
    if i <= 0 {
        Seq::empty()
    } else if i == 1 {
        parts[0]
    } else {
        join_upto(parts, j, i - 1) + j + parts[i - 1]
    }
}

/// Joins the strings with `join` between consecutive elements.
pub fn str_join(strs: &Vec<String>, join: &str) -> (r: String)
    ensures
        r@ == join_upto(strs.deep_view(), join@, strs@.len() as int),
{
    let mut acc = String::new();
    let n = strs.len();
    for i in 0..n
        invariant
            n == strs@.len(),
            acc@ == join_upto(strs.deep_view(), join@, i as int),
    {
        if i > 0 {
            acc.append(join);
        }
        acc.append(strs[i].as_str());
        proof {
            assert(strs.deep_view()[i as int] == strs@[i as int]@);
        }
    }
    acc
}

/// How many bytes this character occupies in UTF-8.
pub open spec fn char_utf8_len(c: char) -> int {
    if (c as u32) < 0x80 {
        1
    } else if (c as u32) < 0x800 {
        2
    } else if (c as u32) < 0x10000 {
        3
    } else {
        4
    }
}

fn exec_char_utf8_len(c: char) -> (n: usize)
    ensures
        n as int == char_utf8_len(c),
{
    let u = c as u32;
    if u < 0x80 {
        1
    } else if u < 0x800 {
        2
    } else if u < 0x10000 {
        3
    } else {
        4
    }
}

/// The number of characters before the one that starts at byte offset
/// `index`, scanning from character `k` at byte position `pos`; the
/// total character count when no character starts there.
pub open spec fn search_rec(s: Seq<char>, index: int, k: int, pos: int) -> int
    decreases s.len() - k,
{
    if k < 0 || k >= s.len() {
        k
    } else if pos == index {
        k
    } else {
        search_rec(s, index, k + 1, pos + char_utf8_len(s[k]))
    }
}

/// Finds the character index of the character that starts at byte
/// offset `index`; returns the total character count if no character
/// starts there.
pub fn search_index(index: usize, s: &str) -> (r: isize)
    requires
        s@.len() <= usize::MAX / 4,
    ensures
        r as int == search_rec(s@, index as int, 0, 0),
{
    let n = s.unicode_len();
    let mut pos: usize = 0;
    for k in 0..n
        invariant
            n == s@.len() <= usize::MAX / 4,
            pos <= 4 * k,
            search_rec(s@, index as int, 0, 0) == search_rec(s@, index as int, k as int, pos as int),
    {
        if pos == index {
            return k as isize;
        }
        let c = s.get_char(k);
        pos = pos + exec_char_utf8_len(c);
    }
    n as isize
}

/// The characters of `s` from character `begin` (inclusive) to `end`
/// (exclusive). Both bounds must lie within the string, in order.
pub fn slice_chars<'a>(s: &'a str, begin: usize, end: usize) -> (r: &'a str)
    requires
        begin <= end,
        end <= s@.len(),
    ensures
        r@ == s@.subrange(begin as int, end as int),
{
    s.substring_char(begin, end)
}

} // verus!
