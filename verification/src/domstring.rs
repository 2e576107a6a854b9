//! DOM string types: the engine's string with its small set of mutating
//! operations, a short string that fits inline, and a string held in
//! lowercase form.

use vstd::prelude::*;

use vstd::string::StrSliceExecFns;
use vstd::string::StringExecFns;

verus! {

/// A DOM string: the engine's text value, with the operations the DOM
/// layer performs on it.
pub struct DOMString {
    inner: String,
}

impl View for DOMString {
    type V = Seq<char>;

    closed spec fn view(&self) -> Seq<char> {
        self.inner@
    }
}

impl DOMString {
    /// The empty DOM string.
    pub fn new() -> (s: DOMString)
        ensures
            s@ == Seq::<char>::empty(),
    {
        let s = DOMString { inner: String::new() };
        proof {
            assert(s@ =~= Seq::<char>::empty());
        }
        s
    }

    /// Wraps an owned string.
    pub fn from_string(contents: String) -> (s: DOMString)
        ensures
            s@ == contents@,
    {
        DOMString { inner: contents }
    }

    /// Copies a string slice.
    pub fn from_str_slice(contents: &str) -> (s: DOMString)
        ensures
            s@ == contents@,
    {
        DOMString { inner: String::from_str(contents) }
    }

    /// Empties the string.
    pub fn clear(&mut self)
        ensures
            final(self)@ == Seq::<char>::empty(),
    {
        self.inner = String::new();
        proof {
            assert(self@ =~= Seq::<char>::empty());
        }
    }

    /// Appends the characters of `contents`.
    pub fn push_str(&mut self, contents: &str)
        ensures
            final(self)@ == old(self)@ + contents@,
    {
        self.inner.append(contents);
    }

    /// The text as a string slice.
    pub fn str(&self) -> (r: &str)
        ensures
            r@ == self@,
    {
        self.inner.as_str()
    }
}

/// How a scripting value that may be null is turned into a DOM string.
pub enum StringificationBehavior {
    /// Null converts to the text "null".
    Default,
    /// Null converts to the empty string.
    Empty,
}

/// A string short enough to store inline in a packed representation:
/// under sixteen bytes of text.
pub struct InlinedString {
    inner: String,
}

impl View for InlinedString {
    type V = Seq<char>;

    closed spec fn view(&self) -> Seq<char> {
        self.inner@
    }
}

impl InlinedString {
    /// An inlined string stays under the inline capacity.
    pub open spec fn wf(&self) -> bool {
        self@.len() < 16
    }

    /// Copies a short string slice.
    pub fn new(s: &str) -> (r: InlinedString)
        requires
            s@.len() < 16,
        ensures
            r.wf(),
            r@ == s@,
    {
        InlinedString { inner: String::from_str(s) }
    }

    /// The text as a string slice.
    pub fn str(&self) -> (r: &str)
        ensures
            r@ == self@,
    {
        self.inner.as_str()
    }
}

/// What lowercasing a sequence of characters yields. The result of
/// `str::to_lowercase` depends on the characters alone, so it can be
/// named, though its full definition spans the Unicode case tables.
pub uninterp spec fn lower_of(s: Seq<char>) -> Seq<char>;

/// Relies on str::to_lowercase: the lowercase form of the text, a
/// function of the characters alone; empty text stays empty.
#[verifier::external_body]
fn lowercase(s: &str) -> (r: String)
    ensures
        r@ == lower_of(s@),
        s@.len() == 0 ==> r@.len() == 0,
{
    s.to_lowercase()
}

/// A string held in lowercase form, for case-insensitive keying.
pub struct LowercaseString {
    inner: String,
}

impl View for LowercaseString {
    type V = Seq<char>;

    closed spec fn view(&self) -> Seq<char> {
        self.inner@
    }
}

impl LowercaseString {
    /// Lowercases `s` and keeps the result.
    pub fn new(s: &str) -> (r: LowercaseString)
        ensures
            r@ == lower_of(s@),
    {
        LowercaseString { inner: lowercase(s) }
    }

    /// The lowercase text as a string slice.
    pub fn str(&self) -> (r: &str)
        ensures
            r@ == self@,
    {
        self.inner.as_str()
    }
}

} // verus!
