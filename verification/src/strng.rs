//! A cheaply clonable immutable string, used as a key throughout.
//!
//! The string itself is `arcstr::ArcStr`. Verus cannot look inside it, so its
//! text is reached through [`strng_chars`], and everything known about the few
//! operations used here is stated on the functions of this module.

use vstd::prelude::*;

verus! {

/// `arcstr::ArcStr`, carried as it is: nothing inside it is visible here.
#[verifier::external_type_specification]
#[verifier::external_body]
pub struct ExArcStr(arcstr::ArcStr);

/// A reference-counted immutable string: cloning bumps a counter, and the
/// handle is one pointer wide.
pub type Strng = arcstr::ArcStr;

/// The characters that a [`Strng`] holds.
pub uninterp spec fn strng_chars(s: arcstr::ArcStr) -> Seq<char>;

/// Builds a [`Strng`] with the text of `s`.
///
/// Trusted: `<ArcStr as From<&str>>::from` copies the given text into a fresh
/// allocation (or hands out the shared empty string), so the result holds
/// exactly the characters of `s`.
#[verifier::external_body]
pub fn new(s: &str) -> (r: Strng)
    ensures
        strng_chars(r) == s@,
{
    arcstr::ArcStr::from(s)
}

/// The text of `s` as a string slice.
///
/// Trusted: `ArcStr::as_str` borrows the stored text unchanged.
#[verifier::external_body]
pub(crate) fn text_of(s: &Strng) -> (r: &str)
    ensures
        r@ == strng_chars(*s),
{
    s.as_str()
}

/// Another handle to the same text.
///
/// Trusted: `<ArcStr as Clone>::clone` shares the allocation; the clone reads
/// as the same characters.
#[verifier::external_body]
pub(crate) fn share(s: &Strng) -> (r: Strng)
    ensures
        strng_chars(r) == strng_chars(*s),
{
    s.clone()
}

/// Whether two strings hold the same text.
///
/// Trusted: `<ArcStr as PartialEq>::eq` is true when both handles point at one
/// allocation or when the two texts are equal, which is to say exactly when
/// the texts are equal.
#[verifier::external_body]
pub(crate) fn same_text(a: &Strng, b: &Strng) -> (r: bool)
    ensures
        r == (strng_chars(*a) == strng_chars(*b)),
{
    a == b
}

/// The empty string.
pub fn empty() -> (r: Strng)
    ensures
        strng_chars(r) == Seq::<char>::empty(),
{
    let r = new("");
    proof {
        reveal_strlit("");
        assert(strng_chars(r) =~= Seq::<char>::empty());
    }
    r
}

/// An owned copy of the text of `s`.
pub fn to_string(s: &Strng) -> (r: String)
    ensures
        r@ == strng_chars(*s),
{
    text_of(s).to_owned()
}

/// A [`Strng`] that carries methods of its own.
#[derive(Debug, Hash, PartialEq, Eq)]
pub struct RichStrng(pub Strng);

impl View for RichStrng {
    type V = Seq<char>;

    open spec fn view(&self) -> Seq<char> {
        strng_chars(self.0)
    }
}

impl RichStrng {
    /// Wraps the text of `s`.
    pub fn from_str(s: &str) -> (r: RichStrng)
        ensures
            r@ == s@,
    {
        RichStrng(new(s))
    }

    /// Wraps an existing string without copying it.
    pub fn from_strng(s: Strng) -> (r: RichStrng)
        ensures
            r.0 == s,
            r@ == strng_chars(s),
    {
        RichStrng(s)
    }

    /// The wrapped string.
    pub fn strng(&self) -> (r: &Strng)
        ensures
            *r == self.0,
    {
        &self.0
    }

    /// The wrapped text.
    pub fn as_str(&self) -> (r: &str)
        ensures
            r@ == self@,
    {
        text_of(&self.0)
    }

    /// Whether the wrapped text has no characters.
    pub fn is_empty(&self) -> (r: bool)
        ensures
            r == (self@.len() == 0),
    {
        text_of(&self.0).is_empty()
    }
}

impl Default for RichStrng {
    fn default() -> (r: RichStrng)
        ensures
            r@ == Seq::<char>::empty(),
    {
        RichStrng(empty())
    }
}

impl Clone for RichStrng {
    fn clone(&self) -> (r: RichStrng)
        ensures
            r@ == self@,
    {
        RichStrng(share(&self.0))
    }
}

} // verus!
