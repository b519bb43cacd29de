//! The error that a failed load of notes carries to the page.
use vstd::prelude::*;
use vstd::std_specs::cmp::PartialEqSpecImpl;
use vstd::std_specs::convert::FromSpecImpl;

verus! {

/// What std's `Debug` writes for a string: the text in double quotes, with
/// quotes, backslashes and characters that do not print escaped.
pub uninterp spec fn debug_text(s: Seq<char>) -> Seq<char>;

/// Formats `s` with std's `Debug` for `str` (`format!("{:?}", s)`).
/// Claimed: the result is `debug_text` of the characters of `s`, which
/// depends on them alone. What that text is, character by character, is
/// left unsaid here.
#[verifier::external_body]
fn debug_format(s: &String) -> (r: String)
    ensures
        r@ == debug_text(s@),
{
    format!("{:?}", s)
}

#[derive(Debug)]
pub struct FetchError {
    err: String,
}

impl View for FetchError {
    type V = Seq<char>;

    /// The message of the error.
    closed spec fn view(&self) -> Seq<char> {
        self.err@
    }
}

impl FetchError {
    /// The message of the error.
    pub fn message(&self) -> (r: &String)
        ensures
            r@ == self@,
    {
        &self.err
    }

    /// What the error shows on a page: its message as std's `Debug` writes
    /// a string.
    pub fn to_string(&self) -> (r: String)
        ensures
            r@ == debug_text(self@),
    {
        debug_format(&self.err)
    }
}

impl Clone for FetchError {
    fn clone(&self) -> (r: Self)
        ensures
            r == *self,
    {
        FetchError { err: self.err.clone() }
    }
}

impl PartialEq for FetchError {
    fn eq(&self, other: &Self) -> (r: bool) {
        self.err == other.err
    }
}

impl PartialEqSpecImpl for FetchError {
    open spec fn obeys_eq_spec() -> bool {
        true
    }

    open spec fn eq_spec(&self, other: &Self) -> bool {
        self@ == other@
    }
}

impl From<String> for FetchError {
    fn from(value: String) -> (r: Self) {
        FetchError { err: value }
    }
}

impl FromSpecImpl<String> for FetchError {
    open spec fn obeys_from_spec() -> bool {
        true
    }

    closed spec fn from_spec(v: String) -> Self {
        FetchError { err: v }
    }
}

/// An error made from a message carries that message.
pub proof fn lemma_from_message(v: String)
    ensures
        <FetchError as vstd::std_specs::convert::FromSpec<String>>::from_spec(v)@ == v@,
{
}

} // verus!
