//! A string known to hold at least one character, as the command argument
//! types require for library paths.

use vstd::prelude::*;

verus! {

/// The error for a string that must not be empty but was.
#[derive(Clone, Copy, Debug, PartialEq, Eq, Structural)]
pub struct EmptyStringError;

/// A string with at least one character.
pub struct NonEmptyString {
    inner: String,
}

impl View for NonEmptyString {
    type V = Seq<char>;

    closed spec fn view(&self) -> Seq<char> {
        self.inner@
    }
}

impl NonEmptyString {
    pub open spec fn wf(&self) -> bool {
        self@.len() > 0
    }

    /// Accepts exactly the non-empty strings.
    pub fn try_new(s: String) -> (r: Result<NonEmptyString, EmptyStringError>)
        ensures
            match r {
                Ok(n) => s@.len() > 0 && n@ == s@ && n.wf(),
                Err(_) => s@.len() == 0,
            },
    {
        if s.as_str().is_empty() {
            Err(EmptyStringError)
        } else {
            Ok(NonEmptyString { inner: s })
        }
    }

    /// Read access to the text.
    pub fn as_str(&self) -> (r: &str)
        ensures
            r@ == self@,
    {
        self.inner.as_str()
    }
}

} // verus!
