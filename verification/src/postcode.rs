//! Postal codes: text that is known not to be blank.

use crate::text::{is_blank, str_is_blank};
use vstd::prelude::*;
use vstd::string::*;

verus! {

/// A postal or ZIP code.
///
/// The text is kept exactly as it was given; the one thing known of it is
/// that it is not blank.
#[derive(Debug, PartialEq, Eq)]
pub struct Postcode(String);

impl View for Postcode {
    type V = Seq<char>;

    closed spec fn view(&self) -> Seq<char> {
        self.0@
    }
}

impl Clone for Postcode {
    fn clone(&self) -> (r: Self)
        ensures
            r@ == self@,
    {
        proof {
            use_type_invariant(self);
        }
        Postcode(self.0.clone())
    }
}

impl Postcode {
    #[verifier::type_invariant]
    spec fn not_blank(self) -> bool {
        !is_blank(self.0@)
    }

    /// Makes a postcode of `code`, unless `code` is empty or whitespace only.
    ///
    /// The text is stored as given: no trimming, no change of case, no change
    /// of separators.
    pub fn new(code: &str) -> (r: Option<Postcode>)
        ensures
            r is None <==> is_blank(code@),
            r is Some ==> r.unwrap()@ == code@,
    {
        if str_is_blank(code) {
            None
        } else {
            Some(Postcode(code.to_owned()))
        }
    }

    /// The stored text.
    pub fn as_str(&self) -> (r: &str)
        ensures
            r@ == self@,
            !is_blank(self@),
    {
        proof {
            use_type_invariant(self);
        }
        self.0.as_str()
    }

    /// The stored text, as an owned string.
    pub fn to_string(&self) -> (r: String)
        ensures
            r@ == self@,
            !is_blank(self@),
    {
        self.as_str().to_owned()
    }
}

} // verus!
