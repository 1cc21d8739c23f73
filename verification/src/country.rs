//! Countries, told apart by the shape of their text.

use crate::text::{
    all_ascii, all_ascii_uppercase_or_digit, ascii_uppercase, lemma_ascii_uppercase_idempotent,
    lemma_uppercase_fixed, str_all_ascii_uppercase_or_digit, to_uppercase, uppercase,
};
use vstd::prelude::*;
use vstd::string::*;

verus! {

/// A country, as a code or a name.
///
/// The variant says what the text looks like. No registry is consulted.
#[derive(Debug, Clone, PartialEq, Eq)]
pub enum Country {
    /// ISO 3166-1 alpha-2 code (e.g., "US", "CA", "GB")
    Iso2(String),
    /// ISO 3166-1 alpha-3 code (e.g., "USA", "CAN", "GBR")
    Iso3(String),
    /// Full country name
    Name(String),
}

/// What a [`Country`] holds, with text as a sequence of characters.
pub enum CountryView {
    Iso2(Seq<char>),
    Iso3(Seq<char>),
    Name(Seq<char>),
}

impl View for Country {
    type V = CountryView;

    open spec fn view(&self) -> CountryView {
        match self {
            Country::Iso2(s) => CountryView::Iso2(s@),
            Country::Iso3(s) => CountryView::Iso3(s@),
            Country::Name(s) => CountryView::Name(s@),
        }
    }
}

impl CountryView {
    /// The canonical text: the stored text, whatever the variant.
    pub open spec fn text(self) -> Seq<char> {
        match self {
            CountryView::Iso2(s) => s,
            CountryView::Iso3(s) => s,
            CountryView::Name(s) => s,
        }
    }
}

impl Country {
    /// The variant that raw text `s` stands for, by its length in characters:
    /// two characters are an `Iso2` code, put in uppercase; three characters,
    /// each an ASCII uppercase letter or digit, are an `Iso3` code; anything
    /// else is a name, kept as it is.
    pub open spec fn classify(s: Seq<char>) -> CountryView {
        if s.len() == 2 {
            CountryView::Iso2(uppercase(s))
        } else if s.len() == 3 && all_ascii_uppercase_or_digit(s) {
            CountryView::Iso3(s)
        } else {
            CountryView::Name(s)
        }
    }

    /// Classifies raw text.
    pub fn from_string(s: String) -> (r: Country)
        ensures
            r@ == Self::classify(s@),
    {
        let n = s.as_str().unicode_len();
        if n == 2 {
            Country::Iso2(to_uppercase(s.as_str()))
        } else if n == 3 && str_all_ascii_uppercase_or_digit(s.as_str()) {
            proof {
                lemma_uppercase_fixed(s@);
            }
            Country::Iso3(to_uppercase(s.as_str()))
        } else {
            Country::Name(s)
        }
    }

    /// The canonical text.
    pub fn as_str(&self) -> (r: &str)
        ensures
            r@ == self@.text(),
    {
        match self {
            Country::Iso2(s) => s.as_str(),
            Country::Iso3(s) => s.as_str(),
            Country::Name(s) => s.as_str(),
        }
    }

    /// The canonical text, as an owned string.
    pub fn to_string(&self) -> (r: String)
        ensures
            r@ == self@.text(),
    {
        self.as_str().to_owned()
    }
}

/// The three shapes part all text: two characters are always `Iso2`, in
/// uppercase; three ASCII uppercase letters or digits are always `Iso3`,
/// unchanged by uppercasing; everything else is a `Name`, kept verbatim.
pub proof fn lemma_classify_partition(s: Seq<char>)
    ensures
        s.len() == 2 ==> Country::classify(s) == CountryView::Iso2(uppercase(s)),
        s.len() == 2 && all_ascii(s) ==> Country::classify(s) == CountryView::Iso2(
            ascii_uppercase(s),
        ),
        s.len() == 3 && all_ascii_uppercase_or_digit(s) ==> Country::classify(s)
            == CountryView::Iso3(s) && uppercase(s) == s,
        s.len() != 2 && !(s.len() == 3 && all_ascii_uppercase_or_digit(s)) ==> Country::classify(
            s,
        ) == CountryView::Name(s),
{
    if s.len() == 3 && all_ascii_uppercase_or_digit(s) {
        lemma_uppercase_fixed(s);
    }
}

/// Classifying the text of a classified country gives the same country
/// again, as long as uppercasing two characters gives two characters that
/// uppercasing leaves alone. Of ASCII text that always holds.
pub proof fn lemma_classify_idempotent(s: Seq<char>)
    ensures
        (s.len() == 2 ==> uppercase(s).len() == 2 && uppercase(uppercase(s)) == uppercase(s))
            <==> Country::classify(Country::classify(s).text()) == Country::classify(s),
        all_ascii(s) ==> Country::classify(Country::classify(s).text()) == Country::classify(s),
{
    if all_ascii(s) {
        lemma_ascii_uppercase_idempotent(s);
    }
}

} // verus!
