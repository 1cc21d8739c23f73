//! States, provinces and regions.

use crate::text::{
    all_ascii, all_ascii_alphabetic, ascii_upper, ascii_uppercase, is_ascii_alphabetic,
    is_ascii_uppercase, lemma_letters_are_ascii, str_all_ascii_alphabetic, to_uppercase,
};
use crate::us_state::{lemma_code_shape, lemma_parse_ascii, UsStateCode};
use vstd::prelude::*;
use vstd::string::*;

verus! {

/// A state, province or region.
#[derive(Debug, Clone, PartialEq, Eq)]
pub enum State {
    /// US state code (e.g., "NY", "CA")
    UsStateCode(UsStateCode),
    /// Canadian province code (e.g., "ON", "BC")
    CanadianProvince(String),
    /// Other state/province/region name
    Other(String),
}

/// What a [`State`] holds, with text as a sequence of characters.
pub enum StateView {
    UsStateCode(UsStateCode),
    CanadianProvince(Seq<char>),
    Other(Seq<char>),
}

impl View for State {
    type V = StateView;

    open spec fn view(&self) -> StateView {
        match self {
            State::UsStateCode(c) => StateView::UsStateCode(*c),
            State::CanadianProvince(s) => StateView::CanadianProvince(s@),
            State::Other(s) => StateView::Other(s@),
        }
    }
}

impl StateView {
    /// The canonical text: the two letters of a US code, or the stored text.
    pub open spec fn text(self) -> Seq<char> {
        match self {
            StateView::UsStateCode(c) => c.code(),
            StateView::CanadianProvince(s) => s,
            StateView::Other(s) => s,
        }
    }
}

/// `s` is two characters long and both are ASCII letters.
pub open spec fn is_two_letters(s: Seq<char>) -> bool {
    s.len() == 2 && all_ascii_alphabetic(s)
}

impl State {
    /// The variant that raw text `s` stands for. The first rule that applies
    /// decides: a US code in any letter case; else two ASCII letters, taken
    /// for a Canadian province and put in uppercase; else the text as it is.
    pub open spec fn classify(s: Seq<char>) -> StateView {
        match UsStateCode::parse(s) {
            Some(c) => StateView::UsStateCode(c),
            None => if is_two_letters(s) {
                StateView::CanadianProvince(ascii_uppercase(s))
            } else {
                StateView::Other(s)
            },
        }
    }

    /// The variant that `code` gives to raw text `s`, where `code` is what
    /// decoding `s` as a US state code returned.
    pub fn from_decoded(code: Option<UsStateCode>, s: String) -> (r: State)
        ensures
            r@ == (match code {
                Some(c) => StateView::UsStateCode(c),
                None => if is_two_letters(s@) {
                    StateView::CanadianProvince(ascii_uppercase(s@))
                } else {
                    StateView::Other(s@)
                },
            }),
    {
        match code {
            Some(c) => State::UsStateCode(c),
            None => {
                if s.as_str().unicode_len() == 2 && str_all_ascii_alphabetic(s.as_str()) {
                    proof {
                        lemma_letters_are_ascii(s@);
                    }
                    State::CanadianProvince(to_uppercase(s.as_str()))
                } else {
                    State::Other(s)
                }
            },
        }
    }

    /// Classifies raw text.
    pub fn from_string(s: String) -> (r: State)
        ensures
            r@ == Self::classify(s@),
    {
        let code = match UsStateCode::from_str(s.as_str()) {
            Ok(c) => Some(c),
            Err(_) => None,
        };
        Self::from_decoded(code, s)
    }

    /// The canonical text.
    pub fn as_str(&self) -> (r: &str)
        ensures
            r@ == self@.text(),
    {
        match self {
            State::UsStateCode(code) => code.as_str(),
            State::CanadianProvince(s) => s.as_str(),
            State::Other(s) => s.as_str(),
        }
    }

    /// The canonical text, as an owned string.
    pub fn to_string(&self) -> (r: String)
        ensures
            r@ == self@.text(),
    {
        self.as_str().to_owned()
    }
}

/// Two letters are always a US state or a Canadian province, never both and
/// never anything else: a US state exactly when the letters, in uppercase,
/// are a code of the table. Any other ASCII text is `Other`, kept verbatim.
/// Text beyond ASCII is `Other`, kept verbatim, unless it parses as a US code.
pub proof fn lemma_classify_partition(s: Seq<char>)
    ensures
        is_two_letters(s) ==> (State::classify(s) is UsStateCode) != (State::classify(
            s,
        ) is CanadianProvince),
        is_two_letters(s) ==> ((State::classify(s) is UsStateCode) <==> (exists|c: UsStateCode|
            ascii_uppercase(s) == #[trigger] c.code())),
        is_two_letters(s) && State::classify(s) is UsStateCode ==> State::classify(
            s,
        )->UsStateCode_0.code() == ascii_uppercase(s),
        is_two_letters(s) && State::classify(s) is CanadianProvince ==> State::classify(s)
            == StateView::CanadianProvince(ascii_uppercase(s)),
        !is_two_letters(s) && all_ascii(s) ==> State::classify(s) == StateView::Other(s),
        !is_two_letters(s) && UsStateCode::parse(s) is None ==> State::classify(s)
            == StateView::Other(s),
{
    if is_two_letters(s) {
        lemma_letters_are_ascii(s);
        lemma_parse_ascii(s);
    } else if all_ascii(s) {
        lemma_parse_ascii(s);
        assert forall|c: UsStateCode| ascii_uppercase(s) != #[trigger] c.code() by {
            if ascii_uppercase(s) == c.code() {
                lemma_code_shape(c);
                assert(s.len() == 2);
                assert forall|i: int| 0 <= i < s.len() implies is_ascii_alphabetic(
                    #[trigger] s[i],
                ) by {
                    assert(ascii_uppercase(s)[i] == ascii_upper(s[i]));
                    assert(is_ascii_uppercase(c.code()[i]));
                }
            }
        }
    }
}

} // verus!
