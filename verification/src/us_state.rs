//! The two-letter codes of the fifty United States and the District of
//! Columbia.

use crate::text::{
    all_ascii, ascii_upper, ascii_uppercase, is_ascii_char, is_ascii_uppercase, to_uppercase,
    uppercase,
};
use vstd::prelude::*;
use vstd::std_specs::iter::IteratorSpec;
use vstd::string::*;

verus! {

/// A state of the United States, or the District of Columbia, by its postal
/// code.
#[derive(Debug, Clone, Copy, PartialEq, Eq, Structural)]
pub enum UsStateCode {
    AL,
    AK,
    AZ,
    AR,
    CA,
    CO,
    CT,
    DE,
    FL,
    GA,
    HI,
    ID,
    IL,
    IN,
    IA,
    KS,
    KY,
    LA,
    ME,
    MD,
    MA,
    MI,
    MN,
    MS,
    MO,
    MT,
    NE,
    NV,
    NH,
    NJ,
    NM,
    NY,
    NC,
    ND,
    OH,
    OK,
    OR,
    PA,
    RI,
    SC,
    SD,
    TN,
    TX,
    UT,
    VT,
    VA,
    WA,
    WV,
    WI,
    WY,
    DC,  // Washington D.C.
}

impl UsStateCode {
    /// The canonical text of the code: its two uppercase letters.
    pub open spec fn code(self) -> Seq<char> {
        match self {
            UsStateCode::AL => "AL"@,
            UsStateCode::AK => "AK"@,
            UsStateCode::AZ => "AZ"@,
            UsStateCode::AR => "AR"@,
            UsStateCode::CA => "CA"@,
            UsStateCode::CO => "CO"@,
            UsStateCode::CT => "CT"@,
            UsStateCode::DE => "DE"@,
            UsStateCode::FL => "FL"@,
            UsStateCode::GA => "GA"@,
            UsStateCode::HI => "HI"@,
            UsStateCode::ID => "ID"@,
            UsStateCode::IL => "IL"@,
            UsStateCode::IN => "IN"@,
            UsStateCode::IA => "IA"@,
            UsStateCode::KS => "KS"@,
            UsStateCode::KY => "KY"@,
            UsStateCode::LA => "LA"@,
            UsStateCode::ME => "ME"@,
            UsStateCode::MD => "MD"@,
            UsStateCode::MA => "MA"@,
            UsStateCode::MI => "MI"@,
            UsStateCode::MN => "MN"@,
            UsStateCode::MS => "MS"@,
            UsStateCode::MO => "MO"@,
            UsStateCode::MT => "MT"@,
            UsStateCode::NE => "NE"@,
            UsStateCode::NV => "NV"@,
            UsStateCode::NH => "NH"@,
            UsStateCode::NJ => "NJ"@,
            UsStateCode::NM => "NM"@,
            UsStateCode::NY => "NY"@,
            UsStateCode::NC => "NC"@,
            UsStateCode::ND => "ND"@,
            UsStateCode::OH => "OH"@,
            UsStateCode::OK => "OK"@,
            UsStateCode::OR => "OR"@,
            UsStateCode::PA => "PA"@,
            UsStateCode::RI => "RI"@,
            UsStateCode::SC => "SC"@,
            UsStateCode::SD => "SD"@,
            UsStateCode::TN => "TN"@,
            UsStateCode::TX => "TX"@,
            UsStateCode::UT => "UT"@,
            UsStateCode::VT => "VT"@,
            UsStateCode::VA => "VA"@,
            UsStateCode::WA => "WA"@,
            UsStateCode::WV => "WV"@,
            UsStateCode::WI => "WI"@,
            UsStateCode::WY => "WY"@,
            UsStateCode::DC => "DC"@,
        }
    }

    /// The two letters of the code, one by one.
    spec fn letters(self) -> (char, char) {
        match self {
            UsStateCode::AL => ('A', 'L'),
            UsStateCode::AK => ('A', 'K'),
            UsStateCode::AZ => ('A', 'Z'),
            UsStateCode::AR => ('A', 'R'),
            UsStateCode::CA => ('C', 'A'),
            UsStateCode::CO => ('C', 'O'),
            UsStateCode::CT => ('C', 'T'),
            UsStateCode::DE => ('D', 'E'),
            UsStateCode::FL => ('F', 'L'),
            UsStateCode::GA => ('G', 'A'),
            UsStateCode::HI => ('H', 'I'),
            UsStateCode::ID => ('I', 'D'),
            UsStateCode::IL => ('I', 'L'),
            UsStateCode::IN => ('I', 'N'),
            UsStateCode::IA => ('I', 'A'),
            UsStateCode::KS => ('K', 'S'),
            UsStateCode::KY => ('K', 'Y'),
            UsStateCode::LA => ('L', 'A'),
            UsStateCode::ME => ('M', 'E'),
            UsStateCode::MD => ('M', 'D'),
            UsStateCode::MA => ('M', 'A'),
            UsStateCode::MI => ('M', 'I'),
            UsStateCode::MN => ('M', 'N'),
            UsStateCode::MS => ('M', 'S'),
            UsStateCode::MO => ('M', 'O'),
            UsStateCode::MT => ('M', 'T'),
            UsStateCode::NE => ('N', 'E'),
            UsStateCode::NV => ('N', 'V'),
            UsStateCode::NH => ('N', 'H'),
            UsStateCode::NJ => ('N', 'J'),
            UsStateCode::NM => ('N', 'M'),
            UsStateCode::NY => ('N', 'Y'),
            UsStateCode::NC => ('N', 'C'),
            UsStateCode::ND => ('N', 'D'),
            UsStateCode::OH => ('O', 'H'),
            UsStateCode::OK => ('O', 'K'),
            UsStateCode::OR => ('O', 'R'),
            UsStateCode::PA => ('P', 'A'),
            UsStateCode::RI => ('R', 'I'),
            UsStateCode::SC => ('S', 'C'),
            UsStateCode::SD => ('S', 'D'),
            UsStateCode::TN => ('T', 'N'),
            UsStateCode::TX => ('T', 'X'),
            UsStateCode::UT => ('U', 'T'),
            UsStateCode::VT => ('V', 'T'),
            UsStateCode::VA => ('V', 'A'),
            UsStateCode::WA => ('W', 'A'),
            UsStateCode::WV => ('W', 'V'),
            UsStateCode::WI => ('W', 'I'),
            UsStateCode::WY => ('W', 'Y'),
            UsStateCode::DC => ('D', 'C'),
        }
    }

    /// The state whose code is exactly `t`, if there is one.
    pub open spec fn lookup(t: Seq<char>) -> Option<UsStateCode> {
        if exists|c: UsStateCode| c.code() == t {
            Some(choose|c: UsStateCode| c.code() == t)
        } else {
            None
        }
    }

    /// The state that `s` names when letter case is ignored, if there is one.
    pub open spec fn parse(s: Seq<char>) -> Option<UsStateCode> {
        Self::lookup(uppercase(s))
    }

    /// The canonical two-letter text of this code.
    pub fn as_str(&self) -> (r: &'static str)
        ensures
            r@ == self.code(),
    {
        match self {
            UsStateCode::AL => "AL",
            UsStateCode::AK => "AK",
            UsStateCode::AZ => "AZ",
            UsStateCode::AR => "AR",
            UsStateCode::CA => "CA",
            UsStateCode::CO => "CO",
            UsStateCode::CT => "CT",
            UsStateCode::DE => "DE",
            UsStateCode::FL => "FL",
            UsStateCode::GA => "GA",
            UsStateCode::HI => "HI",
            UsStateCode::ID => "ID",
            UsStateCode::IL => "IL",
            UsStateCode::IN => "IN",
            UsStateCode::IA => "IA",
            UsStateCode::KS => "KS",
            UsStateCode::KY => "KY",
            UsStateCode::LA => "LA",
            UsStateCode::ME => "ME",
            UsStateCode::MD => "MD",
            UsStateCode::MA => "MA",
            UsStateCode::MI => "MI",
            UsStateCode::MN => "MN",
            UsStateCode::MS => "MS",
            UsStateCode::MO => "MO",
            UsStateCode::MT => "MT",
            UsStateCode::NE => "NE",
            UsStateCode::NV => "NV",
            UsStateCode::NH => "NH",
            UsStateCode::NJ => "NJ",
            UsStateCode::NM => "NM",
            UsStateCode::NY => "NY",
            UsStateCode::NC => "NC",
            UsStateCode::ND => "ND",
            UsStateCode::OH => "OH",
            UsStateCode::OK => "OK",
            UsStateCode::OR => "OR",
            UsStateCode::PA => "PA",
            UsStateCode::RI => "RI",
            UsStateCode::SC => "SC",
            UsStateCode::SD => "SD",
            UsStateCode::TN => "TN",
            UsStateCode::TX => "TX",
            UsStateCode::UT => "UT",
            UsStateCode::VT => "VT",
            UsStateCode::VA => "VA",
            UsStateCode::WA => "WA",
            UsStateCode::WV => "WV",
            UsStateCode::WI => "WI",
            UsStateCode::WY => "WY",
            UsStateCode::DC => "DC",
        }
    }

    /// The state whose code is the pair of letters `a`, `b`, written in
    /// uppercase.
    fn from_letters(a: char, b: char) -> (r: Option<UsStateCode>)
        ensures
            r == Self::lookup(seq![a, b]),
    {
        let r = match (a, b) {
            ('A', 'L') => Some(UsStateCode::AL),
            ('A', 'K') => Some(UsStateCode::AK),
            ('A', 'Z') => Some(UsStateCode::AZ),
            ('A', 'R') => Some(UsStateCode::AR),
            ('C', 'A') => Some(UsStateCode::CA),
            ('C', 'O') => Some(UsStateCode::CO),
            ('C', 'T') => Some(UsStateCode::CT),
            ('D', 'E') => Some(UsStateCode::DE),
            ('F', 'L') => Some(UsStateCode::FL),
            ('G', 'A') => Some(UsStateCode::GA),
            ('H', 'I') => Some(UsStateCode::HI),
            ('I', 'D') => Some(UsStateCode::ID),
            ('I', 'L') => Some(UsStateCode::IL),
            ('I', 'N') => Some(UsStateCode::IN),
            ('I', 'A') => Some(UsStateCode::IA),
            ('K', 'S') => Some(UsStateCode::KS),
            ('K', 'Y') => Some(UsStateCode::KY),
            ('L', 'A') => Some(UsStateCode::LA),
            ('M', 'E') => Some(UsStateCode::ME),
            ('M', 'D') => Some(UsStateCode::MD),
            ('M', 'A') => Some(UsStateCode::MA),
            ('M', 'I') => Some(UsStateCode::MI),
            ('M', 'N') => Some(UsStateCode::MN),
            ('M', 'S') => Some(UsStateCode::MS),
            ('M', 'O') => Some(UsStateCode::MO),
            ('M', 'T') => Some(UsStateCode::MT),
            ('N', 'E') => Some(UsStateCode::NE),
            ('N', 'V') => Some(UsStateCode::NV),
            ('N', 'H') => Some(UsStateCode::NH),
            ('N', 'J') => Some(UsStateCode::NJ),
            ('N', 'M') => Some(UsStateCode::NM),
            ('N', 'Y') => Some(UsStateCode::NY),
            ('N', 'C') => Some(UsStateCode::NC),
            ('N', 'D') => Some(UsStateCode::ND),
            ('O', 'H') => Some(UsStateCode::OH),
            ('O', 'K') => Some(UsStateCode::OK),
            ('O', 'R') => Some(UsStateCode::OR),
            ('P', 'A') => Some(UsStateCode::PA),
            ('R', 'I') => Some(UsStateCode::RI),
            ('S', 'C') => Some(UsStateCode::SC),
            ('S', 'D') => Some(UsStateCode::SD),
            ('T', 'N') => Some(UsStateCode::TN),
            ('T', 'X') => Some(UsStateCode::TX),
            ('U', 'T') => Some(UsStateCode::UT),
            ('V', 'T') => Some(UsStateCode::VT),
            ('V', 'A') => Some(UsStateCode::VA),
            ('W', 'A') => Some(UsStateCode::WA),
            ('W', 'V') => Some(UsStateCode::WV),
            ('W', 'I') => Some(UsStateCode::WI),
            ('W', 'Y') => Some(UsStateCode::WY),
            ('D', 'C') => Some(UsStateCode::DC),
            _ => None,
        };
        proof {
            let t = seq![a, b];
            match r {
                Some(c) => {
                    lemma_code_letters(c);
                    lemma_code_injective(c, Self::lookup(t).unwrap());
                },
                None => {
                    assert forall|c: UsStateCode| c.code() != t by {
                        lemma_code_letters(c);
                        if c.code() == t {
                            assert(c.letters().0 == t[0]);
                            assert(c.letters().1 == t[1]);
                        }
                    }
                },
            }
        }
        r
    }

    /// Decodes text that is already in canonical form: exactly the two
    /// uppercase letters of a code.
    pub fn from_code(code: &str) -> (r: Option<UsStateCode>)
        ensures
            r == Self::lookup(code@),
    {
        let mut rest = code.chars();
        let a = rest.next();
        let b = rest.next();
        let c = rest.next();
        match (a, b, c) {
            (Some(a), Some(b), None) => {
                proof {
                    assert(code@ =~= seq![a, b]);
                }
                Self::from_letters(a, b)
            },
            _ => {
                proof {
                    assert(code@.len() != 2);
                    assert forall|c: UsStateCode| c.code() != code@ by {
                        lemma_code_shape(c);
                    }
                }
                None
            },
        }
    }

    /// Decodes a code written in any letter case.
    ///
    /// Returns `Err(())` exactly for text that names no code.
    pub fn from_str(s: &str) -> (r: Result<UsStateCode, ()>)
        ensures
            r == match Self::parse(s@) {
                Some(c) => Ok::<UsStateCode, ()>(c),
                None => Err::<UsStateCode, ()>(()),
            },
    {
        let upper = to_uppercase(s);
        match Self::from_code(upper.as_str()) {
            Some(c) => Ok(c),
            None => Err(()),
        }
    }
}

impl std::str::FromStr for UsStateCode {
    type Err = ();

    /// Decodes a code written in any letter case, as [`UsStateCode::from_str`]
    /// does: `Err(())` exactly for text that names no code.
    fn from_str(s: &str) -> (r: Result<UsStateCode, ()>)
        ensures
            r == match UsStateCode::parse(s@) {
                Some(c) => Ok::<UsStateCode, ()>(c),
                None => Err::<UsStateCode, ()>(()),
            },
    {
        UsStateCode::from_str(s)
    }
}

/// The text of a code is its two letters.
proof fn lemma_code_letters(c: UsStateCode)
    ensures
        c.code() == seq![c.letters().0, c.letters().1],
{
    reveal_strlit("AL");
    reveal_strlit("AK");
    reveal_strlit("AZ");
    reveal_strlit("AR");
    reveal_strlit("CA");
    reveal_strlit("CO");
    reveal_strlit("CT");
    reveal_strlit("DE");
    reveal_strlit("FL");
    reveal_strlit("GA");
    reveal_strlit("HI");
    reveal_strlit("ID");
    reveal_strlit("IL");
    reveal_strlit("IN");
    reveal_strlit("IA");
    reveal_strlit("KS");
    reveal_strlit("KY");
    reveal_strlit("LA");
    reveal_strlit("ME");
    reveal_strlit("MD");
    reveal_strlit("MA");
    reveal_strlit("MI");
    reveal_strlit("MN");
    reveal_strlit("MS");
    reveal_strlit("MO");
    reveal_strlit("MT");
    reveal_strlit("NE");
    reveal_strlit("NV");
    reveal_strlit("NH");
    reveal_strlit("NJ");
    reveal_strlit("NM");
    reveal_strlit("NY");
    reveal_strlit("NC");
    reveal_strlit("ND");
    reveal_strlit("OH");
    reveal_strlit("OK");
    reveal_strlit("OR");
    reveal_strlit("PA");
    reveal_strlit("RI");
    reveal_strlit("SC");
    reveal_strlit("SD");
    reveal_strlit("TN");
    reveal_strlit("TX");
    reveal_strlit("UT");
    reveal_strlit("VT");
    reveal_strlit("VA");
    reveal_strlit("WA");
    reveal_strlit("WV");
    reveal_strlit("WI");
    reveal_strlit("WY");
    reveal_strlit("DC");
    assert(c.code() =~= seq![c.letters().0, c.letters().1]);
}

/// Two codes with the same text are the same code.
pub proof fn lemma_code_injective(a: UsStateCode, b: UsStateCode)
    requires
        a.code() == b.code(),
    ensures
        a == b,
{
    lemma_code_letters(a);
    lemma_code_letters(b);
    assert(a.code()[0] == b.code()[0]);
    assert(a.code()[1] == b.code()[1]);
}

/// Every code is found again under its own text: decoding is the inverse of
/// encoding.
pub proof fn lemma_lookup_code(c: UsStateCode)
    ensures
        UsStateCode::lookup(c.code()) == Some(c),
        UsStateCode::parse(c.code()) == Some(c),
{
    lemma_code_injective(UsStateCode::lookup(c.code()).unwrap(), c);
    lemma_code_shape(c);
    assert(ascii_uppercase(c.code()) =~= c.code());
    lemma_parse_any_case(c, c.code());
}

/// A code decodes to itself in whatever letter case it is written: text
/// whose ASCII uppercase form is the code's text parses as that code.
pub proof fn lemma_parse_any_case(c: UsStateCode, s: Seq<char>)
    requires
        ascii_uppercase(s) == c.code(),
    ensures
        UsStateCode::parse(s) == Some(c),
{
    lemma_code_shape(c);
    assert(s.len() == 2);
    assert forall|i: int| 0 <= i < s.len() implies is_ascii_char(#[trigger] s[i]) by {
        assert(ascii_uppercase(s)[i] == ascii_upper(s[i]));
        assert(is_ascii_uppercase(c.code()[i]));
    }
    lemma_code_injective(UsStateCode::lookup(c.code()).unwrap(), c);
}

/// ASCII text parses as a code exactly when its uppercase form is that
/// code's text; ASCII text whose uppercase form is no code's text is rejected.
pub proof fn lemma_parse_ascii(s: Seq<char>)
    requires
        all_ascii(s),
    ensures
        forall|c: UsStateCode|
            (UsStateCode::parse(s) == Some(c)) <==> ascii_uppercase(s) == #[trigger] c.code(),
        (UsStateCode::parse(s) is None) <==> (forall|c: UsStateCode|
            ascii_uppercase(s) != #[trigger] c.code()),
{
    assert forall|c: UsStateCode| ascii_uppercase(s) == #[trigger] c.code() implies
        UsStateCode::parse(s) == Some(c) by {
        lemma_code_injective(UsStateCode::lookup(c.code()).unwrap(), c);
    }
}

/// A code's text is two ASCII uppercase letters.
pub proof fn lemma_code_shape(c: UsStateCode)
    ensures
        c.code().len() == 2,
        is_ascii_uppercase(c.code()[0]),
        is_ascii_uppercase(c.code()[1]),
{
    lemma_code_letters(c);
}

} // verus!
