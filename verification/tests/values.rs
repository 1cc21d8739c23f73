use libpostal_rust::text::{char_is_whitespace, join, str_eq, str_is_blank};
use libpostal_rust::{Country, Postcode, State, UsStateCode};

const CODES: [(UsStateCode, &str); 51] = [
    (UsStateCode::AL, "AL"),
    (UsStateCode::AK, "AK"),
    (UsStateCode::AZ, "AZ"),
    (UsStateCode::AR, "AR"),
    (UsStateCode::CA, "CA"),
    (UsStateCode::CO, "CO"),
    (UsStateCode::CT, "CT"),
    (UsStateCode::DE, "DE"),
    (UsStateCode::FL, "FL"),
    (UsStateCode::GA, "GA"),
    (UsStateCode::HI, "HI"),
    (UsStateCode::ID, "ID"),
    (UsStateCode::IL, "IL"),
    (UsStateCode::IN, "IN"),
    (UsStateCode::IA, "IA"),
    (UsStateCode::KS, "KS"),
    (UsStateCode::KY, "KY"),
    (UsStateCode::LA, "LA"),
    (UsStateCode::ME, "ME"),
    (UsStateCode::MD, "MD"),
    (UsStateCode::MA, "MA"),
    (UsStateCode::MI, "MI"),
    (UsStateCode::MN, "MN"),
    (UsStateCode::MS, "MS"),
    (UsStateCode::MO, "MO"),
    (UsStateCode::MT, "MT"),
    (UsStateCode::NE, "NE"),
    (UsStateCode::NV, "NV"),
    (UsStateCode::NH, "NH"),
    (UsStateCode::NJ, "NJ"),
    (UsStateCode::NM, "NM"),
    (UsStateCode::NY, "NY"),
    (UsStateCode::NC, "NC"),
    (UsStateCode::ND, "ND"),
    (UsStateCode::OH, "OH"),
    (UsStateCode::OK, "OK"),
    (UsStateCode::OR, "OR"),
    (UsStateCode::PA, "PA"),
    (UsStateCode::RI, "RI"),
    (UsStateCode::SC, "SC"),
    (UsStateCode::SD, "SD"),
    (UsStateCode::TN, "TN"),
    (UsStateCode::TX, "TX"),
    (UsStateCode::UT, "UT"),
    (UsStateCode::VT, "VT"),
    (UsStateCode::VA, "VA"),
    (UsStateCode::WA, "WA"),
    (UsStateCode::WV, "WV"),
    (UsStateCode::WI, "WI"),
    (UsStateCode::WY, "WY"),
    (UsStateCode::DC, "DC"),
];

#[test]
fn test_us_state_code_parsing() {
    assert_eq!(UsStateCode::from_str("ny"), Ok(UsStateCode::NY));
    assert_eq!(UsStateCode::from_str("NY"), Ok(UsStateCode::NY));
    assert_eq!(UsStateCode::from_str("ca"), Ok(UsStateCode::CA));
    assert!(UsStateCode::from_str("XX").is_err());
}

#[test]
fn us_state_code_parses_through_the_standard_trait() {
    assert_eq!("ny".parse::<UsStateCode>(), Ok(UsStateCode::NY));
    assert_eq!("Dc".parse::<UsStateCode>(), Ok(UsStateCode::DC));
    assert_eq!("XX".parse::<UsStateCode>(), Err(()));
    assert_eq!(<UsStateCode as std::str::FromStr>::from_str("tx"), Ok(UsStateCode::TX));
}

#[test]
fn us_state_code_text_is_its_name() {
    for (code, text) in CODES {
        assert_eq!(code.as_str(), text);
    }
}

#[test]
fn us_state_code_round_trips_in_any_case() {
    for (code, text) in CODES {
        let lower = text.to_ascii_lowercase();
        let mixed = format!("{}{}", &text[..1], &lower[1..]);
        let other = format!("{}{}", &lower[..1], &text[1..]);
        assert_eq!(UsStateCode::from_str(code.as_str()), Ok(code));
        assert_eq!(UsStateCode::from_str(&lower), Ok(code));
        assert_eq!(UsStateCode::from_str(&mixed), Ok(code));
        assert_eq!(UsStateCode::from_str(&other), Ok(code));
        assert_eq!(UsStateCode::from_code(text), Some(code));
    }
}

#[test]
fn us_state_code_rejects_what_is_not_in_the_table() {
    let mut accepted = 0;
    for a in b'A'..=b'Z' {
        for b in b'A'..=b'Z' {
            let text = format!("{}{}", a as char, b as char);
            let expected = CODES.iter().find(|(_, t)| *t == text).map(|(c, _)| *c);
            assert_eq!(UsStateCode::from_str(&text).ok(), expected);
            assert_eq!(UsStateCode::from_str(&text.to_ascii_lowercase()).ok(), expected);
            if expected.is_some() {
                accepted += 1;
            }
        }
    }
    assert_eq!(accepted, 51);
    assert_eq!(UsStateCode::from_str(""), Err(()));
    assert_eq!(UsStateCode::from_str("N"), Err(()));
    assert_eq!(UsStateCode::from_str("NYC"), Err(()));
    assert_eq!(UsStateCode::from_str(" NY"), Err(()));
    assert_eq!(UsStateCode::from_str("NY "), Err(()));
    assert_eq!(UsStateCode::from_str("New York"), Err(()));
    assert_eq!(UsStateCode::from_str("N1"), Err(()));
}

#[test]
fn from_code_takes_uppercase_only() {
    assert_eq!(UsStateCode::from_code("NY"), Some(UsStateCode::NY));
    assert_eq!(UsStateCode::from_code("ny"), None);
    assert_eq!(UsStateCode::from_code("Ny"), None);
    assert_eq!(UsStateCode::from_code("NYC"), None);
    assert_eq!(UsStateCode::from_code(""), None);
}

#[test]
fn state_is_us_code_first() {
    assert_eq!(State::from_string("NY".to_string()), State::UsStateCode(UsStateCode::NY));
    assert_eq!(State::from_string("ny".to_string()), State::UsStateCode(UsStateCode::NY));
    assert_eq!(State::from_string("dc".to_string()), State::UsStateCode(UsStateCode::DC));
    assert_eq!(State::from_string("Wa".to_string()), State::UsStateCode(UsStateCode::WA));
}

#[test]
fn state_of_two_other_letters_is_canadian_province() {
    assert_eq!(State::from_string("ON".to_string()), State::CanadianProvince("ON".to_string()));
    assert_eq!(State::from_string("bc".to_string()), State::CanadianProvince("BC".to_string()));
    assert_eq!(State::from_string("Qc".to_string()), State::CanadianProvince("QC".to_string()));
    assert_eq!(State::from_string("xx".to_string()), State::CanadianProvince("XX".to_string()));
}

#[test]
fn state_of_anything_else_is_other_verbatim() {
    assert_eq!(State::from_string("Ontario".to_string()), State::Other("Ontario".to_string()));
    assert_eq!(State::from_string("new york".to_string()), State::Other("new york".to_string()));
    assert_eq!(State::from_string("N1".to_string()), State::Other("N1".to_string()));
    assert_eq!(State::from_string("1!".to_string()), State::Other("1!".to_string()));
    assert_eq!(State::from_string("N".to_string()), State::Other("N".to_string()));
    assert_eq!(State::from_string("".to_string()), State::Other("".to_string()));
    assert_eq!(State::from_string(" ny".to_string()), State::Other(" ny".to_string()));
    assert_eq!(State::from_string("nyc".to_string()), State::Other("nyc".to_string()));
    assert_eq!(State::from_string("éa".to_string()), State::Other("éa".to_string()));
}

#[test]
fn state_decoding_follows_unicode_uppercase() {
    assert_eq!(State::from_string("\u{fb02}".to_string()), State::UsStateCode(UsStateCode::FL));
    assert_eq!(State::from_string("\u{131}n".to_string()), State::UsStateCode(UsStateCode::IN));
    assert_eq!(UsStateCode::from_str("\u{17f}c"), Ok(UsStateCode::SC));
    assert_eq!(UsStateCode::from_str("\u{212a}s"), Err(()));
}

#[test]
fn state_from_decoded_follows_the_decoding() {
    assert_eq!(
        State::from_decoded(Some(UsStateCode::TX), "whatever".to_string()),
        State::UsStateCode(UsStateCode::TX)
    );
    assert_eq!(
        State::from_decoded(None, "ab".to_string()),
        State::CanadianProvince("AB".to_string())
    );
    assert_eq!(State::from_decoded(None, "abc".to_string()), State::Other("abc".to_string()));
}

#[test]
fn state_text() {
    assert_eq!(State::UsStateCode(UsStateCode::NY).as_str(), "NY");
    assert_eq!(State::CanadianProvince("ON".to_string()).as_str(), "ON");
    assert_eq!(State::Other("Bavaria".to_string()).as_str(), "Bavaria");
    assert_eq!(State::UsStateCode(UsStateCode::DC).to_string(), "DC");
    assert_eq!(State::Other("Bavaria".to_string()).to_string(), "Bavaria");
}

#[test]
fn country_of_two_characters_is_iso2_in_uppercase() {
    assert_eq!(Country::from_string("us".to_string()), Country::Iso2("US".to_string()));
    assert_eq!(Country::from_string("US".to_string()), Country::Iso2("US".to_string()));
    assert_eq!(Country::from_string("Gb".to_string()), Country::Iso2("GB".to_string()));
    assert_eq!(Country::from_string("1!".to_string()), Country::Iso2("1!".to_string()));
    assert_eq!(Country::from_string("éa".to_string()), Country::Iso2("ÉA".to_string()));
}

#[test]
fn country_of_three_uppercase_or_digits_is_iso3() {
    assert_eq!(Country::from_string("USA".to_string()), Country::Iso3("USA".to_string()));
    assert_eq!(Country::from_string("CAN".to_string()), Country::Iso3("CAN".to_string()));
    assert_eq!(Country::from_string("A1B".to_string()), Country::Iso3("A1B".to_string()));
    assert_eq!(Country::from_string("840".to_string()), Country::Iso3("840".to_string()));
}

#[test]
fn country_of_any_other_shape_is_a_name() {
    assert_eq!(Country::from_string("usa".to_string()), Country::Name("usa".to_string()));
    assert_eq!(Country::from_string("Usa".to_string()), Country::Name("Usa".to_string()));
    assert_eq!(Country::from_string("U.S".to_string()), Country::Name("U.S".to_string()));
    assert_eq!(Country::from_string("U S".to_string()), Country::Name("U S".to_string()));
    assert_eq!(Country::from_string("ÉTA".to_string()), Country::Name("ÉTA".to_string()));
    assert_eq!(Country::from_string("".to_string()), Country::Name("".to_string()));
    assert_eq!(Country::from_string("U".to_string()), Country::Name("U".to_string()));
    assert_eq!(Country::from_string("USSR".to_string()), Country::Name("USSR".to_string()));
    assert_eq!(
        Country::from_string("United States".to_string()),
        Country::Name("United States".to_string())
    );
}

#[test]
fn country_length_is_counted_in_characters() {
    assert_eq!(Country::from_string("é".to_string()), Country::Name("é".to_string()));
    assert_eq!(Country::from_string("日本".to_string()), Country::Iso2("日本".to_string()));
}

#[test]
fn country_classification_is_idempotent() {
    for raw in ["us", "US", "usa", "USA", "France", "", "A1B", "1!"] {
        let once = Country::from_string(raw.to_string());
        let twice = Country::from_string(once.as_str().to_string());
        assert_eq!(once, twice);
    }
}

#[test]
fn country_uppercase_may_lengthen_the_text() {
    let once = Country::from_string("\u{df}\u{df}".to_string());
    assert_eq!(once, Country::Iso2("SSSS".to_string()));
    let twice = Country::from_string(once.as_str().to_string());
    assert_eq!(twice, Country::Name("SSSS".to_string()));
}

#[test]
fn country_text() {
    assert_eq!(Country::Iso2("US".to_string()).as_str(), "US");
    assert_eq!(Country::Iso3("USA".to_string()).as_str(), "USA");
    assert_eq!(Country::Name("France".to_string()).as_str(), "France");
    assert_eq!(Country::Iso3("USA".to_string()).to_string(), "USA");
}

#[test]
fn postcode_of_blank_text_is_absent() {
    assert_eq!(Postcode::new(""), None);
    assert_eq!(Postcode::new("   "), None);
    assert_eq!(Postcode::new("\t\n"), None);
    assert_eq!(Postcode::new("\u{a0}\u{2003}\u{3000}"), None);
}

#[test]
fn postcode_keeps_its_text() {
    assert_eq!(Postcode::new("11216").map(|p| p.as_str().to_string()), Some("11216".to_string()));
    let code = Postcode::new("11216-1234").unwrap();
    assert_eq!(code.as_str(), "11216-1234");
    assert_eq!(code.to_string(), "11216-1234");
    let spaced = Postcode::new("  sw1a 1aa ").unwrap();
    assert_eq!(spaced.as_str(), "  sw1a 1aa ");
    assert_eq!(spaced.clone(), spaced);
}

#[test]
fn postcode_of_text_that_only_looks_blank_is_present() {
    assert!(Postcode::new("\u{200b}").is_some());
    assert!(Postcode::new("\u{180e}").is_some());
    assert!(Postcode::new(" . ").is_some());
}

#[test]
fn whitespace_agrees_with_the_standard_library() {
    let mut c = '\0';
    loop {
        assert_eq!(char_is_whitespace(c), c.is_whitespace());
        if c == char::MAX {
            break;
        }
        c = match char::from_u32(c as u32 + 1) {
            Some(next) => next,
            None => '\u{e000}',
        };
    }
}

#[test]
fn blank_agrees_with_trimming() {
    for text in ["", " ", "  \t ", "a", " a ", "\u{2028}", "\u{2028}x", "1 2"] {
        assert_eq!(str_is_blank(text), text.trim().is_empty());
    }
}

#[test]
fn text_equality() {
    assert!(str_eq("", ""));
    assert!(str_eq("road", "road"));
    assert!(!str_eq("road", "roads"));
    assert!(!str_eq("roads", "road"));
    assert!(!str_eq("road", "Road"));
    assert!(!str_eq("", "a"));
    assert!(str_eq("日本", "日本"));
}

#[test]
fn join_puts_one_space_between_parts() {
    assert_eq!(join(&Vec::new()), "");
    assert_eq!(join(&vec!["a".to_string()]), "a");
    assert_eq!(join(&vec!["a".to_string(), "b".to_string()]), "a b");
    assert_eq!(join(&vec!["a".to_string(), "".to_string(), "b c".to_string()]), "a  b c");
}
