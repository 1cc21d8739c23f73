//! The vocabulary of field names that an address parser uses.

use crate::text::str_eq;
use vstd::prelude::*;
use vstd::string::*;

verus! {

/// A component of an address, as the parser names it.
#[derive(Debug, Clone, Copy, PartialEq, Eq, Structural)]
pub enum Field {
    /// House number (e.g., "781")
    HouseNumber,
    /// Road or street name (e.g., "Franklin Ave")
    Road,
    /// Unit or apartment number (e.g., "3B")
    Unit,
    /// Building or complex name
    House,
    /// Floor or level
    Level,
    /// Staircase identifier
    Staircase,
    /// Entrance identifier
    Entrance,
    /// P.O. box number
    PoBox,
    /// Postal or ZIP code
    Postcode,
    /// Suburb (e.g., "Crown Heights")
    Suburb,
    /// City or town name (e.g., "Brooklyn")
    City,
    /// City district
    CityDistrict,
    /// Island name
    Island,
    /// State, province or region (e.g., "NY")
    State,
    /// State district
    StateDistrict,
    /// Country (e.g., "USA")
    Country,
    /// Country region
    CountryRegion,
    /// World region (e.g., "North America")
    WorldRegion,
    /// Neighbourhood name
    Neighbourhood,
    /// Category or classification
    Category,
    /// Nearby place the address refers to (e.g., "Central Park")
    Near,
}

impl Field {
    /// The name under which the parser reports this component.
    pub open spec fn name(self) -> Seq<char> {
        match self {
            Field::HouseNumber => "house_number"@,
            Field::Road => "road"@,
            Field::Unit => "unit"@,
            Field::House => "house"@,
            Field::Level => "level"@,
            Field::Staircase => "staircase"@,
            Field::Entrance => "entrance"@,
            Field::PoBox => "po_box"@,
            Field::Postcode => "postcode"@,
            Field::Suburb => "suburb"@,
            Field::City => "city"@,
            Field::CityDistrict => "city_district"@,
            Field::Island => "island"@,
            Field::State => "state"@,
            Field::StateDistrict => "state_district"@,
            Field::Country => "country"@,
            Field::CountryRegion => "country_region"@,
            Field::WorldRegion => "world_region"@,
            Field::Neighbourhood => "neighbourhood"@,
            Field::Category => "category"@,
            Field::Near => "near"@,
        }
    }

    /// The component that is reported under exactly the name `key`, if there
    /// is one. Names are case-sensitive.
    pub open spec fn lookup(key: Seq<char>) -> Option<Field> {
        if exists|f: Field| f.name() == key {
            Some(choose|f: Field| f.name() == key)
        } else {
            None
        }
    }

    /// The name under which the parser reports this component.
    pub fn as_str(&self) -> (r: &'static str)
        ensures
            r@ == self.name(),
    {
        match self {
            Field::HouseNumber => "house_number",
            Field::Road => "road",
            Field::Unit => "unit",
            Field::House => "house",
            Field::Level => "level",
            Field::Staircase => "staircase",
            Field::Entrance => "entrance",
            Field::PoBox => "po_box",
            Field::Postcode => "postcode",
            Field::Suburb => "suburb",
            Field::City => "city",
            Field::CityDistrict => "city_district",
            Field::Island => "island",
            Field::State => "state",
            Field::StateDistrict => "state_district",
            Field::Country => "country",
            Field::CountryRegion => "country_region",
            Field::WorldRegion => "world_region",
            Field::Neighbourhood => "neighbourhood",
            Field::Category => "category",
            Field::Near => "near",
        }
    }

    /// Finds the component that `key` names. A key outside the vocabulary
    /// names none.
    pub fn from_name(key: &str) -> (r: Option<Field>)
        ensures
            r == Self::lookup(key@),
    {
        let r = if str_eq(key, "house_number") {
            Some(Field::HouseNumber)
        } else if str_eq(key, "road") {
            Some(Field::Road)
        } else if str_eq(key, "unit") {
            Some(Field::Unit)
        } else if str_eq(key, "house") {
            Some(Field::House)
        } else if str_eq(key, "level") {
            Some(Field::Level)
        } else if str_eq(key, "staircase") {
            Some(Field::Staircase)
        } else if str_eq(key, "entrance") {
            Some(Field::Entrance)
        } else if str_eq(key, "po_box") {
            Some(Field::PoBox)
        } else if str_eq(key, "postcode") {
            Some(Field::Postcode)
        } else if str_eq(key, "suburb") {
            Some(Field::Suburb)
        } else if str_eq(key, "city") {
            Some(Field::City)
        } else if str_eq(key, "city_district") {
            Some(Field::CityDistrict)
        } else if str_eq(key, "island") {
            Some(Field::Island)
        } else if str_eq(key, "state") {
            Some(Field::State)
        } else if str_eq(key, "state_district") {
            Some(Field::StateDistrict)
        } else if str_eq(key, "country") {
            Some(Field::Country)
        } else if str_eq(key, "country_region") {
            Some(Field::CountryRegion)
        } else if str_eq(key, "world_region") {
            Some(Field::WorldRegion)
        } else if str_eq(key, "neighbourhood") {
            Some(Field::Neighbourhood)
        } else if str_eq(key, "category") {
            Some(Field::Category)
        } else if str_eq(key, "near") {
            Some(Field::Near)
        } else {
            None
        };
        proof {
            match r {
                Some(f) => {
                    assert(f.name() == key@);
                    lemma_name_injective(f, Self::lookup(key@).unwrap());
                },
                None => {
                    assert forall|f: Field| f.name() != key@ by {}
                },
            }
        }
        r
    }
}

/// Two components with the same name are the same component: no two names
/// agree in both their length and their first letter.
pub proof fn lemma_name_injective(a: Field, b: Field)
    requires
        a.name() == b.name(),
    ensures
        a == b,
{
    reveal_strlit("house_number");
    reveal_strlit("road");
    reveal_strlit("unit");
    reveal_strlit("house");
    reveal_strlit("level");
    reveal_strlit("staircase");
    reveal_strlit("entrance");
    reveal_strlit("po_box");
    reveal_strlit("postcode");
    reveal_strlit("suburb");
    reveal_strlit("city");
    reveal_strlit("city_district");
    reveal_strlit("island");
    reveal_strlit("state");
    reveal_strlit("state_district");
    reveal_strlit("country");
    reveal_strlit("country_region");
    reveal_strlit("world_region");
    reveal_strlit("neighbourhood");
    reveal_strlit("category");
    reveal_strlit("near");
    assert("house_number"@.len() == 12 && "house_number"@[0] == 'h');
    assert("road"@.len() == 4 && "road"@[0] == 'r');
    assert("unit"@.len() == 4 && "unit"@[0] == 'u');
    assert("house"@.len() == 5 && "house"@[0] == 'h');
    assert("level"@.len() == 5 && "level"@[0] == 'l');
    assert("staircase"@.len() == 9 && "staircase"@[0] == 's');
    assert("entrance"@.len() == 8 && "entrance"@[0] == 'e');
    assert("po_box"@.len() == 6 && "po_box"@[0] == 'p');
    assert("postcode"@.len() == 8 && "postcode"@[0] == 'p');
    assert("suburb"@.len() == 6 && "suburb"@[0] == 's');
    assert("city"@.len() == 4 && "city"@[0] == 'c');
    assert("city_district"@.len() == 13 && "city_district"@[0] == 'c');
    assert("island"@.len() == 6 && "island"@[0] == 'i');
    assert("state"@.len() == 5 && "state"@[0] == 's');
    assert("state_district"@.len() == 14 && "state_district"@[0] == 's');
    assert("country"@.len() == 7 && "country"@[0] == 'c');
    assert("country_region"@.len() == 14 && "country_region"@[0] == 'c');
    assert("world_region"@.len() == 12 && "world_region"@[0] == 'w');
    assert("neighbourhood"@.len() == 13 && "neighbourhood"@[0] == 'n');
    assert("category"@.len() == 8 && "category"@[0] == 'c');
    assert("near"@.len() == 4 && "near"@[0] == 'n');
    assert(a.name().len() == b.name().len());
    assert(a.name()[0] == b.name()[0]);
}

/// Every component is found again under its own name.
pub proof fn lemma_lookup_name(f: Field)
    ensures
        Field::lookup(f.name()) == Some(f),
{
    lemma_name_injective(Field::lookup(f.name()).unwrap(), f);
}

} // verus!
