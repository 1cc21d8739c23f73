//! The address itself: how it is filled from a parser's output, and how it
//! is written on one line.

use crate::country::{Country, CountryView};
use crate::field::{lemma_name_injective, Field};
use crate::postcode::Postcode;
use crate::state::{State, StateView};
use crate::text::{is_blank, join, join_with_space};
use vstd::prelude::*;
use vstd::string::*;

verus! {

/// A postal address, component by component.
///
/// Every component may be absent, and none depends on another: nothing ties
/// the state to the country, or the postcode to either.
#[derive(Debug, Clone, PartialEq, Eq)]
pub struct Address {
    /// House number (e.g., "781")
    pub house_number: Option<String>,
    /// Road/street name (e.g., "Franklin Ave")
    pub road: Option<String>,
    /// Unit/apartment number (e.g., "Apt 3B")
    pub unit: Option<String>,
    /// Building or complex name
    pub house: Option<String>,
    /// Floor/level
    pub level: Option<String>,
    /// Staircase identifier
    pub staircase: Option<String>,
    /// Entrance identifier
    pub entrance: Option<String>,
    /// P.O. Box number
    pub po_box: Option<String>,
    /// Postal/ZIP code
    pub postcode: Option<Postcode>,
    /// Suburb or neighborhood (e.g., "Crown Heights")
    pub suburb: Option<String>,
    /// City/town name (e.g., "Brooklyn", "NYC")
    pub city: Option<String>,
    /// City district
    pub city_district: Option<String>,
    /// Island name
    pub island: Option<String>,
    /// State/province/region (e.g., "NY")
    pub state: Option<State>,
    /// State district
    pub state_district: Option<String>,
    /// Country name (e.g., "USA")
    pub country: Option<Country>,
    /// Country region
    pub country_region: Option<String>,
    /// World region (e.g., "North America")
    pub world_region: Option<String>,
    /// Neighborhood name
    pub neighbourhood: Option<String>,
    /// Any additional categories or classifications
    pub category: Option<String>,
    /// Near location reference (e.g., "near Central Park")
    pub near: Option<String>,
}

/// What an [`Address`] holds, with text as sequences of characters.
pub struct AddressView {
    pub house_number: Option<Seq<char>>,
    pub road: Option<Seq<char>>,
    pub unit: Option<Seq<char>>,
    pub house: Option<Seq<char>>,
    pub level: Option<Seq<char>>,
    pub staircase: Option<Seq<char>>,
    pub entrance: Option<Seq<char>>,
    pub po_box: Option<Seq<char>>,
    pub postcode: Option<Seq<char>>,
    pub suburb: Option<Seq<char>>,
    pub city: Option<Seq<char>>,
    pub city_district: Option<Seq<char>>,
    pub island: Option<Seq<char>>,
    pub state: Option<StateView>,
    pub state_district: Option<Seq<char>>,
    pub country: Option<CountryView>,
    pub country_region: Option<Seq<char>>,
    pub world_region: Option<Seq<char>>,
    pub neighbourhood: Option<Seq<char>>,
    pub category: Option<Seq<char>>,
    pub near: Option<Seq<char>>,
}

/// The characters of a component that is plain text.
pub open spec fn text_view(field: Option<String>) -> Option<Seq<char>> {
    match field {
        Some(s) => Some(s@),
        None => None,
    }
}

impl View for Address {
    type V = AddressView;

    open spec fn view(&self) -> AddressView {
        AddressView {
            house_number: text_view(self.house_number),
            road: text_view(self.road),
            unit: text_view(self.unit),
            house: text_view(self.house),
            level: text_view(self.level),
            staircase: text_view(self.staircase),
            entrance: text_view(self.entrance),
            po_box: text_view(self.po_box),
            postcode: match self.postcode {
                Some(p) => Some(p@),
                None => None,
            },
            suburb: text_view(self.suburb),
            city: text_view(self.city),
            city_district: text_view(self.city_district),
            island: text_view(self.island),
            state: match self.state {
                Some(s) => Some(s@),
                None => None,
            },
            state_district: text_view(self.state_district),
            country: match self.country {
                Some(c) => Some(c@),
                None => None,
            },
            country_region: text_view(self.country_region),
            world_region: text_view(self.world_region),
            neighbourhood: text_view(self.neighbourhood),
            category: text_view(self.category),
            near: text_view(self.near),
        }
    }
}

/// The value that the last entry under the key `name` holds, if any entry
/// has that key.
pub open spec fn last_value(entries: Seq<(Seq<char>, Seq<char>)>, name: Seq<char>) -> Option<
    Seq<char>,
>
    decreases entries.len(),
{
    if entries.len() == 0 {
        None
    } else if entries.last().0 == name {
        Some(entries.last().1)
    } else {
        last_value(entries.drop_last(), name)
    }
}

/// The postcode that raw text gives: none where the text is blank.
pub open spec fn postcode_of(raw: Option<Seq<char>>) -> Option<Seq<char>> {
    match raw {
        Some(v) => if is_blank(v) {
            None
        } else {
            Some(v)
        },
        None => None,
    }
}

/// The state that raw text gives.
pub open spec fn state_of(raw: Option<Seq<char>>) -> Option<StateView> {
    match raw {
        Some(v) => Some(State::classify(v)),
        None => None,
    }
}

/// The country that raw text gives.
pub open spec fn country_of(raw: Option<Seq<char>>) -> Option<CountryView> {
    match raw {
        Some(v) => Some(Country::classify(v)),
        None => None,
    }
}

/// A component as a list of parts: one part if it is present, none if not.
pub open spec fn part(component: Option<Seq<char>>) -> Seq<Seq<char>> {
    match component {
        Some(t) => seq![t],
        None => Seq::empty(),
    }
}

impl AddressView {
    /// The address with every component absent.
    pub open spec fn empty() -> AddressView {
        AddressView {
            house_number: None,
            road: None,
            unit: None,
            house: None,
            level: None,
            staircase: None,
            entrance: None,
            po_box: None,
            postcode: None,
            suburb: None,
            city: None,
            city_district: None,
            island: None,
            state: None,
            state_district: None,
            country: None,
            country_region: None,
            world_region: None,
            neighbourhood: None,
            category: None,
            near: None,
        }
    }

    /// This address after raw text `value` was stored under `field`. Plain
    /// components take the text as it is; the postcode, the state and the
    /// country take what the text classifies as. Blank text clears the
    /// postcode.
    pub open spec fn with_field(self, field: Field, value: Seq<char>) -> AddressView {
        match field {
            Field::HouseNumber => AddressView { house_number: Some(value), ..self },
            Field::Road => AddressView { road: Some(value), ..self },
            Field::Unit => AddressView { unit: Some(value), ..self },
            Field::House => AddressView { house: Some(value), ..self },
            Field::Level => AddressView { level: Some(value), ..self },
            Field::Staircase => AddressView { staircase: Some(value), ..self },
            Field::Entrance => AddressView { entrance: Some(value), ..self },
            Field::PoBox => AddressView { po_box: Some(value), ..self },
            Field::Postcode => AddressView { postcode: postcode_of(Some(value)), ..self },
            Field::Suburb => AddressView { suburb: Some(value), ..self },
            Field::City => AddressView { city: Some(value), ..self },
            Field::CityDistrict => AddressView { city_district: Some(value), ..self },
            Field::Island => AddressView { island: Some(value), ..self },
            Field::State => AddressView { state: state_of(Some(value)), ..self },
            Field::StateDistrict => AddressView { state_district: Some(value), ..self },
            Field::Country => AddressView { country: country_of(Some(value)), ..self },
            Field::CountryRegion => AddressView { country_region: Some(value), ..self },
            Field::WorldRegion => AddressView { world_region: Some(value), ..self },
            Field::Neighbourhood => AddressView { neighbourhood: Some(value), ..self },
            Field::Category => AddressView { category: Some(value), ..self },
            Field::Near => AddressView { near: Some(value), ..self },
        }
    }

    /// The parts of the single-line form, in their fixed order: house number,
    /// road, unit behind a `#`, city, state, postcode, country. An absent
    /// component gives no part. No other component appears.
    pub open spec fn parts(self) -> Seq<Seq<char>> {
        part(self.house_number) + part(self.road) + part(
            match self.unit {
                Some(u) => Some(seq!['#'] + u),
                None => None,
            },
        ) + part(self.city) + part(
            match self.state {
                Some(s) => Some(s.text()),
                None => None,
            },
        ) + part(self.postcode) + part(
            match self.country {
                Some(c) => Some(c.text()),
                None => None,
            },
        )
    }

    /// The single-line form: the parts with one space between neighbours.
    pub open spec fn single_line(self) -> Seq<char> {
        join_with_space(self.parts())
    }
}

impl Default for Address {
    /// The address with every component absent.
    fn default() -> (r: Address)
        ensures
            r@ == AddressView::empty(),
    {
        Address {
            house_number: None,
            road: None,
            unit: None,
            house: None,
            level: None,
            staircase: None,
            entrance: None,
            po_box: None,
            postcode: None,
            suburb: None,
            city: None,
            city_district: None,
            island: None,
            state: None,
            state_district: None,
            country: None,
            country_region: None,
            world_region: None,
            neighbourhood: None,
            category: None,
            near: None,
        }
    }
}

impl Address {
    /// The address that a list of entries describes. Each component comes
    /// from the last entry under its name; entries under other names count
    /// for nothing.
    pub open spec fn from_entries(entries: Seq<(Seq<char>, Seq<char>)>) -> AddressView {
        AddressView {
            house_number: last_value(entries, Field::HouseNumber.name()),
            road: last_value(entries, Field::Road.name()),
            unit: last_value(entries, Field::Unit.name()),
            house: last_value(entries, Field::House.name()),
            level: last_value(entries, Field::Level.name()),
            staircase: last_value(entries, Field::Staircase.name()),
            entrance: last_value(entries, Field::Entrance.name()),
            po_box: last_value(entries, Field::PoBox.name()),
            postcode: postcode_of(last_value(entries, Field::Postcode.name())),
            suburb: last_value(entries, Field::Suburb.name()),
            city: last_value(entries, Field::City.name()),
            city_district: last_value(entries, Field::CityDistrict.name()),
            island: last_value(entries, Field::Island.name()),
            state: state_of(last_value(entries, Field::State.name())),
            state_district: last_value(entries, Field::StateDistrict.name()),
            country: country_of(last_value(entries, Field::Country.name())),
            country_region: last_value(entries, Field::CountryRegion.name()),
            world_region: last_value(entries, Field::WorldRegion.name()),
            neighbourhood: last_value(entries, Field::Neighbourhood.name()),
            category: last_value(entries, Field::Category.name()),
            near: last_value(entries, Field::Near.name()),
        }
    }

    /// Stores raw text under one component, classifying it where the
    /// component is typed.
    pub fn set(&mut self, field: Field, value: String)
        ensures
            final(self)@ == old(self)@.with_field(field, value@),
    {
        match field {
            Field::HouseNumber => {
                self.house_number = Some(value);
            },
            Field::Road => {
                self.road = Some(value);
            },
            Field::Unit => {
                self.unit = Some(value);
            },
            Field::House => {
                self.house = Some(value);
            },
            Field::Level => {
                self.level = Some(value);
            },
            Field::Staircase => {
                self.staircase = Some(value);
            },
            Field::Entrance => {
                self.entrance = Some(value);
            },
            Field::PoBox => {
                self.po_box = Some(value);
            },
            Field::Postcode => {
                self.postcode = Postcode::new(value.as_str());
            },
            Field::Suburb => {
                self.suburb = Some(value);
            },
            Field::City => {
                self.city = Some(value);
            },
            Field::CityDistrict => {
                self.city_district = Some(value);
            },
            Field::Island => {
                self.island = Some(value);
            },
            Field::State => {
                self.state = Some(State::from_string(value));
            },
            Field::StateDistrict => {
                self.state_district = Some(value);
            },
            Field::Country => {
                self.country = Some(Country::from_string(value));
            },
            Field::CountryRegion => {
                self.country_region = Some(value);
            },
            Field::WorldRegion => {
                self.world_region = Some(value);
            },
            Field::Neighbourhood => {
                self.neighbourhood = Some(value);
            },
            Field::Category => {
                self.category = Some(value);
            },
            Field::Near => {
                self.near = Some(value);
            },
        }
    }

    /// Builds an address from a parser's output: a list of entries, each a
    /// field name with its raw text.
    ///
    /// Never fails. Names are matched exactly; an entry under a name outside
    /// the vocabulary is dropped. Where a name occurs more than once, the
    /// last entry wins. An empty list gives the address with every component
    /// absent.
    pub fn from_parsed(parsed: Vec<(String, String)>) -> (r: Address)
        ensures
            r@ == Self::from_entries(parsed.deep_view()),
            parsed@.len() == 0 ==> r@ == AddressView::empty(),
    {
        let ghost entries = parsed.deep_view();
        let ghost raw = parsed@;
        let mut addr = Address::default();
        for entry in it: parsed
            invariant
                it.seq() == raw,
                entries == Seq::new(raw.len(), |i: int| (raw[i].0@, raw[i].1@)),
                addr@ == Self::from_entries(entries.take(it.index() as int)),
        {
            let (key, value) = entry;
            proof {
                let k = it.index() as int;
                assert(entries.take(k + 1) =~= entries.take(k).push((key@, value@)));
                lemma_from_entries_push(entries.take(k), key@, value@);
            }
            match Field::from_name(key.as_str()) {
                Some(field) => {
                    addr.set(field, value);
                },
                None => {},
            }
        }
        proof {
            assert(entries.take(entries.len() as int) =~= entries);
        }
        addr
    }

    /// Writes the address on a single line: house number, road, unit, city,
    /// state, postcode and country, as far as they are present, with one
    /// space between neighbours. The unit is written behind a `#`.
    pub fn to_single_line(&self) -> (r: String)
        ensures
            r@ == self@.single_line(),
    {
        let mut parts: Vec<String> = Vec::new();
        proof {
            assert(parts.deep_view() =~= Seq::<Seq<char>>::empty());
            assert(Seq::<Seq<char>>::empty() + part(self@.house_number) =~= part(
                self@.house_number,
            ));
        }
        push_part(&mut parts, cloned(&self.house_number));
        push_part(&mut parts, cloned(&self.road));
        let unit = match &self.unit {
            Some(unit) => Some(unit_token(unit.as_str())),
            None => None,
        };
        push_part(&mut parts, unit);
        push_part(&mut parts, cloned(&self.city));
        let state = match &self.state {
            Some(state) => Some(state.to_string()),
            None => None,
        };
        push_part(&mut parts, state);
        let postcode = match &self.postcode {
            Some(postcode) => Some(postcode.to_string()),
            None => None,
        };
        push_part(&mut parts, postcode);
        let country = match &self.country {
            Some(country) => Some(country.to_string()),
            None => None,
        };
        push_part(&mut parts, country);
        join(&parts)
    }
}

/// A copy of a component that is plain text.
fn cloned(field: &Option<String>) -> (r: Option<String>)
    ensures
        text_view(r) == text_view(*field),
{
    match field {
        Some(s) => Some(s.clone()),
        None => None,
    }
}

/// The unit as it is written on the single line: behind a `#`.
fn unit_token(unit: &str) -> (r: String)
    ensures
        r@ == seq!['#'] + unit@,
{
    let mut token = "#".to_owned();
    token.append(unit);
    proof {
        reveal_strlit("#");
        assert("#"@ =~= seq!['#']);
    }
    token
}

/// Appends a component to the parts of a line, if it is present.
fn push_part(parts: &mut Vec<String>, component: Option<String>)
    ensures
        final(parts).deep_view() == old(parts).deep_view() + part(text_view(component)),
{
    match component {
        Some(s) => {
            parts.push(s);
            assert(parts.deep_view() =~= old(parts).deep_view() + seq![s@]);
        },
        None => {
            assert(parts.deep_view() =~= old(parts).deep_view() + Seq::<Seq<char>>::empty());
        },
    }
}

/// One more entry changes an address as storing its text under its field
/// does, and changes nothing if its key names no field.
pub proof fn lemma_from_entries_push(
    entries: Seq<(Seq<char>, Seq<char>)>,
    key: Seq<char>,
    value: Seq<char>,
)
    ensures
        Address::from_entries(entries.push((key, value))) == (match Field::lookup(key) {
            Some(f) => Address::from_entries(entries).with_field(f, value),
            None => Address::from_entries(entries),
        }),
{
    let longer = entries.push((key, value));
    assert(longer.drop_last() =~= entries);
    assert(longer.last() == (key, value));
    assert forall|g: Field| #[trigger] g.name() == key implies Field::lookup(key) == Some(g) by {
        lemma_name_injective(Field::lookup(key).unwrap(), g);
    }
}

/// Entries whose keys are all outside the vocabulary give the address with
/// every component absent. So does the empty list.
pub proof fn lemma_unknown_keys_dropped(entries: Seq<(Seq<char>, Seq<char>)>)
    requires
        forall|i: int| 0 <= i < entries.len() ==> Field::lookup(#[trigger] entries[i].0) is None,
    ensures
        Address::from_entries(entries) == AddressView::empty(),
    decreases entries.len(),
{
    if entries.len() > 0 {
        let shorter = entries.drop_last();
        assert forall|i: int| 0 <= i < shorter.len() implies Field::lookup(
            #[trigger] shorter[i].0,
        ) is None by {
            assert(shorter[i] == entries[i]);
        }
        lemma_unknown_keys_dropped(shorter);
        assert(entries =~= shorter.push(entries.last()));
        assert(Field::lookup(entries[entries.len() - 1].0) is None);
        lemma_from_entries_push(shorter, entries.last().0, entries.last().1);
    }
}

/// No two entries have the same key.
pub open spec fn keys_unique(entries: Seq<(Seq<char>, Seq<char>)>) -> bool {
    forall|i: int, j: int| 0 <= i < j < entries.len() ==> entries[i].0 != entries[j].0
}

/// What `last_value` finds is the value of an entry under `name` that no
/// entry under `name` follows; it finds nothing only where no entry has the
/// key `name`.
pub proof fn lemma_last_value(entries: Seq<(Seq<char>, Seq<char>)>, name: Seq<char>)
    ensures
        match last_value(entries, name) {
            Some(v) => exists|i: int|
                0 <= i < entries.len() && #[trigger] entries[i] == (name, v) && forall|j: int|
                    i < j < entries.len() ==> (#[trigger] entries[j]).0 != name,
            None => forall|i: int| 0 <= i < entries.len() ==> (#[trigger] entries[i]).0 != name,
        },
    decreases entries.len(),
{
    if entries.len() > 0 && entries.last().0 != name {
        let shorter = entries.drop_last();
        lemma_last_value(shorter, name);
        match last_value(shorter, name) {
            Some(v) => {
                let i = choose|i: int|
                    0 <= i < shorter.len() && #[trigger] shorter[i] == (name, v) && forall|j: int|
                        i < j < shorter.len() ==> (#[trigger] shorter[j]).0 != name;
                assert(entries[i] == (name, v));
                assert forall|j: int| i < j < entries.len() implies (#[trigger] entries[j]).0
                    != name by {
                    if j < shorter.len() {
                        assert(shorter[j] == entries[j]);
                    }
                }
            },
            None => {
                assert forall|i: int| 0 <= i < entries.len() implies (#[trigger] entries[i]).0
                    != name by {
                    if i < shorter.len() {
                        assert(shorter[i] == entries[i]);
                    }
                }
            },
        }
    } else if entries.len() > 0 {
        let last = entries.len() - 1;
        assert(entries[last] == (name, entries.last().1));
    }
}

/// Where keys are unique, the value found under a name is the value of the
/// one entry with that key.
pub proof fn lemma_last_value_unique(
    entries: Seq<(Seq<char>, Seq<char>)>,
    name: Seq<char>,
    value: Seq<char>,
)
    requires
        keys_unique(entries),
    ensures
        last_value(entries, name) == Some(value) <==> entries.contains((name, value)),
{
    lemma_last_value(entries, name);
    if entries.contains((name, value)) {
        let k = choose|k: int| 0 <= k < entries.len() && entries[k] == (name, value);
        assert(entries[k].0 == name);
        match last_value(entries, name) {
            Some(v) => {
                let i = choose|i: int|
                    0 <= i < entries.len() && #[trigger] entries[i] == (name, v) && forall|j: int|
                        i < j < entries.len() ==> (#[trigger] entries[j]).0 != name;
                assert(entries[i].0 == name);
                assert(i == k);
            },
            None => {},
        }
    }
}

/// The order of the entries does not matter where keys are unique: two lists
/// that hold the same entries, each key once, describe the same address.
pub proof fn lemma_order_irrelevant(
    a: Seq<(Seq<char>, Seq<char>)>,
    b: Seq<(Seq<char>, Seq<char>)>,
)
    requires
        keys_unique(a),
        keys_unique(b),
        forall|x: (Seq<char>, Seq<char>)| a.contains(x) <==> b.contains(x),
    ensures
        Address::from_entries(a) == Address::from_entries(b),
{
    assert forall|name: Seq<char>| #[trigger] last_value(a, name) == last_value(b, name) by {
        match last_value(a, name) {
            Some(v) => {
                lemma_last_value_unique(a, name, v);
                lemma_last_value_unique(b, name, v);
            },
            None => {
                match last_value(b, name) {
                    Some(w) => {
                        lemma_last_value_unique(b, name, w);
                        lemma_last_value_unique(a, name, w);
                    },
                    None => {},
                }
            },
        }
    }
}

} // verus!
