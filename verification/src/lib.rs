//! Typed postal addresses.
//!
//! An address parser hands back a flat list of field names and raw text. This
//! crate turns such a list into an [`Address`] whose state, country and
//! postcode are classified into precise variants, and renders an address on a
//! single line.

pub mod address;
pub mod country;
pub mod field;
pub mod postcode;
pub mod state;
pub mod text;
pub mod us_state;

pub use address::{Address, AddressView};
pub use country::{Country, CountryView};
pub use field::Field;
pub use postcode::Postcode;
pub use state::{State, StateView};
pub use us_state::UsStateCode;
