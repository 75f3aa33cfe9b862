use vstd::prelude::*;

verus! {

/// A decimal number as the text of its numeral, as the service sent it.
/// Turning it into a machine float is left to the caller.
#[derive(Clone, Debug, PartialEq)]
pub struct Decimal {
    pub numeral: String,
}

/// The postal breakdown of a place. Every part may be missing.
#[derive(Clone, Debug, PartialEq)]
pub struct Address {
    pub house_number: Option<String>,
    pub road: Option<String>,
    pub suburb: Option<String>,
    pub city: Option<String>,
    pub town: Option<String>,
    pub village: Option<String>,
    pub county: Option<String>,
    pub state: Option<String>,
    /// Sent under the key `ISO3166-2-lvl4`.
    pub iso3166_2_lvl4: Option<String>,
    pub postcode: Option<String>,
    pub country: Option<String>,
    pub country_code: Option<String>,
}

/// One geocoded place.
#[derive(Clone, Debug, PartialEq)]
pub struct LocationData {
    pub place_id: i64,
    pub licence: Option<String>,
    pub osm_type: Option<String>,
    pub osm_id: Option<i64>,
    pub lat: Decimal,
    pub lon: Decimal,
    pub display_name: String,
    pub address: Option<Address>,
    /// South, north, west and east bounds, kept as the service wrote them.
    pub boundingbox: Vec<String>,
    pub class: Option<String>,
    /// The category of the place, sent under the key `type`.
    pub place_type: Option<String>,
    pub importance: Option<Decimal>,
}

/// The characters of an optional text.
pub open spec fn opt_view(o: Option<String>) -> Option<Seq<char>> {
    match o {
        Some(s) => Some(s@),
        None => None,
    }
}

impl LocationData {
    /// The place as text: its display name.
    pub fn to_string(&self) -> (r: String)
        ensures
            r@ == self.display_name@,
    {
        self.display_name.clone()
    }
}

} // verus!
