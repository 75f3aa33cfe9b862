//! A client for the maps.co geocoding service: the records it answers with,
//! how they are read from JSON, and how requests are addressed.

pub mod client;
pub mod decode;
pub mod json;
pub mod model;

pub use client::{ConfigError, MapscoClient, API_KEY_VAR, DEFAULT_BASE_URL};
pub use decode::{
    decode_address, decode_coordinate, decode_location, decode_location_list, decode_reverse_body,
    decode_search_body, is_numeral_text, DecodeError,
};
pub use json::{get_member, Json};
pub use model::{Address, Decimal, LocationData};
