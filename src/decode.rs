use vstd::prelude::*;
use vstd::string::is_ascii_spec_bytes;
use vstd::utf8::is_ascii_chars;

use crate::json::{get_member, json_of, member, parse_json, Json};
use crate::model::{opt_view, Address, Decimal, LocationData};

verus! {

/// Why a response body could not be read as place records.
#[derive(Clone, Debug, PartialEq)]
pub enum DecodeError {
    /// The body is not a JSON document; the parser's message.
    Syntax(String),
    /// A place record is not a JSON object.
    NotAnObject,
    /// A list of places is not a JSON array.
    NotAnArray,
    /// The member under this key is missing or has the wrong kind of value.
    Field(String),
}

// ---- numerals ----

pub open spec fn is_digit(c: char) -> bool {
    '0' <= c && c <= '9'
}

pub open spec fn all_digits(s: Seq<char>) -> bool {
    s.len() > 0 && forall|i: int| 0 <= i < s.len() ==> is_digit(#[trigger] s[i])
}

/// The value of a string of decimal digits.
pub open spec fn digits_value(s: Seq<char>) -> int
    decreases s.len(),
{
    if s.len() == 0 {
        0
    } else {
        digits_value(s.drop_last()) * 10 + ((s.last() as u32) as int - 48)
    }
}

/// The integer that an integer numeral stands for: an optional `+` or `-`,
/// then decimal digits.
pub open spec fn int_value(t: Seq<char>) -> Option<int> {
    if t.len() > 0 && t[0] == '-' && all_digits(t.drop_first()) {
        Some(-digits_value(t.drop_first()))
    } else if t.len() > 0 && t[0] == '+' && all_digits(t.drop_first()) {
        Some(digits_value(t.drop_first()))
    } else if all_digits(t) {
        Some(digits_value(t))
    } else {
        None
    }
}

/// The integer numeral's value where it fits in 64 signed bits.
pub open spec fn i64_value(t: Seq<char>) -> Option<i64> {
    if int_value(t) is Some && i64::MIN <= int_value(t)->0 <= i64::MAX {
        Some(int_value(t)->0 as i64)
    } else {
        None
    }
}

/// Relies on i64's FromStr (`str::parse`): an optional `+` or `-`, then ASCII
/// digits whose value fits in an i64; anything else is an error.
#[verifier::external_body]
fn parse_i64(t: &str) -> (r: Option<i64>)
    ensures
        r == i64_value(t@),
{
    t.parse::<i64>().ok()
}

/// The length of a leading sign.
pub open spec fn sign_len(s: Seq<char>) -> int {
    if s.len() > 0 && (s[0] == '-' || s[0] == '+') {
        1
    } else {
        0
    }
}

/// A decimal numeral: an optional sign, then digits with at most one point
/// among them, and at least one digit.
pub open spec fn is_numeral(s: Seq<char>) -> bool {
    &&& forall|i: int| sign_len(s) <= i < s.len() ==> is_digit(#[trigger] s[i]) || s[i] == '.'
    &&& exists|i: int| sign_len(s) <= i < s.len() && is_digit(#[trigger] s[i])
    &&& forall|i: int, k: int|
        sign_len(s) <= i < k < s.len() && #[trigger] s[i] == '.' ==> #[trigger] s[k] != '.'
}

/// Tells whether a text is a decimal numeral.
pub fn is_numeral_text(s: &str) -> (r: bool)
    ensures
        r == is_numeral(s@),
{
    if !s.is_ascii() {
        proof {
            if is_numeral(s@) {
                assert forall|i: int| 0 <= i < s@.len() implies '\0' <= #[trigger] s@[i] <= '\u{7f}' by {
                    if i >= sign_len(s@) {
                        assert(is_digit(s@[i]) || s@[i] == '.');
                    }
                }
                assert(is_ascii_chars(s@));
            }
        }
        return false;
    }
    let b = s.as_bytes();
    proof {
        is_ascii_spec_bytes(s);
    }
    let n = b.len();
    assert(n == s@.len());
    let start: usize = if n > 0 && (b[0] == 45u8 || b[0] == 43u8) {
        1
    } else {
        0
    };
    assert(start == sign_len(s@));
    let mut i: usize = start;
    let mut digit = false;
    let mut dot = false;
    while i < n
        invariant
            start <= i <= n,
            n == s@.len(),
            b@ == Seq::new(s@.len(), |k: int| s@[k] as u8),
            is_ascii_chars(s@),
            start == sign_len(s@),
            forall|k: int| start <= k < i ==> is_digit(#[trigger] s@[k]) || s@[k] == '.',
            digit == exists|k: int| start <= k < i && is_digit(#[trigger] s@[k]),
            dot == exists|k: int| start <= k < i && #[trigger] s@[k] == '.',
            forall|k: int, m: int| start <= k < m < i && #[trigger] s@[k] == '.' ==> #[trigger] s@[m] != '.',
        decreases n - i,
    {
        let c = b[i];
        assert(c == s@[i as int] as u8);
        assert('\0' <= s@[i as int] <= '\u{7f}');
        if 48u8 <= c && c <= 57u8 {
            digit = true;
        } else if c == 46u8 {
            if dot {
                return false;
            }
            dot = true;
        } else {
            return false;
        }
        i = i + 1;
    }
    digit
}

// ---- members ----

/// An optional text member: absent or null reads as none, a string as its
/// text; any other value cannot be read.
pub open spec fn text_member(f: Seq<(String, Json)>, key: Seq<char>) -> Option<Option<Seq<char>>> {
    match member(f, key) {
        None => Some(None),
        Some(Json::Null) => Some(None),
        Some(Json::Str(s)) => Some(Some(s@)),
        Some(_) => None,
    }
}

/// A required text member.
pub open spec fn required_text(f: Seq<(String, Json)>, key: Seq<char>) -> Option<Seq<char>> {
    match member(f, key) {
        Some(Json::Str(s)) => Some(s@),
        _ => None,
    }
}

/// An optional integer member.
pub open spec fn int_member(f: Seq<(String, Json)>, key: Seq<char>) -> Option<Option<i64>> {
    match member(f, key) {
        None => Some(None),
        Some(Json::Null) => Some(None),
        Some(Json::Number(t)) => match i64_value(t@) {
            Some(v) => Some(Some(v)),
            None => None,
        },
        Some(_) => None,
    }
}

/// A required integer member.
pub open spec fn required_int(f: Seq<(String, Json)>, key: Seq<char>) -> Option<i64> {
    match member(f, key) {
        Some(Json::Number(t)) => i64_value(t@),
        _ => None,
    }
}

/// A coordinate: a number, or a string that holds a decimal numeral.
pub open spec fn coordinate_of(v: Json) -> Option<Seq<char>> {
    match v {
        Json::Number(t) => Some(t@),
        Json::Str(s) => if is_numeral(s@) {
            Some(s@)
        } else {
            None
        },
        _ => None,
    }
}

/// A required coordinate member.
pub open spec fn required_coordinate(f: Seq<(String, Json)>, key: Seq<char>) -> Option<Seq<char>> {
    match member(f, key) {
        Some(v) => coordinate_of(v),
        None => None,
    }
}

/// An optional number member.
pub open spec fn decimal_member(f: Seq<(String, Json)>, key: Seq<char>) -> Option<Option<Seq<char>>> {
    match member(f, key) {
        None => Some(None),
        Some(Json::Null) => Some(None),
        Some(Json::Number(t)) => Some(Some(t@)),
        Some(_) => None,
    }
}

/// The numeral of an optional decimal.
pub open spec fn decimal_view(o: Option<Decimal>) -> Option<Seq<char>> {
    match o {
        Some(d) => Some(d.numeral@),
        None => None,
    }
}

fn field_error(key: &str) -> (e: DecodeError)
    ensures
        e matches DecodeError::Field(k) && k@ == key@,
{
    DecodeError::Field(String::from_str(key))
}

fn text_at(f: &Vec<(String, Json)>, key: &str) -> (r: Result<Option<String>, DecodeError>)
    ensures
        r is Ok <==> text_member(f@, key@) is Some,
        r matches Ok(o) ==> text_member(f@, key@) == Some(opt_view(o)),
        r matches Err(e) ==> (e matches DecodeError::Field(k) && k@ == key@),
{
    match get_member(f, key) {
        None => Ok(None),
        Some(Json::Null) => Ok(None),
        Some(Json::Str(s)) => Ok(Some(s.clone())),
        Some(_) => Err(field_error(key)),
    }
}

fn required_text_at(f: &Vec<(String, Json)>, key: &str) -> (r: Result<String, DecodeError>)
    ensures
        r is Ok <==> required_text(f@, key@) is Some,
        r matches Ok(s) ==> required_text(f@, key@) == Some(s@),
        r matches Err(e) ==> (e matches DecodeError::Field(k) && k@ == key@),
{
    match get_member(f, key) {
        Some(Json::Str(s)) => Ok(s.clone()),
        _ => Err(field_error(key)),
    }
}

fn int_at(f: &Vec<(String, Json)>, key: &str) -> (r: Result<Option<i64>, DecodeError>)
    ensures
        r is Ok <==> int_member(f@, key@) is Some,
        r matches Ok(o) ==> int_member(f@, key@) == Some(o),
        r matches Err(e) ==> (e matches DecodeError::Field(k) && k@ == key@),
{
    match get_member(f, key) {
        None => Ok(None),
        Some(Json::Null) => Ok(None),
        Some(Json::Number(t)) => match parse_i64(t.as_str()) {
            Some(v) => Ok(Some(v)),
            None => Err(field_error(key)),
        },
        Some(_) => Err(field_error(key)),
    }
}

fn required_int_at(f: &Vec<(String, Json)>, key: &str) -> (r: Result<i64, DecodeError>)
    ensures
        r is Ok <==> required_int(f@, key@) is Some,
        r matches Ok(v) ==> required_int(f@, key@) == Some(v),
        r matches Err(e) ==> (e matches DecodeError::Field(k) && k@ == key@),
{
    match get_member(f, key) {
        Some(Json::Number(t)) => match parse_i64(t.as_str()) {
            Some(v) => Ok(v),
            None => Err(field_error(key)),
        },
        _ => Err(field_error(key)),
    }
}

/// Reads a coordinate: a number, or a string that holds a decimal numeral.
pub fn decode_coordinate(v: &Json) -> (r: Option<Decimal>)
    ensures
        r is Some <==> coordinate_of(*v) is Some,
        r matches Some(d) ==> coordinate_of(*v) == Some(d.numeral@),
{
    match v {
        Json::Number(t) => Some(Decimal { numeral: t.clone() }),
        Json::Str(s) => if is_numeral_text(s.as_str()) {
            Some(Decimal { numeral: s.clone() })
        } else {
            None
        },
        _ => None,
    }
}

fn coordinate_at(f: &Vec<(String, Json)>, key: &str) -> (r: Result<Decimal, DecodeError>)
    ensures
        r is Ok <==> required_coordinate(f@, key@) is Some,
        r matches Ok(d) ==> required_coordinate(f@, key@) == Some(d.numeral@),
        r matches Err(e) ==> (e matches DecodeError::Field(k) && k@ == key@),
{
    match get_member(f, key) {
        Some(v) => match decode_coordinate(v) {
            Some(d) => Ok(d),
            None => Err(field_error(key)),
        },
        None => Err(field_error(key)),
    }
}

fn decimal_at(f: &Vec<(String, Json)>, key: &str) -> (r: Result<Option<Decimal>, DecodeError>)
    ensures
        r is Ok <==> decimal_member(f@, key@) is Some,
        r matches Ok(o) ==> decimal_member(f@, key@) == Some(decimal_view(o)),
        r matches Err(e) ==> (e matches DecodeError::Field(k) && k@ == key@),
{
    match get_member(f, key) {
        None => Ok(None),
        Some(Json::Null) => Ok(None),
        Some(Json::Number(t)) => Ok(Some(Decimal { numeral: t.clone() })),
        Some(_) => Err(field_error(key)),
    }
}

// ---- records ----

/// The members of an address object can all be read.
pub open spec fn address_ok(f: Seq<(String, Json)>) -> bool {
    &&& text_member(f, "house_number"@) is Some
    &&& text_member(f, "road"@) is Some
    &&& text_member(f, "suburb"@) is Some
    &&& text_member(f, "city"@) is Some
    &&& text_member(f, "town"@) is Some
    &&& text_member(f, "village"@) is Some
    &&& text_member(f, "county"@) is Some
    &&& text_member(f, "state"@) is Some
    &&& text_member(f, "ISO3166-2-lvl4"@) is Some
    &&& text_member(f, "postcode"@) is Some
    &&& text_member(f, "country"@) is Some
    &&& text_member(f, "country_code"@) is Some
}

/// `a` is what the members of an address object read as.
pub open spec fn address_matches(f: Seq<(String, Json)>, a: Address) -> bool {
    &&& text_member(f, "house_number"@) == Some(opt_view(a.house_number))
    &&& text_member(f, "road"@) == Some(opt_view(a.road))
    &&& text_member(f, "suburb"@) == Some(opt_view(a.suburb))
    &&& text_member(f, "city"@) == Some(opt_view(a.city))
    &&& text_member(f, "town"@) == Some(opt_view(a.town))
    &&& text_member(f, "village"@) == Some(opt_view(a.village))
    &&& text_member(f, "county"@) == Some(opt_view(a.county))
    &&& text_member(f, "state"@) == Some(opt_view(a.state))
    &&& text_member(f, "ISO3166-2-lvl4"@) == Some(opt_view(a.iso3166_2_lvl4))
    &&& text_member(f, "postcode"@) == Some(opt_view(a.postcode))
    &&& text_member(f, "country"@) == Some(opt_view(a.country))
    &&& text_member(f, "country_code"@) == Some(opt_view(a.country_code))
}

/// Reads an address object.
pub fn decode_address(v: &Json) -> (r: Result<Address, DecodeError>)
    ensures
        r is Ok <==> (*v matches Json::Object(f) && address_ok(f@)),
        r matches Ok(a) ==> (*v matches Json::Object(f) && address_matches(f@, a)),
        r matches Err(DecodeError::NotAnObject) <==> !(*v is Object),
        r matches Err(e) ==> (e is NotAnObject || (e matches DecodeError::Field(k) && *v matches Json::Object(
            f,
        ) && text_member(f@, k@) is None)),
{
    let f = match v {
        Json::Object(f) => f,
        _ => return Err(DecodeError::NotAnObject),
    };
    let house_number = match text_at(f, "house_number") {
        Ok(x) => x,
        Err(e) => return Err(e),
    };
    let road = match text_at(f, "road") {
        Ok(x) => x,
        Err(e) => return Err(e),
    };
    let suburb = match text_at(f, "suburb") {
        Ok(x) => x,
        Err(e) => return Err(e),
    };
    let city = match text_at(f, "city") {
        Ok(x) => x,
        Err(e) => return Err(e),
    };
    let town = match text_at(f, "town") {
        Ok(x) => x,
        Err(e) => return Err(e),
    };
    let village = match text_at(f, "village") {
        Ok(x) => x,
        Err(e) => return Err(e),
    };
    let county = match text_at(f, "county") {
        Ok(x) => x,
        Err(e) => return Err(e),
    };
    let state = match text_at(f, "state") {
        Ok(x) => x,
        Err(e) => return Err(e),
    };
    let iso3166_2_lvl4 = match text_at(f, "ISO3166-2-lvl4") {
        Ok(x) => x,
        Err(e) => return Err(e),
    };
    let postcode = match text_at(f, "postcode") {
        Ok(x) => x,
        Err(e) => return Err(e),
    };
    let country = match text_at(f, "country") {
        Ok(x) => x,
        Err(e) => return Err(e),
    };
    let country_code = match text_at(f, "country_code") {
        Ok(x) => x,
        Err(e) => return Err(e),
    };
    Ok(Address { house_number, road, suburb, city, town, village, county, state, iso3166_2_lvl4, postcode, country, country_code })
}

/// The optional address member of a place can be read.
pub open spec fn address_member_ok(f: Seq<(String, Json)>) -> bool {
    match member(f, "address"@) {
        None => true,
        Some(Json::Null) => true,
        Some(Json::Object(af)) => address_ok(af@),
        Some(_) => false,
    }
}

/// `a` is what the optional address member of a place reads as.
pub open spec fn address_member_matches(f: Seq<(String, Json)>, a: Option<Address>) -> bool {
    match member(f, "address"@) {
        None => a is None,
        Some(Json::Null) => a is None,
        Some(Json::Object(af)) => a matches Some(x) && address_matches(af@, x),
        Some(_) => false,
    }
}

fn address_at(f: &Vec<(String, Json)>) -> (r: Result<Option<Address>, DecodeError>)
    ensures
        r is Ok <==> address_member_ok(f@),
        r matches Ok(a) ==> address_member_matches(f@, a),
        r matches Err(e) ==> (e matches DecodeError::Field(k) && (k@ == "address"@ || (member(
            f@,
            "address"@,
        ) matches Some(Json::Object(af)) && text_member(af@, k@) is None))),
{
    match get_member(f, "address") {
        None => Ok(None),
        Some(Json::Null) => Ok(None),
        Some(v) => match decode_address(v) {
            Ok(a) => Ok(Some(a)),
            Err(DecodeError::Field(k)) => Err(DecodeError::Field(k)),
            Err(_) => Err(field_error("address")),
        },
    }
}

/// Every item of an array is a string.
pub open spec fn texts_ok(items: Seq<Json>) -> bool {
    forall|i: int| 0 <= i < items.len() ==> #[trigger] items[i] is Str
}

/// `v` holds the texts of the string items, in their order.
pub open spec fn texts_match(items: Seq<Json>, v: Seq<String>) -> bool {
    &&& v.len() == items.len()
    &&& forall|i: int| 0 <= i < items.len() ==> (#[trigger] items[i] matches Json::Str(s) && v[i]@ == s@)
}

/// The bounding box member: an array of strings.
pub open spec fn bounds_ok(f: Seq<(String, Json)>) -> bool {
    member(f, "boundingbox"@) matches Some(Json::Array(items)) && texts_ok(items@)
}

pub open spec fn bounds_match(f: Seq<(String, Json)>, v: Seq<String>) -> bool {
    member(f, "boundingbox"@) matches Some(Json::Array(items)) && texts_match(items@, v)
}

fn bounds_at(f: &Vec<(String, Json)>) -> (r: Result<Vec<String>, DecodeError>)
    ensures
        r is Ok <==> bounds_ok(f@),
        r matches Ok(v) ==> bounds_match(f@, v@),
        r matches Err(e) ==> (e matches DecodeError::Field(k) && k@ == "boundingbox"@),
{
    let items = match get_member(f, "boundingbox") {
        Some(Json::Array(items)) => items,
        _ => return Err(field_error("boundingbox")),
    };
    let mut out: Vec<String> = Vec::new();
    let mut i: usize = 0;
    while i < items.len()
        invariant
            i <= items@.len(),
            member(f@, "boundingbox"@) == Some(Json::Array(*items)),
            out@.len() == i,
            forall|k: int| 0 <= k < i ==> (#[trigger] items@[k] matches Json::Str(s) && out@[k]@ == s@),
        decreases items@.len() - i,
    {
        match &items[i] {
            Json::Str(s) => out.push(s.clone()),
            _ => return Err(field_error("boundingbox")),
        }
        i = i + 1;
    }
    Ok(out)
}

/// A place object whose members can all be read.
pub open spec fn location_ok(j: Json) -> bool {
    match j {
        Json::Object(fv) => {
            let f = fv@;
            &&& required_int(f, "place_id"@) is Some
            &&& text_member(f, "licence"@) is Some
            &&& text_member(f, "osm_type"@) is Some
            &&& int_member(f, "osm_id"@) is Some
            &&& required_coordinate(f, "lat"@) is Some
            &&& required_coordinate(f, "lon"@) is Some
            &&& required_text(f, "display_name"@) is Some
            &&& address_member_ok(f)
            &&& bounds_ok(f)
            &&& text_member(f, "class"@) is Some
            &&& text_member(f, "type"@) is Some
            &&& decimal_member(f, "importance"@) is Some
        },
        _ => false,
    }
}

/// `d` is what a place object reads as. Members under other keys play no part.
pub open spec fn location_matches(j: Json, d: LocationData) -> bool {
    match j {
        Json::Object(fv) => {
            let f = fv@;
            &&& required_int(f, "place_id"@) == Some(d.place_id)
            &&& text_member(f, "licence"@) == Some(opt_view(d.licence))
            &&& text_member(f, "osm_type"@) == Some(opt_view(d.osm_type))
            &&& int_member(f, "osm_id"@) == Some(d.osm_id)
            &&& required_coordinate(f, "lat"@) == Some(d.lat.numeral@)
            &&& required_coordinate(f, "lon"@) == Some(d.lon.numeral@)
            &&& required_text(f, "display_name"@) == Some(d.display_name@)
            &&& address_member_matches(f, d.address)
            &&& bounds_match(f, d.boundingbox@)
            &&& text_member(f, "class"@) == Some(opt_view(d.class))
            &&& text_member(f, "type"@) == Some(opt_view(d.place_type))
            &&& decimal_member(f, "importance"@) == Some(decimal_view(d.importance))
        },
        _ => false,
    }
}

/// The member of a place under `key`, or of its address, cannot be read.
pub open spec fn unreadable_member(f: Seq<(String, Json)>, key: Seq<char>) -> bool {
    ||| key == "place_id"@ && required_int(f, key) is None
    ||| (key == "licence"@ || key == "osm_type"@ || key == "class"@ || key == "type"@) && text_member(
        f,
        key,
    ) is None
    ||| key == "osm_id"@ && int_member(f, key) is None
    ||| (key == "lat"@ || key == "lon"@) && required_coordinate(f, key) is None
    ||| key == "display_name"@ && required_text(f, key) is None
    ||| key == "address"@ && !address_member_ok(f)
    ||| key == "boundingbox"@ && !bounds_ok(f)
    ||| key == "importance"@ && decimal_member(f, key) is None
    ||| member(f, "address"@) matches Some(Json::Object(af)) && text_member(af@, key) is None
}

/// Reads one place from a JSON value.
pub fn decode_location(j: &Json) -> (r: Result<LocationData, DecodeError>)
    ensures
        r is Ok <==> location_ok(*j),
        r matches Ok(d) ==> location_matches(*j, d),
        r matches Err(DecodeError::NotAnObject) <==> !(*j is Object),
        r matches Err(DecodeError::Field(_)) <==> (*j is Object && !location_ok(*j)),
        r matches Err(DecodeError::Field(k)) ==> unreadable_member(j->Object_0@, k@),
{
    let f = match j {
        Json::Object(f) => f,
        _ => return Err(DecodeError::NotAnObject),
    };
    let place_id = match required_int_at(f, "place_id") {
        Ok(x) => x,
        Err(e) => return Err(e),
    };
    let licence = match text_at(f, "licence") {
        Ok(x) => x,
        Err(e) => return Err(e),
    };
    let osm_type = match text_at(f, "osm_type") {
        Ok(x) => x,
        Err(e) => return Err(e),
    };
    let osm_id = match int_at(f, "osm_id") {
        Ok(x) => x,
        Err(e) => return Err(e),
    };
    let lat = match coordinate_at(f, "lat") {
        Ok(x) => x,
        Err(e) => return Err(e),
    };
    let lon = match coordinate_at(f, "lon") {
        Ok(x) => x,
        Err(e) => return Err(e),
    };
    let display_name = match required_text_at(f, "display_name") {
        Ok(x) => x,
        Err(e) => return Err(e),
    };
    let address = match address_at(f) {
        Ok(x) => x,
        Err(e) => return Err(e),
    };
    let boundingbox = match bounds_at(f) {
        Ok(x) => x,
        Err(e) => return Err(e),
    };
    let class = match text_at(f, "class") {
        Ok(x) => x,
        Err(e) => return Err(e),
    };
    let place_type = match text_at(f, "type") {
        Ok(x) => x,
        Err(e) => return Err(e),
    };
    let importance = match decimal_at(f, "importance") {
        Ok(x) => x,
        Err(e) => return Err(e),
    };
    Ok(LocationData {
        place_id,
        licence,
        osm_type,
        osm_id,
        lat,
        lon,
        display_name,
        address,
        boundingbox,
        class,
        place_type,
        importance,
    })
}

/// Reads a list of places from a JSON array, keeping the array's order.
pub fn decode_location_list(j: &Json) -> (r: Result<Vec<LocationData>, DecodeError>)
    ensures
        r is Ok <==> (*j matches Json::Array(items) && forall|i: int|
            0 <= i < items@.len() ==> location_ok(#[trigger] items@[i])),
        r matches Ok(v) ==> (*j matches Json::Array(items) && v@.len() == items@.len() && forall|i: int|
            0 <= i < v@.len() ==> location_matches(items@[i], #[trigger] v@[i])),
        r matches Err(DecodeError::NotAnArray) <==> !(*j is Array),
        r matches Err(e) ==> !(e is Syntax),
{
    let items = match j {
        Json::Array(items) => items,
        _ => return Err(DecodeError::NotAnArray),
    };
    let mut out: Vec<LocationData> = Vec::new();
    let mut i: usize = 0;
    while i < items.len()
        invariant
            *j == Json::Array(*items),
            i <= items@.len(),
            out@.len() == i,
            forall|k: int| 0 <= k < i ==> location_ok(#[trigger] items@[k]),
            forall|k: int| 0 <= k < i ==> location_matches(items@[k], #[trigger] out@[k]),
        decreases items@.len() - i,
    {
        match decode_location(&items[i]) {
            Ok(d) => out.push(d),
            Err(e) => {
                assert(!location_ok(items@[i as int]));
                assert(!(forall|k: int| 0 <= k < items@.len() ==> location_ok(#[trigger] items@[k])));
                assert(*j matches Json::Array(v) && v@ == items@);
                return Err(e);
            },
        }
        i = i + 1;
    }
    Ok(out)
}

/// Reads the body of a reverse lookup: one place.
pub fn decode_reverse_body(body: &str) -> (r: Result<LocationData, DecodeError>)
    ensures
        r matches Err(DecodeError::Syntax(_)) <==> json_of(body@) is None,
        json_of(body@) matches Some(j) ==> (r is Ok <==> location_ok(j)),
        json_of(body@) matches Some(j) ==> (r matches Ok(d) ==> location_matches(j, d)),
{
    match parse_json(body) {
        Ok(j) => decode_location(&j),
        Err(m) => Err(DecodeError::Syntax(m)),
    }
}

/// Reads the body of a search: a list of places, in the order sent.
pub fn decode_search_body(body: &str) -> (r: Result<Vec<LocationData>, DecodeError>)
    ensures
        r matches Err(DecodeError::Syntax(_)) <==> json_of(body@) is None,
        json_of(body@) matches Some(j) ==> (r is Ok <==> (j matches Json::Array(items)
            && forall|i: int| 0 <= i < items@.len() ==> location_ok(#[trigger] items@[i]))),
        json_of(body@) matches Some(j) ==> (r matches Ok(v) ==> (j matches Json::Array(items)
            && v@.len() == items@.len() && forall|i: int|
            0 <= i < v@.len() ==> location_matches(items@[i], #[trigger] v@[i]))),
{
    match parse_json(body) {
        Ok(j) => decode_location_list(&j),
        Err(m) => Err(DecodeError::Syntax(m)),
    }
}

// ---- laws of reading ----

/// `g` is `f` with some of the `lat` and `lon` numbers sent instead as
/// strings that hold the same numeral.
pub open spec fn coordinates_as_strings(f: Seq<(String, Json)>, g: Seq<(String, Json)>) -> bool {
    &&& f.len() == g.len()
    &&& forall|i: int|
        0 <= i < f.len() ==> #[trigger] f[i].0@ == g[i].0@ && (f[i].1 == g[i].1 || ((f[i].0@ == "lat"@
            || f[i].0@ == "lon"@) && (f[i].1 matches Json::Number(t) && g[i].1 matches Json::Str(
            s,
        ) && s@ == t@ && is_numeral(s@))))
}

proof fn lemma_member_coordinates(f: Seq<(String, Json)>, g: Seq<(String, Json)>, key: Seq<char>)
    requires
        coordinates_as_strings(f, g),
    ensures
        member(f, key) is None <==> member(g, key) is None,
        key != "lat"@ && key != "lon"@ ==> member(f, key) == member(g, key),
        member(f, key) matches Some(v) ==> (member(g, key) matches Some(w) && coordinate_of(v)
            == coordinate_of(w)),
    decreases f.len(),
{
    if f.len() > 0 {
        assert(f[0].0@ == g[0].0@);
        assert forall|i: int| 0 <= i < f.drop_first().len() implies #[trigger] f.drop_first()[i].0@
            == g.drop_first()[i].0@ && (f.drop_first()[i].1 == g.drop_first()[i].1 || ((
        f.drop_first()[i].0@ == "lat"@ || f.drop_first()[i].0@ == "lon"@) && (
        f.drop_first()[i].1 matches Json::Number(t) && g.drop_first()[i].1 matches Json::Str(s)
            && s@ == t@ && is_numeral(s@)))) by {
            assert(f.drop_first()[i] == f[i + 1]);
            assert(g.drop_first()[i] == g[i + 1]);
        }
        lemma_member_coordinates(f.drop_first(), g.drop_first(), key);
    }
}

/// A place whose `lat` and `lon` come as strings holding numerals reads the
/// same as the place where they come as numbers with those numerals.
pub proof fn coordinates_read_alike(j: Json, k: Json, d: LocationData)
    requires
        j matches Json::Object(f) && k matches Json::Object(g) && coordinates_as_strings(f@, g@),
    ensures
        location_ok(j) == location_ok(k),
        location_matches(j, d) == location_matches(k, d),
{
    let f = j->Object_0@;
    let g = k->Object_0@;
    reveal_strlit("place_id");
    reveal_strlit("licence");
    reveal_strlit("osm_type");
    reveal_strlit("osm_id");
    reveal_strlit("lat");
    reveal_strlit("lon");
    reveal_strlit("display_name");
    reveal_strlit("address");
    reveal_strlit("boundingbox");
    reveal_strlit("class");
    reveal_strlit("type");
    reveal_strlit("importance");
    lemma_member_coordinates(f, g, "place_id"@);
    lemma_member_coordinates(f, g, "licence"@);
    lemma_member_coordinates(f, g, "osm_type"@);
    lemma_member_coordinates(f, g, "osm_id"@);
    lemma_member_coordinates(f, g, "lat"@);
    lemma_member_coordinates(f, g, "lon"@);
    lemma_member_coordinates(f, g, "display_name"@);
    lemma_member_coordinates(f, g, "address"@);
    lemma_member_coordinates(f, g, "boundingbox"@);
    lemma_member_coordinates(f, g, "class"@);
    lemma_member_coordinates(f, g, "type"@);
    lemma_member_coordinates(f, g, "importance"@);
    assert("place_id"@.len() == 8);
    assert("licence"@.len() == 7);
    assert("osm_type"@.len() == 8);
    assert("osm_id"@.len() == 6);
    assert("lat"@.len() == 3);
    assert("lon"@.len() == 3);
    assert("display_name"@.len() == 12);
    assert("address"@.len() == 7);
    assert("boundingbox"@.len() == 11);
    assert("class"@.len() == 5);
    assert("type"@.len() == 4);
    assert("importance"@.len() == 10);
}

/// One of the keys that a place is read from.
pub open spec fn is_place_key(name: Seq<char>) -> bool {
    name == "place_id"@ || name == "licence"@ || name == "osm_type"@ || name == "osm_id"@ || name == "lat"@ || name == "lon"@ || name == "display_name"@ || name == "address"@ || name == "boundingbox"@ || name == "class"@ || name == "type"@ || name == "importance"@
}

proof fn lemma_member_insert(f: Seq<(String, Json)>, idx: int, x: (String, Json), key: Seq<char>)
    requires
        0 <= idx <= f.len(),
        x.0@ != key,
    ensures
        member(f.insert(idx, x), key) == member(f, key),
    decreases f.len(),
{
    let h = f.insert(idx, x);
    if idx == 0 {
        assert(h.drop_first() =~= f);
    } else {
        assert(h.drop_first() =~= f.drop_first().insert(idx - 1, x));
        assert(h[0] == f[0]);
        lemma_member_insert(f.drop_first(), idx - 1, x, key);
    }
}

/// A member under a key that a place is not read from, wherever it stands,
/// changes nothing of what the place reads as.
pub proof fn unknown_member_ignored(j: Json, k: Json, idx: int, name: String, v: Json, d: LocationData)
    requires
        j matches Json::Object(f) && k matches Json::Object(g) && 0 <= idx <= f@.len() && g@
            == f@.insert(idx, (name, v)),
        !is_place_key(name@),
    ensures
        location_ok(j) == location_ok(k),
        location_matches(j, d) == location_matches(k, d),
{
    let f = j->Object_0@;
    lemma_member_insert(f, idx, (name, v), "place_id"@);
    lemma_member_insert(f, idx, (name, v), "licence"@);
    lemma_member_insert(f, idx, (name, v), "osm_type"@);
    lemma_member_insert(f, idx, (name, v), "osm_id"@);
    lemma_member_insert(f, idx, (name, v), "lat"@);
    lemma_member_insert(f, idx, (name, v), "lon"@);
    lemma_member_insert(f, idx, (name, v), "display_name"@);
    lemma_member_insert(f, idx, (name, v), "address"@);
    lemma_member_insert(f, idx, (name, v), "boundingbox"@);
    lemma_member_insert(f, idx, (name, v), "class"@);
    lemma_member_insert(f, idx, (name, v), "type"@);
    lemma_member_insert(f, idx, (name, v), "importance"@);
}

/// The member is missing or null.
pub open spec fn absent_or_null(f: Seq<(String, Json)>, key: Seq<char>) -> bool {
    member(f, key) is None || member(f, key) == Some(Json::Null)
}

/// A place whose optional members are all missing or null can be read where
/// its required members can, and its optional parts are then all absent.
pub proof fn optional_members_may_be_missing(j: Json, d: LocationData)
    requires
        j is Object,
        required_int(j->Object_0@, "place_id"@) is Some,
        required_coordinate(j->Object_0@, "lat"@) is Some,
        required_coordinate(j->Object_0@, "lon"@) is Some,
        required_text(j->Object_0@, "display_name"@) is Some,
        bounds_ok(j->Object_0@),
        absent_or_null(j->Object_0@, "licence"@),
        absent_or_null(j->Object_0@, "osm_type"@),
        absent_or_null(j->Object_0@, "osm_id"@),
        absent_or_null(j->Object_0@, "address"@),
        absent_or_null(j->Object_0@, "class"@),
        absent_or_null(j->Object_0@, "type"@),
        absent_or_null(j->Object_0@, "importance"@),
    ensures
        location_ok(j),
        location_matches(j, d) ==> d.licence is None && d.osm_type is None && d.osm_id is None
            && d.address is None && d.class is None && d.place_type is None && d.importance is None,
{
}

/// An address object whose members are all missing or null can be read, and
/// every part of it is then absent.
pub proof fn address_members_may_be_missing(v: Json, a: Address)
    requires
        v is Object,
        absent_or_null(v->Object_0@, "house_number"@),
        absent_or_null(v->Object_0@, "road"@),
        absent_or_null(v->Object_0@, "suburb"@),
        absent_or_null(v->Object_0@, "city"@),
        absent_or_null(v->Object_0@, "town"@),
        absent_or_null(v->Object_0@, "village"@),
        absent_or_null(v->Object_0@, "county"@),
        absent_or_null(v->Object_0@, "state"@),
        absent_or_null(v->Object_0@, "ISO3166-2-lvl4"@),
        absent_or_null(v->Object_0@, "postcode"@),
        absent_or_null(v->Object_0@, "country"@),
        absent_or_null(v->Object_0@, "country_code"@),
    ensures
        address_ok(v->Object_0@),
        address_matches(v->Object_0@, a) ==> a.house_number is None && a.road is None && a.suburb is None && a.city is None && a.town is None && a.village is None && a.county is None && a.state is None && a.iso3166_2_lvl4 is None && a.postcode is None && a.country is None && a.country_code is None,
{
}

} // verus!
