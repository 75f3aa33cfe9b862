use mapsco::{
    decode_address, decode_coordinate, decode_location, decode_location_list, decode_reverse_body,
    decode_search_body, get_member, is_numeral_text, ConfigError, Decimal, DecodeError, Json,
    MapscoClient, API_KEY_VAR, DEFAULT_BASE_URL,
};

const EIFFEL: &str = r#"{"place_id":1,"lat":48.8583,"lon":2.2944,"display_name":"Eiffel Tower","boundingbox":["48.85","48.86","2.29","2.30"]}"#;

fn decimal(x: f64) -> Decimal {
    Decimal { numeral: x.to_string() }
}

fn as_f64(d: &Decimal) -> f64 {
    d.numeral.parse::<f64>().unwrap()
}

fn s(x: &str) -> String {
    x.to_string()
}

#[test]
fn reverse_numeric_coordinates() {
    let client = MapscoClient::new(s("TESTKEY"));
    let url = client.reverse_url(&decimal(48.8583), &decimal(2.2944)).unwrap();
    assert_eq!(url, "https://geocode.maps.co/reverse?lat=48.8583&lon=2.2944&api_key=TESTKEY");
    let d = decode_reverse_body(EIFFEL).unwrap();
    assert_eq!(d.place_id, 1);
    assert_eq!(as_f64(&d.lat), 48.8583);
    assert_eq!(as_f64(&d.lon), 2.2944);
    assert_eq!(d.display_name, "Eiffel Tower");
    assert_eq!(d.boundingbox, vec![s("48.85"), s("48.86"), s("2.29"), s("2.30")]);
    assert!(d.address.is_none());
    assert!(d.licence.is_none());
    assert!(d.importance.is_none());
}

#[test]
fn reverse_string_coordinates() {
    let body = r#"{"place_id":7,"lat":"40.7128","lon":"-74.0060","display_name":"New York","boundingbox":["40.4","40.9","-74.2","-73.7"]}"#;
    let d = decode_reverse_body(body).unwrap();
    assert_eq!(as_f64(&d.lat), 40.7128);
    assert_eq!(as_f64(&d.lon), -74.0060);
    assert_eq!(d.lat.numeral, "40.7128");
    assert_eq!(d.lon.numeral, "-74.0060");
}

#[test]
fn search_multiple_results_in_order() {
    let client = MapscoClient::new(s("TESTKEY"));
    assert_eq!(
        client.search_url("Paris").unwrap(),
        "https://geocode.maps.co/search?q=Paris&api_key=TESTKEY"
    );
    let body = r#"[
        {"place_id":10,"lat":"48.85","lon":"2.35","display_name":"Paris, France","boundingbox":["a","b","c","d"]},
        {"place_id":20,"lat":33.66,"lon":-95.55,"display_name":"Paris, Texas","boundingbox":[]}
    ]"#;
    let v = decode_search_body(body).unwrap();
    assert_eq!(v.len(), 2);
    assert_eq!(v[0].place_id, 10);
    assert_eq!(v[0].display_name, "Paris, France");
    assert_eq!(v[1].place_id, 20);
    assert_eq!(v[1].display_name, "Paris, Texas");
}

#[test]
fn search_empty_result() {
    assert_eq!(decode_search_body("[]").unwrap().len(), 0);
}

#[test]
fn search_special_characters_are_encoded() {
    let client = MapscoClient::new(s("TESTKEY"));
    let url = client.search_url("São Paulo & Rio").unwrap();
    assert_eq!(
        url,
        "https://geocode.maps.co/search?q=S%C3%A3o+Paulo+%26+Rio&api_key=TESTKEY"
    );
}

#[test]
fn malformed_body_is_a_syntax_error() {
    match decode_reverse_body("not json") {
        Err(DecodeError::Syntax(m)) => assert!(!m.is_empty()),
        other => panic!("unexpected {:?}", other),
    }
    assert!(matches!(decode_search_body("not json"), Err(DecodeError::Syntax(_))));
    assert_eq!(decode_reverse_body("\"not json\""), Err(DecodeError::NotAnObject));
}

#[test]
fn missing_key_is_a_configuration_error() {
    assert_eq!(API_KEY_VAR, "MAPSCO_API_KEY");
    assert!(matches!(MapscoClient::from_env_value(None), Err(ConfigError::MissingKey)));
    let c = MapscoClient::from_env_value(Some(s("K1"))).unwrap();
    assert_eq!(
        c.search_url("x").unwrap(),
        "https://geocode.maps.co/search?q=x&api_key=K1"
    );
}

#[test]
fn string_and_number_coordinates_read_alike() {
    let a = decode_reverse_body(r#"{"place_id":1,"lat":48.85,"lon":-2.5,"display_name":"X","boundingbox":[]}"#).unwrap();
    let b = decode_reverse_body(r#"{"place_id":1,"lat":"48.85","lon":"-2.5","display_name":"X","boundingbox":[]}"#).unwrap();
    assert_eq!(a, b);
}

#[test]
fn unknown_keys_are_ignored() {
    let body = r#"{"place_id":1,"extra":{"deep":[1,2]},"lat":48.8583,"lon":2.2944,"display_name":"Eiffel Tower","zz":null,"boundingbox":["48.85","48.86","2.29","2.30"]}"#;
    assert_eq!(decode_reverse_body(body).unwrap(), decode_reverse_body(EIFFEL).unwrap());
}

#[test]
fn optional_fields_may_be_null() {
    let body = r#"{"place_id":1,"licence":null,"osm_type":null,"osm_id":null,"lat":1,"lon":2,"display_name":"X","address":null,"boundingbox":[],"class":null,"type":null,"importance":null}"#;
    let d = decode_reverse_body(body).unwrap();
    assert!(d.licence.is_none() && d.osm_type.is_none() && d.osm_id.is_none());
    assert!(d.address.is_none() && d.class.is_none() && d.place_type.is_none());
    assert!(d.importance.is_none());
    let a = decode_reverse_body(r#"{"place_id":1,"lat":1,"lon":2,"display_name":"X","boundingbox":[],"address":{"road":null}}"#)
        .unwrap()
        .address
        .unwrap();
    assert!(a.road.is_none() && a.city.is_none() && a.iso3166_2_lvl4.is_none());
}

#[test]
fn all_fields_present() {
    let body = r#"{"place_id":-42,"licence":"ODbL","osm_type":"way","osm_id":5013364,"lat":"48.8583","lon":"2.2944","display_name":"Tour Eiffel","address":{"house_number":"5","road":"Avenue Anatole France","suburb":"Gros-Caillou","city":"Paris","town":"T","village":"V","county":"C","state":"Ile-de-France","ISO3166-2-lvl4":"FR-IDF","postcode":"75007","country":"France","country_code":"fr"},"boundingbox":["48.85","48.86","2.29","2.30"],"class":"man_made","type":"tower","importance":0.62}"#;
    let d = decode_reverse_body(body).unwrap();
    assert_eq!(d.place_id, -42);
    assert_eq!(d.licence.as_deref(), Some("ODbL"));
    assert_eq!(d.osm_type.as_deref(), Some("way"));
    assert_eq!(d.osm_id, Some(5013364));
    assert_eq!(d.class.as_deref(), Some("man_made"));
    assert_eq!(d.place_type.as_deref(), Some("tower"));
    assert_eq!(as_f64(d.importance.as_ref().unwrap()), 0.62);
    let a = d.address.unwrap();
    assert_eq!(a.house_number.as_deref(), Some("5"));
    assert_eq!(a.road.as_deref(), Some("Avenue Anatole France"));
    assert_eq!(a.suburb.as_deref(), Some("Gros-Caillou"));
    assert_eq!(a.city.as_deref(), Some("Paris"));
    assert_eq!(a.town.as_deref(), Some("T"));
    assert_eq!(a.village.as_deref(), Some("V"));
    assert_eq!(a.county.as_deref(), Some("C"));
    assert_eq!(a.state.as_deref(), Some("Ile-de-France"));
    assert_eq!(a.iso3166_2_lvl4.as_deref(), Some("FR-IDF"));
    assert_eq!(a.postcode.as_deref(), Some("75007"));
    assert_eq!(a.country.as_deref(), Some("France"));
    assert_eq!(a.country_code.as_deref(), Some("fr"));
}

#[test]
fn same_key_gives_same_urls() {
    let a = MapscoClient::new(s("TESTKEY"));
    let b = MapscoClient::new(s("TESTKEY"));
    let c = a.clone();
    assert_eq!(
        a.reverse_url(&decimal(-1.5), &decimal(3.0)).unwrap(),
        b.reverse_url(&decimal(-1.5), &decimal(3.0)).unwrap()
    );
    assert_eq!(a.search_url("q r").unwrap(), b.search_url("q r").unwrap());
    assert_eq!(a.search_url("q r").unwrap(), c.search_url("q r").unwrap());
    assert!(a.search_url("q r").unwrap().starts_with(DEFAULT_BASE_URL));
}

#[test]
fn display_is_the_display_name() {
    let d = decode_reverse_body(EIFFEL).unwrap();
    assert_eq!(d.to_string(), "Eiffel Tower");
}

#[test]
fn wrong_shapes_name_the_field() {
    let bad = |body: &str| decode_reverse_body(body).unwrap_err();
    assert_eq!(bad(r#"{"lat":1,"lon":2,"display_name":"X","boundingbox":[]}"#), DecodeError::Field(s("place_id")));
    assert_eq!(bad(r#"{"place_id":1.5,"lat":1,"lon":2,"display_name":"X","boundingbox":[]}"#), DecodeError::Field(s("place_id")));
    assert_eq!(bad(r#"{"place_id":"1","lat":1,"lon":2,"display_name":"X","boundingbox":[]}"#), DecodeError::Field(s("place_id")));
    assert_eq!(bad(r#"{"place_id":1,"lat":"abc","lon":2,"display_name":"X","boundingbox":[]}"#), DecodeError::Field(s("lat")));
    assert_eq!(bad(r#"{"place_id":1,"lat":1,"lon":true,"display_name":"X","boundingbox":[]}"#), DecodeError::Field(s("lon")));
    assert_eq!(bad(r#"{"place_id":1,"lat":1,"lon":2,"boundingbox":[]}"#), DecodeError::Field(s("display_name")));
    assert_eq!(bad(r#"{"place_id":1,"lat":1,"lon":2,"display_name":"X"}"#), DecodeError::Field(s("boundingbox")));
    assert_eq!(bad(r#"{"place_id":1,"lat":1,"lon":2,"display_name":"X","boundingbox":[1]}"#), DecodeError::Field(s("boundingbox")));
    assert_eq!(bad(r#"{"place_id":1,"osm_id":18446744073709551615,"lat":1,"lon":2,"display_name":"X","boundingbox":[]}"#), DecodeError::Field(s("osm_id")));
    assert_eq!(bad(r#"{"place_id":1,"lat":1,"lon":2,"display_name":"X","boundingbox":[],"importance":"0.5"}"#), DecodeError::Field(s("importance")));
    assert_eq!(bad(r#"{"place_id":1,"lat":1,"lon":2,"display_name":"X","boundingbox":[],"class":3}"#), DecodeError::Field(s("class")));
    assert_eq!(bad(r#"{"place_id":1,"lat":1,"lon":2,"display_name":"X","boundingbox":[],"address":{"city":1}}"#), DecodeError::Field(s("city")));
    assert_eq!(bad(r#"{"place_id":1,"lat":1,"lon":2,"display_name":"X","boundingbox":[],"address":"Paris"}"#), DecodeError::Field(s("address")));
    assert_eq!(bad("[]"), DecodeError::NotAnObject);
    assert_eq!(decode_search_body("{}").unwrap_err(), DecodeError::NotAnArray);
    assert_eq!(decode_search_body("[1]").unwrap_err(), DecodeError::NotAnObject);
}

#[test]
fn numerals() {
    assert!(is_numeral_text("40.7128"));
    assert!(is_numeral_text("-74.0060"));
    assert!(is_numeral_text("+3"));
    assert!(is_numeral_text(".5"));
    assert!(is_numeral_text("5."));
    assert!(!is_numeral_text(""));
    assert!(!is_numeral_text("-"));
    assert!(!is_numeral_text("."));
    assert!(!is_numeral_text("1.2.3"));
    assert!(!is_numeral_text("1e5"));
    assert!(!is_numeral_text("NaN"));
    assert!(!is_numeral_text("١٢"));
}

#[test]
fn tree_level_reading() {
    let lat = Json::Str(s("12.5"));
    assert_eq!(decode_coordinate(&lat).unwrap().numeral, "12.5");
    assert!(decode_coordinate(&Json::Str(s("north"))).is_none());
    assert!(decode_coordinate(&Json::Null).is_none());
    assert_eq!(decode_coordinate(&Json::Number(s("7"))).unwrap().numeral, "7");
    let fields = vec![(s("a"), Json::Bool(true)), (s("b"), Json::Null)];
    assert!(matches!(get_member(&fields, "b"), Some(Json::Null)));
    assert!(get_member(&fields, "c").is_none());
    let obj = Json::Object(vec![
        (s("place_id"), Json::Number(s("3"))),
        (s("lat"), Json::Number(s("1"))),
        (s("lon"), Json::Str(s("2"))),
        (s("display_name"), Json::Str(s("Here"))),
        (s("boundingbox"), Json::Array(vec![])),
    ]);
    let d = decode_location(&obj).unwrap();
    assert_eq!(d.place_id, 3);
    assert_eq!(d.lon.numeral, "2");
    let list = decode_location_list(&Json::Array(vec![obj])).unwrap();
    assert_eq!(list.len(), 1);
    let addr = decode_address(&Json::Object(vec![(s("ISO3166-2-lvl4"), Json::Str(s("FR-IDF")))])).unwrap();
    assert_eq!(addr.iso3166_2_lvl4.as_deref(), Some("FR-IDF"));
    assert_eq!(decode_address(&Json::Null).unwrap_err(), DecodeError::NotAnObject);
}
