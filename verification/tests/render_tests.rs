use geoip_pls::json::json_quote;
use geoip_pls::number::is_json_number_token;
use geoip_pls::props::{Coordinates, GeoContext, GeoError, GeoProperties};
use geoip_pls::query::query_has_pretty;
use geoip_pls::text::{escape_str, str_eq, u32_to_dec};

#[test]
fn decimal_rendering() {
    assert_eq!(u32_to_dec(0), "0");
    assert_eq!(u32_to_dec(7), "7");
    assert_eq!(u32_to_dec(10), "10");
    assert_eq!(u32_to_dec(13335), "13335");
    assert_eq!(u32_to_dec(u32::MAX), "4294967295");
}

#[test]
fn escaping_specials() {
    assert_eq!(escape_str("plain"), "plain");
    assert_eq!(escape_str("a\"b"), "a\\\"b");
    assert_eq!(escape_str("a\\b"), "a\\\\b");
    assert_eq!(escape_str("a\nb\tc\rd"), "a\\nb\\tc\\rd");
    assert_eq!(escape_str("\u{08}\u{0c}"), "\\b\\f");
    assert_eq!(escape_str("\u{01}\u{1f}"), "\\u0001\\u001f");
    assert_eq!(escape_str("héllo wörld"), "héllo wörld");
}

#[test]
fn quoting_wraps_and_escapes() {
    assert_eq!(json_quote("SJC"), "\"SJC\"");
    assert_eq!(json_quote("a\"b\\c\nd\u{02}"), "\"a\\\"b\\\\c\\nd\\u0002\"");
    assert_eq!(json_quote(""), "\"\"");
}

#[test]
fn escaped_body_still_parses() {
    let props = GeoProperties {
        colo: String::from("A\"B\\C\nD"),
        asn: None,
        as_organization: None,
        country: None,
        city: Some(String::from("Zürich\t")),
        continent: None,
        coordinates: None,
        postal_code: None,
        metro_code: None,
        region: None,
        region_code: None,
        timezone: String::from("Europe/Zurich"),
    };
    let body = props.to_json();
    let v: serde_json::Value = serde_json::from_str(&body).unwrap();
    assert_eq!(v.get("colo").unwrap().as_str().unwrap(), "A\"B\\C\nD");
    assert_eq!(v.get("city").unwrap().as_str().unwrap(), "Zürich\t");
}

#[test]
fn number_tokens_accepted() {
    for s in [
        "0", "-0", "7", "37.3382", "-121.8863", "1e5", "1E5", "2.5e-3", "0.5e+10", "10.25",
        "-0.001", "9e0",
    ] {
        assert!(is_json_number_token(s), "{:?} should be accepted", s);
    }
}

#[test]
fn number_tokens_rejected() {
    for s in [
        "", "-", "+1", "01", "1.", ".5", "1e", "1e+", "e5", "NaN", "null", "inf", "-inf",
        "1.5.2", "1,5", " 1", "1 ", "0x1f", "--1", "1e5e5",
    ] {
        assert!(!is_json_number_token(s), "{:?} should be rejected", s);
    }
}

#[test]
fn from_context_carries_fields_over() {
    let ctx = GeoContext {
        colo: String::from("FRA"),
        asn: Some(3320),
        as_organization: Some(String::from("Deutsche Telekom AG")),
        country: Some(String::from("DE")),
        city: None,
        continent: Some(String::from("EU")),
        latitude: Some(String::from("50.1109")),
        longitude: Some(String::from("8.6821")),
        postal_code: None,
        metro_code: None,
        region: Some(String::from("Hesse")),
        region_code: Some(String::from("HE")),
        timezone: String::from("Europe/Berlin"),
    };
    let props = GeoProperties::from_context(&ctx).unwrap();
    assert_eq!(props.colo, "FRA");
    assert_eq!(props.asn, Some(3320));
    assert_eq!(props.as_organization.as_deref(), Some("Deutsche Telekom AG"));
    assert_eq!(props.country.as_deref(), Some("DE"));
    assert!(props.city.is_none());
    assert_eq!(props.continent.as_deref(), Some("EU"));
    let coords: &Coordinates = props.coordinates.as_ref().unwrap();
    assert_eq!(coords.latitude, "50.1109");
    assert_eq!(coords.longitude, "8.6821");
    assert!(props.postal_code.is_none());
    assert!(props.metro_code.is_none());
    assert_eq!(props.region.as_deref(), Some("Hesse"));
    assert_eq!(props.region_code.as_deref(), Some("HE"));
    assert_eq!(props.timezone, "Europe/Berlin");
}

#[test]
fn from_context_rejects_bad_pair() {
    let ctx = GeoContext {
        colo: String::from("FRA"),
        asn: None,
        as_organization: None,
        country: None,
        city: None,
        continent: None,
        latitude: Some(String::from("50.1109")),
        longitude: Some(String::from("east")),
        postal_code: None,
        metro_code: None,
        region: None,
        region_code: None,
        timezone: String::from("Europe/Berlin"),
    };
    assert!(matches!(GeoProperties::from_context(&ctx), Err(GeoError::InvalidCoordinate)));
}

#[test]
fn query_pretty_detection() {
    assert!(query_has_pretty("pretty"));
    assert!(query_has_pretty("pretty="));
    assert!(query_has_pretty("pretty=0"));
    assert!(query_has_pretty("a=b&pretty=false&c=d"));
    assert!(query_has_pretty("a&pretty"));
    assert!(!query_has_pretty(""));
    assert!(!query_has_pretty("p"));
    assert!(!query_has_pretty("pretty2=1"));
    assert!(!query_has_pretty("xpretty=1"));
    assert!(!query_has_pretty("a=pretty"));
    assert!(!query_has_pretty("PRETTY"));
    assert!(!query_has_pretty("pret=ty"));
}

#[test]
fn string_equality_is_exact() {
    assert!(str_eq("/v1.json", "/v1.json"));
    assert!(!str_eq("/v1.json", "/v1.jso"));
    assert!(!str_eq("/v1.json", "/V1.json"));
    assert!(str_eq("", ""));
    assert!(!str_eq("", "x"));
    assert!(str_eq("héllo", "héllo"));
}
