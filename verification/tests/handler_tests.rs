use geoip_pls::handler::{handle, HttpResponse};
use geoip_pls::props::{GeoContext, GeoError};

fn full_ctx() -> GeoContext {
    GeoContext {
        colo: String::from("SJC"),
        asn: Some(13335),
        as_organization: Some(String::from("Cloudflare, Inc.")),
        country: Some(String::from("US")),
        city: Some(String::from("San Jose")),
        continent: Some(String::from("NA")),
        latitude: Some(String::from("37.3382")),
        longitude: Some(String::from("-121.8863")),
        postal_code: Some(String::from("95113")),
        metro_code: Some(String::from("807")),
        region: Some(String::from("California")),
        region_code: Some(String::from("CA")),
        timezone: String::from("America/Los_Angeles"),
    }
}

const FULL_COMPACT: &str = "{\"colo\":\"SJC\",\"asn\":13335,\"as_organization\":\"Cloudflare, Inc.\",\"country\":\"US\",\"city\":\"San Jose\",\"continent\":\"NA\",\"coordinates\":{\"latitude\":37.3382,\"longitude\":-121.8863},\"postal_code\":\"95113\",\"metro_code\":\"807\",\"region\":\"California\",\"region_code\":\"CA\",\"timezone\":\"America/Los_Angeles\"}";

fn ok(r: Result<HttpResponse, GeoError>) -> HttpResponse {
    match r {
        Ok(resp) => resp,
        Err(e) => panic!("expected a response, got {:?}", e),
    }
}

#[test]
fn known_path_full_context_compact() {
    let resp = ok(handle("/v1.json", "", Some(full_ctx())));
    assert_eq!(resp.status, 200);
    assert_eq!(resp.content_type.as_deref(), Some("application/json"));
    assert_eq!(resp.body, FULL_COMPACT);
}

#[test]
fn known_path_full_context_pretty() {
    let resp = ok(handle("/v1.json", "pretty", Some(full_ctx())));
    assert_eq!(resp.status, 200);
    assert_eq!(resp.content_type.as_deref(), Some("application/json"));
    let expected = "{\n  \"colo\": \"SJC\",\n  \"asn\": 13335,\n  \"as_organization\": \"Cloudflare, Inc.\",\n  \"country\": \"US\",\n  \"city\": \"San Jose\",\n  \"continent\": \"NA\",\n  \"coordinates\": {\n    \"latitude\": 37.3382,\n    \"longitude\": -121.8863\n  },\n  \"postal_code\": \"95113\",\n  \"metro_code\": \"807\",\n  \"region\": \"California\",\n  \"region_code\": \"CA\",\n  \"timezone\": \"America/Los_Angeles\"\n}";
    assert_eq!(resp.body, expected);
}

#[test]
fn pretty_key_with_any_value_triggers_pretty() {
    for q in ["pretty", "pretty=1", "pretty=false", "a=1&pretty", "pretty&b=2", "x=y&pretty=0&z"] {
        let resp = ok(handle("/v1.json", q, Some(full_ctx())));
        assert!(resp.body.contains('\n'), "query {:?} should be pretty", q);
    }
}

#[test]
fn other_keys_do_not_trigger_pretty() {
    for q in ["", "p=1", "xpretty", "pretty2", "PRETTY", "Pretty=1", "a=pretty", "prett=y"] {
        let resp = ok(handle("/v1.json", q, Some(full_ctx())));
        assert_eq!(resp.body, FULL_COMPACT, "query {:?} should be compact", q);
    }
}

#[test]
fn identical_requests_identical_bodies() {
    let first = ok(handle("/v1.json", "a=1", Some(full_ctx())));
    let second = ok(handle("/v1.json", "a=1", Some(full_ctx())));
    assert_eq!(first.body.as_bytes(), second.body.as_bytes());
    let p1 = ok(handle("/v1.json", "pretty", Some(full_ctx())));
    let p2 = ok(handle("/v1.json", "pretty", Some(full_ctx())));
    assert_eq!(p1.body.as_bytes(), p2.body.as_bytes());
}

#[test]
fn missing_city_renders_null_key() {
    let mut ctx = full_ctx();
    ctx.city = None;
    let resp = ok(handle("/v1.json", "", Some(ctx)));
    assert!(resp.body.contains("\"city\":null"));
    let v: serde_json::Value = serde_json::from_str(&resp.body).unwrap();
    let obj = v.as_object().unwrap();
    assert!(obj.contains_key("city"));
    assert!(obj.get("city").unwrap().is_null());
}

#[test]
fn lone_latitude_gives_null_coordinates() {
    let mut ctx = full_ctx();
    ctx.longitude = None;
    let resp = ok(handle("/v1.json", "", Some(ctx)));
    assert!(resp.body.contains("\"coordinates\":null"));
}

#[test]
fn lone_longitude_gives_null_coordinates() {
    let mut ctx = full_ctx();
    ctx.latitude = None;
    let resp = ok(handle("/v1.json", "", Some(ctx)));
    assert!(resp.body.contains("\"coordinates\":null"));
}

#[test]
fn both_coordinates_give_numeric_pair() {
    let resp = ok(handle("/v1.json", "", Some(full_ctx())));
    let v: serde_json::Value = serde_json::from_str(&resp.body).unwrap();
    let coords = v.get("coordinates").unwrap().as_object().unwrap();
    assert!(coords.get("latitude").unwrap().is_number());
    assert!(coords.get("longitude").unwrap().is_number());
    assert_eq!(coords.get("latitude").unwrap().as_f64().unwrap(), 37.3382);
    assert_eq!(coords.get("longitude").unwrap().as_f64().unwrap(), -121.8863);
}

#[test]
fn fallback_for_any_other_path() {
    for path in ["/", "/v2.json", "/anything-else", "/v1.json/extra", "v1.json"] {
        let resp = ok(handle(path, "", None));
        assert_eq!(resp.status, 200);
        assert!(resp.content_type.is_none());
        assert_eq!(resp.body, "geoip.pls - try /v1.json");
    }
}

#[test]
fn fallback_ignores_query_string() {
    let resp = ok(handle("/other", "pretty=1&x=2", Some(full_ctx())));
    assert_eq!(resp.status, 200);
    assert_eq!(resp.body, "geoip.pls - try /v1.json");
}

#[test]
fn missing_context_is_an_error() {
    let r = handle("/v1.json", "", None);
    assert!(matches!(r, Err(GeoError::ContextUnavailable)));
}

#[test]
fn malformed_coordinate_is_an_error() {
    let mut ctx = full_ctx();
    ctx.latitude = Some(String::from("not-a-number"));
    let r = handle("/v1.json", "", Some(ctx));
    assert!(matches!(r, Err(GeoError::InvalidCoordinate)));

    let mut ctx2 = full_ctx();
    ctx2.longitude = Some(String::from("null"));
    let r2 = handle("/v1.json", "", Some(ctx2));
    assert!(matches!(r2, Err(GeoError::InvalidCoordinate)));
}

#[test]
fn malformed_lone_coordinate_is_dropped_not_rejected() {
    let mut ctx = full_ctx();
    ctx.latitude = Some(String::from("garbage"));
    ctx.longitude = None;
    let resp = ok(handle("/v1.json", "", Some(ctx)));
    assert!(resp.body.contains("\"coordinates\":null"));
}

#[test]
fn every_schema_key_present_exactly_once() {
    let resp = ok(handle("/v1.json", "", Some(full_ctx())));
    let v: serde_json::Value = serde_json::from_str(&resp.body).unwrap();
    let obj = v.as_object().unwrap();
    let keys = [
        "colo", "asn", "as_organization", "country", "city", "continent", "coordinates",
        "postal_code", "metro_code", "region", "region_code", "timezone",
    ];
    assert_eq!(obj.len(), keys.len());
    for k in keys {
        assert!(obj.contains_key(k), "missing key {}", k);
    }
}

#[test]
fn minimal_context_all_optionals_null() {
    let ctx = GeoContext {
        colo: String::from("LHR"),
        asn: None,
        as_organization: None,
        country: None,
        city: None,
        continent: None,
        latitude: None,
        longitude: None,
        postal_code: None,
        metro_code: None,
        region: None,
        region_code: None,
        timezone: String::from("Etc/UTC"),
    };
    let resp = ok(handle("/v1.json", "", Some(ctx)));
    let expected = "{\"colo\":\"LHR\",\"asn\":null,\"as_organization\":null,\"country\":null,\"city\":null,\"continent\":null,\"coordinates\":null,\"postal_code\":null,\"metro_code\":null,\"region\":null,\"region_code\":null,\"timezone\":\"Etc/UTC\"}";
    assert_eq!(resp.body, expected);
}

#[test]
fn pretty_and_compact_bodies_agree_as_json() {
    let compact = ok(handle("/v1.json", "", Some(full_ctx())));
    let pretty = ok(handle("/v1.json", "pretty", Some(full_ctx())));
    let vc: serde_json::Value = serde_json::from_str(&compact.body).unwrap();
    let vp: serde_json::Value = serde_json::from_str(&pretty.body).unwrap();
    assert_eq!(vc, vp);
}
