use http_api_problem::extensions::reserved_key;
use http_api_problem::{DecodeError, HttpApiProblem, StatusCode, PROBLEM_JSON_MEDIA_TYPE};
use serde_json::Value;

fn code(n: u16) -> StatusCode {
    StatusCode::from_u16(n).unwrap()
}

#[test]
fn new_then_title_encodes_status_and_title() {
    let p = HttpApiProblem::new(code(404)).title("Not Found");
    assert_eq!(p.json_string().unwrap(), "{\"status\":404,\"title\":\"Not Found\"}");
    assert_eq!(p.json_bytes().unwrap(), b"{\"status\":404,\"title\":\"Not Found\"}".to_vec());
}

#[test]
fn with_title_uses_reason_phrase() {
    let p = HttpApiProblem::with_title(code(404));
    assert_eq!(p.title.as_deref(), Some("Not Found"));
    assert_eq!(p.status.map(|s| s.as_u16()), Some(404));
    assert_eq!(p.type_url, None);
}

#[test]
fn with_title_unknown_code_uses_placeholder() {
    let p = HttpApiProblem::with_title(code(999));
    assert_eq!(p.title.as_deref(), Some("<unknown status code>"));
}

#[test]
fn with_title_and_type_sets_type_url() {
    let p = HttpApiProblem::with_title_and_type(code(503));
    assert_eq!(p.type_url.as_deref(), Some("https://httpstatuses.com/503"));
    assert_eq!(p.title.as_deref(), Some("Service Unavailable"));
    assert_eq!(p.status.map(|s| s.as_u16()), Some(503));
}

#[test]
fn try_constructors_check_the_numeral() {
    assert_eq!(HttpApiProblem::try_new(0).unwrap_err().code, 0);
    assert_eq!(HttpApiProblem::try_new(99).unwrap_err().code, 99);
    assert_eq!(HttpApiProblem::try_new(1000).unwrap_err().code, 1000);
    assert_eq!(HttpApiProblem::try_new(100).unwrap().status.map(|s| s.as_u16()), Some(100));
    assert_eq!(HttpApiProblem::try_new(999).unwrap().status.map(|s| s.as_u16()), Some(999));
    let p = HttpApiProblem::try_with_title(422).unwrap();
    assert_eq!(p.title.as_deref(), Some("Unprocessable Entity"));
    assert!(HttpApiProblem::try_with_title(65535).is_err());
    let p = HttpApiProblem::try_with_title_and_type(404).unwrap();
    assert_eq!(p.type_url.as_deref(), Some("https://httpstatuses.com/404"));
    assert!(HttpApiProblem::try_with_title_and_type(7).is_err());
    let p = HttpApiProblem::empty().try_status(418).unwrap();
    assert_eq!(p.status.map(|s| s.as_u16()), Some(418));
    assert!(HttpApiProblem::empty().try_status(1234).is_err());
}

#[test]
fn status_code_text() {
    assert_eq!(code(404).to_string(), "404 Not Found");
    assert_eq!(code(100).digits(), "100");
    assert_eq!(code(999).to_string(), "999 <unknown status code>");
    assert_eq!(code(500).canonical_reason().as_deref(), Some("Internal Server Error"));
}

#[test]
fn builders_set_each_field() {
    let p = HttpApiProblem::new(code(422))
        .title("You do not have enough credit.")
        .detail("Your current balance is 30, but that costs 50.")
        .type_url("https://example.com/probs/out-of-credit")
        .instance("/account/12345/msgs/abc");
    assert_eq!(p.status.map(|s| s.as_u16()), Some(422));
    assert_eq!(p.title.as_deref(), Some("You do not have enough credit."));
    assert_eq!(p.detail.as_deref(), Some("Your current balance is 30, but that costs 50."));
    assert_eq!(p.type_url.as_deref(), Some("https://example.com/probs/out-of-credit"));
    assert_eq!(p.instance.as_deref(), Some("/account/12345/msgs/abc"));
    let q = HttpApiProblem::empty()
        .set_status(code(400))
        .set_title("t")
        .set_detail("d")
        .set_type_url("u")
        .set_instance("i");
    assert_eq!(q.status.map(|s| s.as_u16()), Some(400));
    assert_eq!(q.title.as_deref(), Some("t"));
    assert_eq!(q.detail.as_deref(), Some("d"));
    assert_eq!(q.type_url.as_deref(), Some("u"));
    assert_eq!(q.instance.as_deref(), Some("i"));
    let r = HttpApiProblem::with_title_and_type_from_status(code(404));
    assert_eq!(r.type_url.as_deref(), Some("https://httpstatuses.com/404"));
    assert_eq!(HttpApiProblem::with_title_from_status(code(404)).title.as_deref(), Some("Not Found"));
}

#[test]
fn fixed_fields_round_trip() {
    let p = HttpApiProblem::new(code(422))
        .title("title")
        .detail("detail")
        .type_url("https://example.com/t")
        .instance("/i/1");
    let bytes = p.json_bytes().unwrap();
    let q = HttpApiProblem::from_json_bytes(&bytes).unwrap();
    assert_eq!(q.status.map(|s| s.as_u16()), Some(422));
    assert_eq!(q.title, p.title);
    assert_eq!(q.detail, p.detail);
    assert_eq!(q.type_url, p.type_url);
    assert_eq!(q.instance, p.instance);
    assert!(q.keys().is_empty());
    let e = HttpApiProblem::from_json_bytes(&HttpApiProblem::empty().json_bytes().unwrap()).unwrap();
    assert!(e.status.is_none() && e.title.is_none() && e.detail.is_none());
    assert!(e.type_url.is_none() && e.instance.is_none() && e.keys().is_empty());
}

#[test]
fn extensions_round_trip() {
    let mut nested = serde_json::Map::new();
    nested.insert("a".to_string(), Value::from(vec![1, 2, 3]));
    let p = HttpApiProblem::new(code(400))
        .value("balance", Value::from(30))
        .value("accounts", Value::from(vec!["/a/1", "/a/2"]))
        .value("nested", Value::Object(nested))
        .value("flag", Value::Bool(true))
        .value("nothing", Value::Null);
    let s = p.json_string().unwrap();
    let q = HttpApiProblem::from_json_bytes(s.as_bytes()).unwrap();
    let mut keys = q.keys();
    keys.sort();
    assert_eq!(keys, vec!["accounts", "balance", "flag", "nested", "nothing"]);
    for k in keys.iter() {
        assert_eq!(q.json_value(k), p.json_value(k));
    }
    assert_eq!(q.json_value("balance"), Some(&Value::from(30)));
    assert_eq!(q.status.map(|s| s.as_u16()), Some(400));
}

#[test]
fn reserved_keys_are_refused() {
    for k in ["type", "status", "title", "detail", "instance", "additional_fields"] {
        let mut p = HttpApiProblem::empty().value("x", Value::from(1));
        let r = p.try_set_value(k, Value::from(2));
        assert_eq!(r, Err(format!("'{}' is a reserved field name", k)));
        assert_eq!(p.keys(), vec!["x".to_string()]);
        assert_eq!(p.json_value(k), None);
        p.set_value(k, Value::from(3));
        assert_eq!(p.keys(), vec!["x".to_string()]);
        let q = HttpApiProblem::empty().value(k, Value::from(4));
        assert!(q.keys().is_empty());
        assert!(HttpApiProblem::empty().try_value(k, Value::from(5)).is_err());
        assert!(reserved_key(k));
    }
    assert!(!reserved_key("types"));
}

#[test]
fn extensions_are_set_and_replaced() {
    let mut p = HttpApiProblem::empty();
    assert_eq!(p.try_set_value("a", Value::from(1)), Ok(()));
    assert_eq!(p.json_value("a"), Some(&Value::from(1)));
    p.set_value("a", Value::from("two"));
    assert_eq!(p.json_value("a"), Some(&Value::from("two")));
    assert_eq!(p.keys(), vec!["a".to_string()]);
    assert_eq!(p.json_value("b"), None);
    let q = p.try_value("b", Value::Null).unwrap();
    assert_eq!(q.keys().len(), 2);
}

#[test]
fn out_of_range_status_is_dropped() {
    let json = b"{\"status\":99999,\"title\":\"t\",\"detail\":\"d\",\"type\":\"u\",\"instance\":\"i\",\"x\":1}";
    let p = HttpApiProblem::from_json_bytes(json).unwrap();
    assert!(p.status.is_none());
    assert_eq!(p.title.as_deref(), Some("t"));
    assert_eq!(p.detail.as_deref(), Some("d"));
    assert_eq!(p.type_url.as_deref(), Some("u"));
    assert_eq!(p.instance.as_deref(), Some("i"));
    assert_eq!(p.json_value("x"), Some(&Value::from(1)));
    assert_eq!(p.json_value("status"), None);
}

#[test]
fn invalid_status_forms_are_dropped() {
    for json in [
        "{\"status\":42}",
        "{\"status\":1000}",
        "{\"status\":-404}",
        "{\"status\":404.5}",
        "{\"status\":\"404\"}",
        "{\"status\":null}",
        "{\"status\":[404]}",
    ] {
        let p = HttpApiProblem::from_json_bytes(json.as_bytes()).unwrap();
        assert!(p.status.is_none(), "{}", json);
        assert!(p.keys().is_empty());
    }
    let p = HttpApiProblem::from_json_bytes(b"{\"status\":404}").unwrap();
    assert_eq!(p.status.map(|s| s.as_u16()), Some(404));
}

#[test]
fn missing_status_defaults_to_500() {
    let p = HttpApiProblem::empty();
    assert_eq!(p.status_code_or_internal_server_error(), 500);
    assert_eq!(p.status_or_internal_server_error().as_u16(), 500);
    let q = HttpApiProblem::new(code(404));
    assert_eq!(q.status_code_or_internal_server_error(), 404);
}

#[test]
fn absent_detail_is_omitted() {
    let p = HttpApiProblem::new(code(400)).title("t");
    let v: Value = serde_json::from_str(&p.json_string().unwrap()).unwrap();
    let o = v.as_object().unwrap();
    assert!(!o.contains_key("detail"));
    assert!(!o.contains_key("type"));
    assert!(!o.contains_key("instance"));
    assert_eq!(o.len(), 2);
    assert_eq!(HttpApiProblem::empty().json_string().unwrap(), "{}");
}

#[test]
fn decode_errors() {
    assert_eq!(HttpApiProblem::from_json_bytes(b"not json").unwrap_err(), DecodeError::InvalidJson);
    assert_eq!(HttpApiProblem::from_json_bytes(b"[1,2]").unwrap_err(), DecodeError::InvalidJson);
    assert_eq!(HttpApiProblem::from_json_bytes(b"\"x\"").unwrap_err(), DecodeError::InvalidJson);
    assert_eq!(HttpApiProblem::from_json_bytes(b"{\"type\":1}").unwrap_err(), DecodeError::InvalidType);
    assert_eq!(HttpApiProblem::from_json_bytes(b"{\"title\":[]}").unwrap_err(), DecodeError::InvalidTitle);
    assert_eq!(HttpApiProblem::from_json_bytes(b"{\"detail\":true}").unwrap_err(), DecodeError::InvalidDetail);
    assert_eq!(HttpApiProblem::from_json_bytes(b"{\"instance\":{}}").unwrap_err(), DecodeError::InvalidInstance);
    assert_eq!(
        HttpApiProblem::from_json_bytes(b"{\"type\":2,\"title\":3}").unwrap_err(),
        DecodeError::InvalidType
    );
}

#[test]
fn null_fields_decode_as_absent() {
    let p = HttpApiProblem::from_json_bytes(b"{\"title\":null,\"detail\":\"d\"}").unwrap();
    assert!(p.title.is_none());
    assert_eq!(p.detail.as_deref(), Some("d"));
}

#[test]
fn reserved_container_name_is_not_an_extension() {
    let p = HttpApiProblem::from_json_bytes(b"{\"additional_fields\":{},\"y\":2}").unwrap();
    assert_eq!(p.keys(), vec!["y".to_string()]);
}

#[test]
fn one_line_text() {
    let base = HttpApiProblem::new(code(404));
    assert_eq!(base.clone().title("T").detail("D").to_string(), "404 Not Found - T - D");
    assert_eq!(base.clone().title("T").to_string(), "404 Not Found - T");
    assert_eq!(base.clone().detail("D").to_string(), "404 Not Found - D");
    assert_eq!(base.clone().type_url("U").to_string(), "404 Not Found - U");
    assert_eq!(base.clone().title("T").type_url("U").to_string(), "404 Not Found - T");
    assert_eq!(base.to_string(), "404 Not Found");
    assert_eq!(HttpApiProblem::empty().to_string(), "<no status>");
    assert_eq!(HttpApiProblem::empty().detail("D").to_string(), "<no status> - D");
}

#[test]
fn json_object_holds_members() {
    let p = HttpApiProblem::new(code(404)).title("T").value("k", Value::from("v"));
    let o = p.json_object();
    assert_eq!(o.get("status"), Some(&Value::from(404)));
    assert_eq!(o.get("title"), Some(&Value::from("T")));
    assert_eq!(o.get("k"), Some(&Value::from("v")));
    assert_eq!(o.len(), 3);
    let q = HttpApiProblem::from_json_object(o).unwrap();
    assert_eq!(q.title.as_deref(), Some("T"));
}

#[test]
fn media_type() {
    assert_eq!(PROBLEM_JSON_MEDIA_TYPE, "application/problem+json");
}

#[test]
fn from_status_code() {
    let p: HttpApiProblem = code(404).into();
    assert_eq!(p.status.map(|s| s.as_u16()), Some(404));
    assert!(p.title.is_none() && p.detail.is_none() && p.type_url.is_none());
    assert!(p.instance.is_none() && p.keys().is_empty());
}
