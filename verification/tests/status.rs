use genplist::service::status;
use genplist::status::encode_status;
use genplist::status::status_value;

fn expected_document() -> serde_json::Value {
    let mut endpoints = serde_json::Map::new();
    endpoints.insert(
        "GET /".to_string(),
        serde_json::Value::String("Server status and documentation".to_string()),
    );
    endpoints.insert(
        "GET /genPlist".to_string(),
        serde_json::Value::String(
            "Generate iOS installation manifest (query params: bundleid, name, version, fetchurl)"
                .to_string(),
        ),
    );
    let mut document = serde_json::Map::new();
    document.insert("status".to_string(), serde_json::Value::String("running".to_string()));
    document.insert("endpoints".to_string(), serde_json::Value::Object(endpoints));
    serde_json::Value::Object(document)
}

#[test]
fn status_value_is_the_fixed_document() {
    assert_eq!(status_value(), expected_document());
}

#[test]
fn status_value_has_two_members_and_two_endpoints() {
    let value = status_value();
    let document = value.as_object().expect("an object");
    assert_eq!(document.len(), 2);
    assert_eq!(document.get("status").and_then(|v| v.as_str()), Some("running"));
    let endpoints = document.get("endpoints").and_then(|v| v.as_object()).expect("an object");
    assert_eq!(endpoints.len(), 2);
    assert_eq!(
        endpoints.get("GET /").and_then(|v| v.as_str()),
        Some("Server status and documentation")
    );
    assert_eq!(
        endpoints.get("GET /genPlist").and_then(|v| v.as_str()),
        Some("Generate iOS installation manifest (query params: bundleid, name, version, fetchurl)")
    );
}

#[test]
fn encoded_status_is_the_json_text() {
    let body = encode_status().expect("the encoder gives bytes");
    assert_eq!(
        String::from_utf8(body).unwrap(),
        "{\"endpoints\":{\"GET /\":\"Server status and documentation\",\"GET /genPlist\":\"Generate iOS installation manifest (query params: bundleid, name, version, fetchurl)\"},\"status\":\"running\"}"
    );
}

#[test]
fn status_answers_with_the_fixed_document() {
    let response = status();
    assert_eq!(response.status, 200);
    assert_eq!(response.content_type, "application/json");
    let read: serde_json::Value = serde_json::from_slice(&response.body).expect("a JSON document");
    assert_eq!(read, expected_document());
}

#[test]
fn status_body_is_the_encoded_document() {
    let response = status();
    assert_eq!(Ok(response.body), encode_status());
}

#[test]
fn status_is_the_same_every_time() {
    let first = status();
    let second = status();
    assert_eq!(first.status, 200);
    assert_eq!(first, second);
}
