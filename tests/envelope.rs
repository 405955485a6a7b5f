use elefren::{check_status, deserialise, settle, ApiError, Empty, MastodonError};

fn api_error_of(body: &[u8]) -> Option<ApiError> {
    let value: serde_json::Value = serde_json::from_slice(body).ok()?;
    let error = value.get("error")?.as_str()?.to_string();
    let error_description = value
        .get("error_description")
        .and_then(|d| d.as_str())
        .map(|d| d.to_string());
    let extra = value
        .as_object()?
        .iter()
        .filter(|(k, _)| k.as_str() != "error" && k.as_str() != "error_description")
        .map(|(k, v)| (k.clone(), v.to_string()))
        .collect();
    Some(ApiError { error, error_description, extra })
}

#[test]
fn decode_returns_the_payload() {
    let body = b"[1, 2, 3]";
    let parsed = serde_json::from_slice::<Vec<u64>>(body);
    let r = deserialise(parsed, || panic!("the error shape is not tried after a success"));
    assert_eq!(r.unwrap(), vec![1, 2, 3]);
}

#[test]
fn decode_falls_back_to_the_api_error() {
    let body = br#"{"error": "Record not found"}"#;
    let parsed = serde_json::from_slice::<Vec<u64>>(body);
    match deserialise(parsed, || api_error_of(body)) {
        Err(MastodonError::Api(e)) => {
            assert_eq!(e.error, "Record not found");
            assert_eq!(e.error_description, None);
            assert!(e.extra.is_empty());
        }
        other => panic!("unexpected {:?}", other),
    }
}

#[test]
fn decode_surfaces_the_first_failure() {
    let body = b"<html>oops</html>";
    let parsed = serde_json::from_slice::<Vec<u64>>(body);
    let expected = serde_json::from_slice::<Vec<u64>>(body).unwrap_err().to_string();
    match deserialise(parsed, || api_error_of(body)) {
        Err(MastodonError::Serde(e)) => assert_eq!(e.to_string(), expected),
        other => panic!("unexpected {:?}", other),
    }
}

#[test]
fn empty_decodes_from_any_json() {
    assert!(Empty::decode(b"{}").is_ok());
    assert!(Empty::decode(br#"{"anything":true}"#).is_ok());
    assert!(Empty::decode(b"[1]").is_ok());
}

#[test]
fn empty_refuses_what_is_not_json() {
    assert!(Empty::decode(b"").is_err());
    assert!(Empty::decode(b"{").is_err());
    assert!(Empty::decode(b"not json").is_err());
}

#[test]
fn client_error_status_short_circuits() {
    let r: Result<Vec<u64>, MastodonError> =
        settle(404, || panic!("a 4xx body is not decoded"));
    assert!(matches!(r, Err(MastodonError::Client(404))));
    let r: Result<Vec<u64>, MastodonError> =
        settle(400, || panic!("a 4xx body is not decoded"));
    assert!(matches!(r, Err(MastodonError::Client(400))));
}

#[test]
fn server_error_status_short_circuits() {
    let r: Result<Empty, MastodonError> = settle(503, || panic!("a 5xx body is not decoded"));
    assert!(matches!(r, Err(MastodonError::Server(503))));
    let r: Result<Empty, MastodonError> = settle(599, || panic!("a 5xx body is not decoded"));
    assert!(matches!(r, Err(MastodonError::Server(599))));
}

#[test]
fn other_statuses_decode_the_body() {
    let r = settle(200, || Ok::<u8, MastodonError>(7));
    assert_eq!(r.unwrap(), 7);
    let r = settle(302, || Ok::<u8, MastodonError>(8));
    assert_eq!(r.unwrap(), 8);
    let r = settle(600, || Ok::<u8, MastodonError>(9));
    assert_eq!(r.unwrap(), 9);
}

#[test]
fn status_ranges() {
    assert!(check_status(200).is_ok());
    assert!(check_status(399).is_ok());
    assert!(matches!(check_status(499), Err(MastodonError::Client(499))));
    assert!(matches!(check_status(500), Err(MastodonError::Server(500))));
}

#[test]
fn api_error_keeps_further_fields() {
    let body = br#"{"error": "Validation failed", "error_description": "Text too long", "details": {"text": 1}}"#;
    let parsed = serde_json::from_slice::<Vec<u64>>(body);
    match deserialise(parsed, || api_error_of(body)) {
        Err(MastodonError::Api(e)) => {
            assert_eq!(e.error, "Validation failed");
            assert_eq!(e.error_description.as_deref(), Some("Text too long"));
            assert_eq!(e.extra, vec![("details".to_string(), "{\"text\":1}".to_string())]);
        }
        other => panic!("unexpected {:?}", other),
    }
}
