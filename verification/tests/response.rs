use connect_1password::client::RawResponse;
use connect_1password::error::{Cause, Error, Kind};
use connect_1password::response::{
    classify, decode_response, effective_body, status_is_success, NO_CONTENT, OK,
};
use serde_json::{Number, Value};

fn response(status: u16, body: &[u8]) -> RawResponse {
    RawResponse { status, body: body.to_vec() }
}

/// Decodes the body as `T`, the way a caller of the library does.
fn decode<T: serde::de::DeserializeOwned>(
    status: u16,
    body: &[u8],
) -> Result<(T, Value), Error> {
    let effective = effective_body(body.to_vec());
    let typed = serde_json::from_slice::<T>(&effective).map_err(|err| err.to_string());
    decode_response(response(status, body), typed)
}

fn object(pairs: &[(&str, Value)]) -> Value {
    let mut map = serde_json::Map::new();
    for (key, value) in pairs {
        map.insert(key.to_string(), value.clone());
    }
    Value::Object(map)
}

#[test]
fn success_is_200_and_204() {
    assert_eq!(OK, 200);
    assert_eq!(NO_CONTENT, 204);
    assert!(status_is_success(200));
    assert!(status_is_success(204));
    for status in [0u16, 100, 199, 201, 202, 203, 205, 299, 301, 400, 404, 500, 999, u16::MAX] {
        assert!(!status_is_success(status));
    }
}

#[test]
fn empty_body_stands_for_the_empty_object() {
    assert_eq!(effective_body(vec![]), b"{}".to_vec());
}

#[test]
fn other_bodies_stand_for_themselves() {
    assert_eq!(effective_body(b"[]".to_vec()), b"[]".to_vec());
    assert_eq!(effective_body(b" ".to_vec()), b" ".to_vec());
    assert_eq!(effective_body(b"{}".to_vec()), b"{}".to_vec());
    assert_eq!(effective_body(vec![0xff]), vec![0xff]);
}

#[test]
fn empty_body_decodes_as_the_empty_object() {
    let (value, raw) = decode::<serde_json::Map<String, Value>>(200, b"").unwrap();
    assert!(value.is_empty());
    assert_eq!(raw, Value::Object(serde_json::Map::new()));
    assert_eq!(raw.to_string(), "{}");
}

#[test]
fn empty_object_decodes_as_the_empty_object() {
    let (value, raw) = decode::<serde_json::Map<String, Value>>(200, b"{}").unwrap();
    assert!(value.is_empty());
    assert_eq!(raw, Value::Object(serde_json::Map::new()));
}

#[test]
fn no_content_with_an_empty_body_succeeds() {
    let (value, raw) = decode::<Value>(204, b"").unwrap();
    assert_eq!(value, Value::Object(serde_json::Map::new()));
    assert_eq!(raw, Value::Object(serde_json::Map::new()));
}

#[test]
fn value_and_raw_json_hold_the_same_payload() {
    let body = b"{\"id\":\"abc\",\"n\":3,\"tags\":[\"x\",null,true]}";
    let (value, raw) = decode::<Value>(200, body).unwrap();
    let expected = object(&[
        ("id", Value::String("abc".to_string())),
        ("n", Value::Number(Number::from(3))),
        (
            "tags",
            Value::Array(vec![Value::String("x".to_string()), Value::Null, Value::Bool(true)]),
        ),
    ]);
    assert_eq!(raw, expected);
    assert_eq!(value, expected);
}

#[test]
fn raw_json_keeps_what_the_value_does_not_map() {
    let (value, raw) = decode::<Vec<u32>>(200, b"[1, 2, 3]").unwrap();
    assert_eq!(value, vec![1, 2, 3]);
    assert_eq!(
        raw,
        Value::Array(vec![
            Value::Number(Number::from(1)),
            Value::Number(Number::from(2)),
            Value::Number(Number::from(3)),
        ])
    );
}

#[test]
fn not_found_with_a_json_body_is_an_unsuccessful_request() {
    let err = decode::<Value>(404, b"{\"msg\":\"not found\"}").unwrap_err();
    match &err.kind {
        Kind::RequestNotSuccessful(failure) => {
            assert_eq!(failure.status, 404);
            assert_eq!(failure.body, "{\"msg\":\"not found\"}");
        }
        other => panic!("unexpected kind {:?}", other),
    }
    assert!(err.cause.is_none());
    assert_eq!(
        err.to_string(),
        "client returned an unsuccessful HTTP status code: StatusCode: 404 Not Found, \
         Body: {\"msg\":\"not found\"}"
    );
}

#[test]
fn failure_with_an_empty_body_reports_the_empty_object() {
    let err = decode::<Value>(500, b"").unwrap_err();
    match &err.kind {
        Kind::RequestNotSuccessful(failure) => {
            assert_eq!(failure.status, 500);
            assert_eq!(failure.body, "{}");
        }
        other => panic!("unexpected kind {:?}", other),
    }
}

#[test]
fn every_status_but_200_and_204_is_an_unsuccessful_request() {
    for status in [100u16, 201, 202, 301, 400, 401, 403, 404, 409, 500, 502, 503] {
        let err = decode::<Value>(status, b"{\"ok\":true}").unwrap_err();
        assert!(
            matches!(&err.kind, Kind::RequestNotSuccessful(failure) if failure.status == status)
        );
    }
}

#[test]
fn body_that_is_no_json_is_a_parsing_error() {
    let err = decode::<Value>(200, b"not json").unwrap_err();
    assert!(matches!(err.kind, Kind::ParsingError));
    match &err.cause {
        Some(Cause::Message(report)) => {
            assert_eq!(report, "expected ident at line 1 column 2")
        }
        other => panic!("unexpected cause {:?}", other),
    }
    assert_eq!(
        err.to_string(),
        "parsing error: expected ident at line 1 column 2"
    );
}

#[test]
fn body_that_is_no_json_is_a_parsing_error_whatever_the_status() {
    for status in [200u16, 204, 404, 500] {
        let err = decode::<Value>(status, b"<html>").unwrap_err();
        assert!(matches!(err.kind, Kind::ParsingError));
    }
}

#[test]
fn truncated_json_is_a_parsing_error() {
    let err = decode::<Value>(200, b"{\"a\":").unwrap_err();
    assert!(matches!(err.kind, Kind::ParsingError));
    let err = decode::<Value>(200, b" ").unwrap_err();
    assert!(matches!(err.kind, Kind::ParsingError));
}

#[test]
fn body_that_is_no_text_is_a_parsing_error() {
    let err = decode::<Value>(200, &[0xff, 0xfe]).unwrap_err();
    assert!(matches!(err.kind, Kind::ParsingError));
    let err = decode::<Value>(200, &[b'"', 0xff, b'"']).unwrap_err();
    assert!(matches!(err.kind, Kind::ParsingError));
}

#[test]
fn json_that_is_not_the_value_asked_for_is_a_parsing_error() {
    let err = decode::<Vec<u32>>(200, b"{\"a\":1}").unwrap_err();
    assert!(matches!(err.kind, Kind::ParsingError));
    assert!(matches!(&err.cause, Some(Cause::Message(report)) if !report.is_empty()));
    assert_eq!(err.message(), "parsing error");
}

#[test]
fn status_is_told_before_the_value_is_looked_at() {
    let err = decode::<Vec<u32>>(404, b"{\"a\":1}").unwrap_err();
    assert!(matches!(&err.kind, Kind::RequestNotSuccessful(failure) if failure.status == 404));
}

#[test]
fn classify_reports_the_document_first() {
    let outcome = classify::<u8>(
        404,
        Err("bad json".to_string()),
        Err("bad text".to_string()),
        Err("bad value".to_string()),
    );
    let err = outcome.unwrap_err();
    assert!(matches!(err.kind, Kind::ParsingError));
    assert!(matches!(&err.cause, Some(Cause::Message(report)) if report == "bad json"));
}

#[test]
fn classify_reports_the_text_second() {
    let outcome = classify::<u8>(
        404,
        Ok(Value::Null),
        Err("bad text".to_string()),
        Err("bad value".to_string()),
    );
    let err = outcome.unwrap_err();
    assert!(matches!(err.kind, Kind::Utf8Error));
    assert!(matches!(&err.cause, Some(Cause::Message(report)) if report == "bad text"));
    assert_eq!(
        err.to_string(),
        "parsing bytes experienced a UTF8 error: bad text"
    );
}

#[test]
fn classify_reports_the_status_third() {
    let outcome = classify::<u8>(
        404,
        Ok(Value::Null),
        Ok("null".to_string()),
        Err("bad value".to_string()),
    );
    let err = outcome.unwrap_err();
    match err.kind {
        Kind::RequestNotSuccessful(failure) => {
            assert_eq!(failure.status, 404);
            assert_eq!(failure.body, "null");
        }
        other => panic!("unexpected kind {:?}", other),
    }
    assert!(err.cause.is_none());
}

#[test]
fn classify_reports_the_value_last() {
    let outcome = classify::<u8>(
        200,
        Ok(Value::Null),
        Ok("null".to_string()),
        Err("bad value".to_string()),
    );
    let err = outcome.unwrap_err();
    assert!(matches!(err.kind, Kind::ParsingError));
    assert!(matches!(&err.cause, Some(Cause::Message(report)) if report == "bad value"));
}

#[test]
fn classify_hands_out_value_and_raw_json() {
    let outcome = classify::<u8>(
        204,
        Ok(Value::Bool(true)),
        Ok("true".to_string()),
        Ok(7),
    );
    assert_eq!(outcome.unwrap(), (7, Value::Bool(true)));
}
