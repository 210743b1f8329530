use connect_1password::error::{
    op_error_from_captures, process_connect_error_response, render_status, Cause,
    ConnectAPIError, CustomError, Error, Kind, RequestNotSuccessful,
};

fn texts(items: &[&str]) -> Vec<String> {
    items.iter().map(|item| item.to_string()).collect()
}

fn groups(items: &[Option<&str>]) -> Option<Vec<Option<String>>> {
    Some(items.iter().map(|item| item.map(|text| text.to_string())).collect())
}

#[test]
fn status_reads_as_number_and_reason() {
    assert_eq!(render_status(200), "200 OK");
    assert_eq!(render_status(204), "204 No Content");
    assert_eq!(render_status(401), "401 Unauthorized");
    assert_eq!(render_status(404), "404 Not Found");
    assert_eq!(render_status(500), "500 Internal Server Error");
}

#[test]
fn status_without_a_reason_reads_as_unknown() {
    assert_eq!(render_status(299), "299 <unknown status code>");
    assert_eq!(render_status(999), "999 <unknown status code>");
}

#[test]
fn number_that_is_no_status_reads_as_unknown() {
    assert_eq!(render_status(0), "0 <unknown status code>");
    assert_eq!(render_status(99), "99 <unknown status code>");
    assert_eq!(render_status(1000), "1000 <unknown status code>");
    assert_eq!(render_status(u16::MAX), "65535 <unknown status code>");
}

#[test]
fn status_reads_as_the_http_crate_writes_it() {
    for status in 100..1000u16 {
        let code = hyper::StatusCode::from_u16(status).unwrap();
        assert_eq!(render_status(status), code.to_string());
    }
}

#[test]
fn unsuccessful_request_keeps_status_and_body() {
    let failure = RequestNotSuccessful::new(404, "{\"msg\":\"not found\"}".to_string());
    assert_eq!(failure.status, 404);
    assert_eq!(failure.body, "{\"msg\":\"not found\"}");
    assert_eq!(
        failure.to_string(),
        "StatusCode: 404 Not Found, Body: {\"msg\":\"not found\"}"
    );
}

#[test]
fn api_error_keeps_status_and_message() {
    let err = ConnectAPIError::new("401".to_string(), "Invalid bearer token");
    assert_eq!(err.status, "401");
    assert_eq!(err.message, "Invalid bearer token");
    assert_eq!(err.to_string(), "StatusCode: 401, Message: Invalid bearer token");
}

#[test]
fn custom_error_keeps_its_message() {
    let err = CustomError::new("something broke");
    assert_eq!(err.message, "something broke");
    assert_eq!(err.to_string(), "Message: something broke");
    assert_eq!(CustomError::new("").to_string(), "Message: ");
}

#[test]
fn kinds_are_named() {
    let named = [
        (Kind::CustomError(CustomError::new("m")), "CustomError"),
        (Kind::HyperError("h".to_string()), "HyperError"),
        (Kind::HyperHttpError("h".to_string()), "HyperHttpError"),
        (Kind::InternalError, "InternalError"),
        (Kind::InvalidHeaderValue, "InvalidHeaderValue"),
        (Kind::NetworkError, "NetworkError"),
        (Kind::NotImplementedError, "NotImplementedError"),
        (Kind::ParsingError, "ParsingError"),
        (Kind::RetryError, "RetryError"),
        (
            Kind::RequestNotSuccessful(RequestNotSuccessful::new(404, "b".to_string())),
            "RequestNotSuccessful",
        ),
        (Kind::SerdeJsonError("s".to_string()), "SerdeJsonError"),
        (Kind::Utf8Error, "Utf8Error"),
        (
            Kind::ConnectAPIError(ConnectAPIError::new("401".to_string(), "m")),
            "ConnectAPIError",
        ),
    ];
    for (kind, name) in named {
        assert_eq!(kind.to_string(), name);
    }
}

#[test]
fn kinds_describe_themselves() {
    let described = [
        (Kind::HyperError("h".to_string()), "this is a Hyper related error!"),
        (Kind::HyperHttpError("h".to_string()), "this is a Hyper HTTP related error!"),
        (Kind::InternalError, "internal error"),
        (Kind::InvalidHeaderValue, "invalid header value"),
        (Kind::NetworkError, "network error"),
        (Kind::NotImplementedError, "not implemented error"),
        (Kind::ParsingError, "parsing error"),
        (Kind::RetryError, "retry error"),
        (Kind::SerdeJsonError("s".to_string()), "serde deserialization error"),
        (Kind::Utf8Error, "parsing bytes experienced a UTF8 error"),
        (Kind::CustomError(CustomError::new("m")), "Error: Message: m"),
        (
            Kind::ConnectAPIError(ConnectAPIError::new("401".to_string(), "m")),
            "Connect API error: StatusCode: 401, Message: m",
        ),
        (
            Kind::RequestNotSuccessful(RequestNotSuccessful::new(500, "b".to_string())),
            "client returned an unsuccessful HTTP status code: \
             StatusCode: 500 Internal Server Error, Body: b",
        ),
    ];
    for (kind, description) in described {
        let err = Error::new(kind);
        assert_eq!(err.message(), description);
        assert_eq!(err.to_string(), description);
    }
}

#[test]
fn new_error_has_no_cause() {
    let err = Error::new(Kind::NetworkError);
    assert!(matches!(err.kind, Kind::NetworkError));
    assert!(err.cause.is_none());
    assert!(err.source().is_none());
}

#[test]
fn cause_follows_the_message_after_a_colon() {
    let err = Error::new_network_error(Cause::Message("connection refused".to_string()));
    assert!(matches!(err.kind, Kind::NetworkError));
    assert_eq!(err.message(), "network error");
    assert_eq!(err.to_string(), "network error: connection refused");
    assert!(matches!(err.source(), Some(Cause::Message(report)) if report == "connection refused"));
}

#[test]
fn with_replaces_the_cause() {
    let err = Error::new(Kind::RetryError)
        .with(Cause::Message("first".to_string()))
        .with(Cause::Message("second".to_string()));
    assert_eq!(err.to_string(), "retry error: second");
}

#[test]
fn errors_by_kind() {
    let parsing = Error::new_parsing_error(Cause::Message("eof".to_string()));
    assert!(matches!(parsing.kind, Kind::ParsingError));
    assert_eq!(parsing.to_string(), "parsing error: eof");
    let retry = Error::new_retry_error(Cause::Custom(CustomError::new("again")));
    assert!(matches!(retry.kind, Kind::RetryError));
    assert_eq!(retry.to_string(), "retry error: Message: again");
    let internal = Error::new_internal_error();
    assert!(matches!(internal.kind, Kind::InternalError));
    assert!(internal.cause.is_none());
    let api = Error::new_connect_error(ConnectAPIError::new("403".to_string(), "no"));
    assert!(matches!(&api.kind, Kind::ConnectAPIError(inner) if inner.status == "403"));
    assert!(api.cause.is_none());
}

#[test]
fn nested_cause_renders_in_full() {
    let inner = Error::new_parsing_error(Cause::Message("eof".to_string()));
    let outer = Error::new_internal_error().with(Cause::Nested(Box::new(inner)));
    assert_eq!(outer.message(), "internal error");
    assert_eq!(outer.to_string(), "internal error: parsing error: eof");
}

#[test]
fn custom_failure_is_found_on_the_chain_of_causes() {
    let innermost = Error::new_internal_error().with(Cause::Custom(CustomError::new("root")));
    let middle = Error::new(Kind::RetryError).with(Cause::Nested(Box::new(innermost)));
    let outer = Error::new(Kind::NetworkError).with(Cause::Nested(Box::new(middle)));
    assert_eq!(outer.find_source().map(|found| found.message.as_str()), Some("root"));
}

#[test]
fn chain_without_a_custom_failure_has_none_to_find() {
    assert!(Error::new(Kind::NetworkError).find_source().is_none());
    let message = Error::new(Kind::NetworkError).with(Cause::Message("x".to_string()));
    assert!(message.find_source().is_none());
    let inner = Error::new(Kind::CustomError(CustomError::new("kind, not cause")));
    let outer = Error::new_internal_error().with(Cause::Nested(Box::new(inner)));
    assert!(outer.find_source().is_none());
}

#[test]
fn error_from_a_custom_error() {
    let err = Error::from(CustomError::new("m"));
    assert!(matches!(&err.kind, Kind::CustomError(inner) if inner.message == "m"));
    assert!(err.cause.is_none());
    assert_eq!(err.to_string(), "Error: Message: m");
}

#[test]
fn error_from_an_unsuccessful_request() {
    let err = Error::from(RequestNotSuccessful::new(401, "{}".to_string()));
    assert!(matches!(&err.kind, Kind::RequestNotSuccessful(inner) if inner.status == 401));
    assert!(err.cause.is_none());
}

#[test]
fn custom_error_from_an_error() {
    let err = Error::new_network_error(Cause::Message("down".to_string()));
    let custom = CustomError::from(err);
    assert_eq!(custom.message, "Internal error: network error: down");
    let custom = CustomError::from(Error::new_internal_error());
    assert_eq!(custom.message, "Internal error: internal error");
}

#[test]
fn errors_from_an_invalid_header_value() {
    let invalid = hyper::header::HeaderValue::from_str("\n").unwrap_err();
    let err = Error::from(invalid);
    assert!(matches!(err.kind, Kind::InvalidHeaderValue));
    assert!(err.cause.is_none());
    let invalid = hyper::header::HeaderValue::from_str("\n").unwrap_err();
    assert_eq!(CustomError::from(invalid).message, "InvalidHeaderValue");
}

#[test]
fn status_code_is_read_out_of_a_rendering() {
    let err = Error::from(RequestNotSuccessful::new(401, "{\"message\":\"no\"}".to_string()));
    let op = process_connect_error_response(err.to_string()).unwrap();
    assert_eq!(op.status_code, Some(401));
    assert_eq!(op.captures, Some(texts(&["StatusCode", "401"])));
}

#[test]
fn status_code_is_read_after_any_white_space() {
    let op = process_connect_error_response("StatusCode: \t\n 204 rest".to_string()).unwrap();
    assert_eq!(op.status_code, Some(204));
    assert_eq!(op.captures, Some(texts(&["StatusCode", "204"])));
}

#[test]
fn first_status_code_is_the_one_read() {
    let op = process_connect_error_response(
        "StatusCode: 404, then StatusCode: 500".to_string(),
    )
    .unwrap();
    assert_eq!(op.status_code, Some(404));
}

#[test]
fn rendering_without_a_status_code_has_none() {
    for text in ["", "internal error", "StatusCode:404", "StatusCode: x", "statuscode: 1"] {
        let op = process_connect_error_response(text.to_string()).unwrap();
        assert_eq!(op.status_code, None);
        assert_eq!(op.captures, None);
    }
}

#[test]
fn status_code_that_is_no_number_of_16_bits_is_a_parsing_error() {
    let err = process_connect_error_response("StatusCode: 65536".to_string()).unwrap_err();
    assert!(matches!(err.kind, Kind::ParsingError));
    assert!(err.cause.is_none());
    let err = process_connect_error_response("StatusCode: ٣".to_string()).unwrap_err();
    assert!(matches!(err.kind, Kind::ParsingError));
    let op = process_connect_error_response("StatusCode: 65535".to_string()).unwrap();
    assert_eq!(op.status_code, Some(65535));
}

#[test]
fn nothing_found_is_neither_status_nor_captures() {
    let op = op_error_from_captures(None).unwrap();
    assert_eq!(op.status_code, None);
    assert_eq!(op.captures, None);
}

#[test]
fn two_captures_name_a_status_code() {
    let op = op_error_from_captures(groups(&[
        Some("StatusCode: 404"),
        Some("StatusCode"),
        Some("404"),
    ]))
    .unwrap();
    assert_eq!(op.status_code, Some(404));
    assert_eq!(op.captures, Some(texts(&["StatusCode", "404"])));
}

#[test]
fn groups_that_took_no_part_are_left_out() {
    let op = op_error_from_captures(groups(&[
        Some("whole"),
        None,
        Some("StatusCode"),
        None,
        Some("7"),
    ]))
    .unwrap();
    assert_eq!(op.status_code, Some(7));
    assert_eq!(op.captures, Some(texts(&["StatusCode", "7"])));
}

#[test]
fn whole_match_is_no_capture() {
    let op = op_error_from_captures(groups(&[Some("StatusCode"), Some("404")])).unwrap();
    assert_eq!(op.status_code, None);
    assert_eq!(op.captures, Some(texts(&["404"])));
    let op = op_error_from_captures(groups(&[None, Some("StatusCode"), Some("404")])).unwrap();
    assert_eq!(op.status_code, Some(404));
}

#[test]
fn other_captures_name_no_status_code() {
    let op = op_error_from_captures(groups(&[Some("w"), Some("Status"), Some("404")])).unwrap();
    assert_eq!(op.status_code, None);
    assert_eq!(op.captures, Some(texts(&["Status", "404"])));
    let op = op_error_from_captures(groups(&[
        Some("w"),
        Some("StatusCode"),
        Some("404"),
        Some("x"),
    ]))
    .unwrap();
    assert_eq!(op.status_code, None);
    assert_eq!(op.captures, Some(texts(&["StatusCode", "404", "x"])));
    let op = op_error_from_captures(groups(&[Some("w"), Some("StatusCode")])).unwrap();
    assert_eq!(op.status_code, None);
    let op = op_error_from_captures(groups(&[])).unwrap();
    assert_eq!(op.status_code, None);
    assert_eq!(op.captures, Some(texts(&[])));
    let op = op_error_from_captures(groups(&[Some("w")])).unwrap();
    assert_eq!(op.captures, Some(texts(&[])));
}

#[test]
fn capture_that_is_no_numeral_is_a_parsing_error() {
    let err = op_error_from_captures(groups(&[Some("w"), Some("StatusCode"), Some("4o4")]))
        .unwrap_err();
    assert!(matches!(err.kind, Kind::ParsingError));
    let err = op_error_from_captures(groups(&[Some("w"), Some("StatusCode"), Some("70000")]))
        .unwrap_err();
    assert!(matches!(err.kind, Kind::ParsingError));
    let op = op_error_from_captures(groups(&[Some("w"), Some("StatusCode"), Some("+42")]))
        .unwrap();
    assert_eq!(op.status_code, Some(42));
}
