use pagerduty::{AuthToken, Error, Response};
use pagerduty::request::default_headers;

#[test]
fn status_200_decodes_success() {
    let body = r#"{"status":"success","message":"Event processed","incident_key":"KEY123"}"#;
    match Response::get_response(200, body) {
        Ok(Response::Success(s)) => {
            assert_eq!(s.status, "success");
            assert_eq!(s.message, "Event processed");
            assert_eq!(s.incident_key, "KEY123");
        }
        _ => panic!("expected a success response"),
    }
}

#[test]
fn status_400_decodes_bad_request() {
    let body =
        r#"{"status":"invalid event","message":"Event object is invalid","errors":["service_key is missing"]}"#;
    match Response::get_response(400, body) {
        Ok(Response::BadRequest(b)) => {
            assert_eq!(b.status, "invalid event");
            assert_eq!(b.message, "Event object is invalid");
            assert_eq!(b.errors, vec!["service_key is missing".to_string()]);
        }
        _ => panic!("expected a bad-request response"),
    }
}

#[test]
fn status_403_is_forbidden_ignoring_body() {
    match Response::get_response(403, "") {
        Ok(Response::Forbidden) => {}
        _ => panic!("expected forbidden"),
    }
    match Response::get_response(403, "any body at all") {
        Ok(Response::Forbidden) => {}
        _ => panic!("expected forbidden"),
    }
}

#[test]
fn server_error_class_is_internal_server_error() {
    match Response::get_response(500, "") {
        Ok(Response::InternalServerError) => {}
        _ => panic!("expected internal server error"),
    }
    match Response::get_response(503, "busy") {
        Ok(Response::InternalServerError) => {}
        _ => panic!("expected internal server error"),
    }
    match Response::get_response(599, "") {
        Ok(Response::InternalServerError) => {}
        _ => panic!("expected internal server error"),
    }
}

#[test]
fn unexpected_status_is_an_error() {
    match Response::get_response(418, "whatever") {
        Err(Error::UnexpectedApiResponse) => {}
        _ => panic!("expected the unexpected-status error"),
    }
    match Response::get_response(301, "") {
        Err(Error::UnexpectedApiResponse) => {}
        _ => panic!("expected the unexpected-status error"),
    }
}

#[test]
fn undecodable_body_is_a_deserialize_error() {
    match Response::get_response(200, "not json at all") {
        Err(Error::Deserialize) => {}
        _ => panic!("expected a deserialize error"),
    }
    // A 200 body missing its required fields does not decode either.
    match Response::get_response(200, r#"{"status":"success"}"#) {
        Err(Error::Deserialize) => {}
        _ => panic!("expected a deserialize error"),
    }
    match Response::get_response(400, r#"{"status":"invalid event","message":"m","errors":[1]}"#) {
        Err(Error::Deserialize) => {}
        _ => panic!("expected a deserialize error"),
    }
}

#[test]
fn error_messages() {
    assert_eq!(Error::Http.message(), "Error making HTTP request");
    assert_eq!(Error::Deserialize.message(), "Error deserializing response as JSON");
    assert_eq!(Error::ReadResponse.message(), "Error reading response body");
    assert_eq!(Error::UnexpectedApiResponse.message(), "Unexpected API response");
}

#[test]
fn default_headers_follow_the_payload_headers() {
    let auth = AuthToken::new("tok");
    let extra = vec![("X-Extra".to_string(), "1".to_string())];
    let headers = default_headers(&auth, extra);
    assert_eq!(headers.len(), 4);
    assert_eq!(headers[0], ("X-Extra".to_string(), "1".to_string()));
    assert_eq!(headers[1], ("Authorization".to_string(), "tok".to_string()));
    assert_eq!(
        headers[2],
        ("User-Agent".to_string(), "hyper/0.8.0 pagerduty-rs/0.1.0".to_string())
    );
    assert_eq!(
        headers[3],
        ("Content-Type".to_string(), "application/json".to_string())
    );
}
