//! The request contract: what a payload provides to be sendable, the
//! request's default headers, and the errors a request can end in.

use vstd::prelude::*;

use crate::auth::AuthToken;
use crate::events::{trigger_body_text, update_body_text, TriggerEvent, UpdateEvent};
use crate::response::{bad_request_fields, success_fields, Response};

verus! {

/// The fixed endpoint all current payload types post to.
pub const EVENTS_URL: &'static str = "https://events.pagerduty.com/generic/2010-04-15/create_event.json";

/// The user-agent string attached to every request.
pub const USER_AGENT: &'static str = "hyper/0.8.0 pagerduty-rs/0.1.0";

/// The HTTP method of a request.
pub enum HttpMethod {
    Post,
}

/// Possible errors making an HTTP request and classifying the response.
#[derive(Debug)]
pub enum Error {
    /// Transport-level failure; covers network errors.
    Http,
    /// The response body did not decode as the shape its status requires.
    Deserialize,
    /// Failure while reading the response body.
    ReadResponse,
    /// A status code outside the recognized classes.
    UnexpectedApiResponse,
}

/// A short description of each error.
pub open spec fn error_text(e: Error) -> Seq<char> {
    match e {
        Error::Http => "Error making HTTP request"@,
        Error::Deserialize => "Error deserializing response as JSON"@,
        Error::ReadResponse => "Error reading response body"@,
        Error::UnexpectedApiResponse => "Unexpected API response"@,
    }
}

impl Error {
    /// A short human-readable description of the error.
    pub fn message(&self) -> (r: &'static str)
        ensures
            r@ == error_text(*self),
    {
        match self {
            Error::Http => "Error making HTTP request",
            Error::Deserialize => "Error deserializing response as JSON",
            Error::ReadResponse => "Error reading response body",
            Error::UnexpectedApiResponse => "Unexpected API response",
        }
    }
}

/// What any payload type provides to be sendable: the target URL, the HTTP
/// method, the serialized body, extra headers, and a pure classification of
/// the response from its status code and body text.
pub trait Requestable {
    type Response;

    /// The serialized body, as a spec-level value.
    spec fn body_spec(&self) -> Seq<char>;

    /// Extra caller-supplied headers for this request.
    fn headers(&self) -> (r: Vec<(String, String)>);

    /// The URL this request is sent to.
    fn url(&self) -> (r: String)
        ensures
            r@ == EVENTS_URL@,
    ;

    /// The serialized JSON body of this request.
    fn body(&self) -> (r: String)
        ensures
            r@ == self.body_spec(),
    ;

    /// The HTTP method of this request.
    fn method(&self) -> (r: HttpMethod)
        ensures
            r == (HttpMethod::Post),
    ;

    /// Classify one response for this payload type.
    fn get_response(status: u16, body: &str) -> (r: Result<Self::Response, Error>);
}

impl Requestable for TriggerEvent {
    type Response = Response;

    open spec fn body_spec(&self) -> Seq<char> {
        trigger_body_text(self@)
    }

    fn headers(&self) -> (r: Vec<(String, String)>)
        ensures
            r@.len() == 0,
    {
        Vec::new()
    }

    fn url(&self) -> (r: String) {
        EVENTS_URL.to_owned()
    }

    fn body(&self) -> (r: String) {
        self.to_json()
    }

    fn method(&self) -> (r: HttpMethod) {
        HttpMethod::Post
    }

    fn get_response(status: u16, body: &str) -> (r: Result<Response, Error>)
        ensures
            status == 200 ==> (match success_fields(body@) {
                Some(su) => r matches Ok(Response::Success(x)) && x@ == su,
                None => r == Err::<Response, Error>(Error::Deserialize),
            }),
            status == 400 ==> (match bad_request_fields(body@) {
                Some(b) => r matches Ok(Response::BadRequest(x)) && x@ == b,
                None => r == Err::<Response, Error>(Error::Deserialize),
            }),
            status == 403 ==> r == Ok::<Response, Error>(Response::Forbidden),
            500 <= status <= 599 ==> r == Ok::<Response, Error>(Response::InternalServerError),
            !(status == 200 || status == 400 || status == 403 || (500 <= status <= 599)) ==> r
                == Err::<Response, Error>(Error::UnexpectedApiResponse),
    {
        Response::get_response(status, body)
    }
}

impl Requestable for UpdateEvent {
    type Response = Response;

    open spec fn body_spec(&self) -> Seq<char> {
        update_body_text(self@)
    }

    fn headers(&self) -> (r: Vec<(String, String)>)
        ensures
            r@.len() == 0,
    {
        Vec::new()
    }

    fn url(&self) -> (r: String) {
        EVENTS_URL.to_owned()
    }

    fn body(&self) -> (r: String) {
        self.to_json()
    }

    fn method(&self) -> (r: HttpMethod) {
        HttpMethod::Post
    }

    fn get_response(status: u16, body: &str) -> (r: Result<Response, Error>)
        ensures
            status == 200 ==> (match success_fields(body@) {
                Some(su) => r matches Ok(Response::Success(x)) && x@ == su,
                None => r == Err::<Response, Error>(Error::Deserialize),
            }),
            status == 400 ==> (match bad_request_fields(body@) {
                Some(b) => r matches Ok(Response::BadRequest(x)) && x@ == b,
                None => r == Err::<Response, Error>(Error::Deserialize),
            }),
            status == 403 ==> r == Ok::<Response, Error>(Response::Forbidden),
            500 <= status <= 599 ==> r == Ok::<Response, Error>(Response::InternalServerError),
            !(status == 200 || status == 400 || status == 403 || (500 <= status <= 599)) ==> r
                == Err::<Response, Error>(Error::UnexpectedApiResponse),
    {
        Response::get_response(status, body)
    }
}

/// The full header list of a request: the payload's own headers followed by
/// the authorization header rendered from the credential, the fixed
/// user-agent string and the JSON content type.
pub fn default_headers(auth: &AuthToken, extra: Vec<(String, String)>) -> (r: Vec<
    (String, String),
>)
    ensures
        r@.len() == extra@.len() + 3,
        forall|i: int| 0 <= i < extra@.len() ==> r@[i] == extra@[i],
        r@[extra@.len() as int].0@ == "Authorization"@,
        r@[extra@.len() as int].1@ == auth@,
        r@[extra@.len() as int + 1].0@ == "User-Agent"@,
        r@[extra@.len() as int + 1].1@ == USER_AGENT@,
        r@[extra@.len() as int + 2].0@ == "Content-Type"@,
        r@[extra@.len() as int + 2].1@ == "application/json"@,
{
    let mut headers = extra;
    headers.push(("Authorization".to_owned(), auth.to_header()));
    headers.push(("User-Agent".to_owned(), USER_AGENT.to_owned()));
    headers.push(("Content-Type".to_owned(), "application/json".to_owned()));
    headers
}

} // verus!
