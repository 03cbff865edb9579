//! Response classification for the integration API.
//!
//! A response is classified from its HTTP status code and body text alone:
//! 200 decodes the body as a success record, 400 as a bad-request record,
//! 403 is rate limiting, any server-error status is an internal server
//! error, and every other status is a protocol-level error.

use vstd::prelude::*;

use crate::request::Error;

verus! {

/// Spec-level value of a success response body.
pub struct SuccessView {
    pub status: Seq<char>,
    pub message: Seq<char>,
    pub incident_key: Seq<char>,
}

/// Body of a well-formed (HTTP 200) response: the key of the incident that
/// will be affected by the request, echoed back with a status and message.
#[derive(Debug)]
pub struct Success {
    /// The string `"success"`.
    pub status: String,
    /// A description of the outcome.
    pub message: String,
    /// The key of the incident that will be affected by the request.
    pub incident_key: String,
}

impl View for Success {
    type V = SuccessView;

    open spec fn view(&self) -> SuccessView {
        SuccessView {
            status: self.status@,
            message: self.message@,
            incident_key: self.incident_key@,
        }
    }
}

/// Spec-level value of a bad-request response body.
pub struct BadRequestView {
    pub status: Seq<char>,
    pub message: Seq<char>,
    pub errors: Seq<Seq<char>>,
}

/// The view of a list of strings.
pub open spec fn strs_view(s: Seq<String>) -> Seq<Seq<char>> {
    s.map_values(|x: String| x@)
}

/// Body of an invalid-request (HTTP 400) response.
#[derive(Debug)]
pub struct BadRequest {
    /// The string `"invalid event"`.
    pub status: String,
    /// A description of the problem.
    pub message: String,
    /// Specific per-field error messages.
    pub errors: Vec<String>,
}

impl View for BadRequest {
    type V = BadRequestView;

    open spec fn view(&self) -> BadRequestView {
        BadRequestView {
            status: self.status@,
            message: self.message@,
            errors: strs_view(self.errors@),
        }
    }
}

/// A response from the integration API: the closed set of outcomes.
#[derive(Debug)]
pub enum Response {
    Success(Success),
    BadRequest(BadRequest),
    Forbidden,
    InternalServerError,
}

/// The success record encoded in a response body, if the body decodes as
/// one: an object carrying string fields `status`, `message` and
/// `incident_key`.
pub uninterp spec fn success_fields(body: Seq<char>) -> Option<SuccessView>;

/// The bad-request record encoded in a response body, if the body decodes
/// as one: an object carrying string fields `status` and `message` and a
/// string-array field `errors`.
pub uninterp spec fn bad_request_fields(body: Seq<char>) -> Option<BadRequestView>;

/// Relies on serde_json (`from_str`, `Value::get`, `Value::as_str`): decodes
/// the documented success shape. The result depends on the body text alone.
#[verifier::external_body]
fn decode_success(body: &str) -> (r: Option<Success>)
    ensures
        r is Some <==> success_fields(body@) is Some,
        r is Some ==> (r->0)@ == success_fields(body@)->0,
{
    let v: serde_json::Value = serde_json::from_str(body).ok()?;
    let status = v.get("status")?.as_str()?.to_owned();
    let message = v.get("message")?.as_str()?.to_owned();
    let incident_key = v.get("incident_key")?.as_str()?.to_owned();
    Some(Success { status, message, incident_key })
}

/// Relies on serde_json (`from_str`, `Value::get`, `Value::as_str`,
/// `Value::as_array`): decodes the documented bad-request shape. The result
/// depends on the body text alone.
#[verifier::external_body]
fn decode_bad_request(body: &str) -> (r: Option<BadRequest>)
    ensures
        r is Some <==> bad_request_fields(body@) is Some,
        r is Some ==> (r->0)@ == bad_request_fields(body@)->0,
{
    let v: serde_json::Value = serde_json::from_str(body).ok()?;
    let status = v.get("status")?.as_str()?.to_owned();
    let message = v.get("message")?.as_str()?.to_owned();
    let raw_errors = v.get("errors")?.as_array()?;
    let mut errors = Vec::with_capacity(raw_errors.len());
    for e in raw_errors {
        errors.push(e.as_str()?.to_owned());
    }
    Some(BadRequest { status, message, errors })
}

impl Response {
    /// Classify one HTTP response from its status code and body text.
    ///
    /// Status 200 and 400 decode the body, and a body that does not decode
    /// as the required shape is a `Deserialize` error; 403 and the server
    /// error class ignore the body; every other status is an
    /// `UnexpectedApiResponse` error.
    pub fn get_response(status: u16, body: &str) -> (r: Result<Response, Error>)
        ensures
            status == 200 ==> (match success_fields(body@) {
                Some(s) => r matches Ok(Response::Success(x)) && x@ == s,
                None => r == Err::<Response, Error>(Error::Deserialize),
            }),
            status == 400 ==> (match bad_request_fields(body@) {
                Some(b) => r matches Ok(Response::BadRequest(x)) && x@ == b,
                None => r == Err::<Response, Error>(Error::Deserialize),
            }),
            status == 403 ==> r == Ok::<Response, Error>(Response::Forbidden),
            500 <= status <= 599 ==> r == Ok::<Response, Error>(Response::InternalServerError),
            !(status == 200 || status == 400 || status == 403 || (500 <= status <= 599)) ==> r
                == Err::<Response, Error>(Error::UnexpectedApiResponse),
    {
        if status == 200 {
            match decode_success(body) {
                Some(s) => Ok(Response::Success(s)),
                None => Err(Error::Deserialize),
            }
        } else if status == 400 {
            match decode_bad_request(body) {
                Some(b) => Ok(Response::BadRequest(b)),
                None => Err(Error::Deserialize),
            }
        } else if status == 403 {
            Ok(Response::Forbidden)
        } else if 500 <= status && status <= 599 {
            Ok(Response::InternalServerError)
        } else {
            Err(Error::UnexpectedApiResponse)
        }
    }
}

} // verus!
