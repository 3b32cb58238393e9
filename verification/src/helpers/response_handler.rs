use crate::errors::ApiError;
use crate::responses::response::ApiResponse;
use crate::responses::response_types::{ApiResponseType, ResponseKind};
use crate::text::{decimal, is_digit, lemma_parsed_i32_of_decimal, parse_i32, parsed_i32};
use vstd::prelude::*;
use vstd::string::*;

verus! {

/// Status with which the service rejects an API key.
pub const UNAUTHORIZED: u16 = 401;

/// Status with which the service reports a failure of its own.
pub const INTERNAL_SERVER_ERROR: u16 = 500;

/// `serde_json::Error`, what the JSON decoder reports. It is carried
/// through and never looked into.
#[verifier::external_type_specification]
#[verifier::external_body]
pub struct ExJsonError(serde_json::Error);

/// `serde_path_to_error::Error`, a decoder's report together with the place
/// in the document it is about. It is carried through and never looked into.
#[verifier::external_type_specification]
#[verifier::external_body]
#[verifier::reject_recursive_types(E)]
pub struct ExPathError<E>(serde_path_to_error::Error<E>);

/// Name of the header in which the service says how many requests it still
/// allows.
pub fn rate_limit_header() -> (name: &'static str)
    ensures
        name@ == "x-ratelimit-remaining"@,
{
    "x-ratelimit-remaining"
}

/// The value of the first header with a given name, if there is one.
/// Names are compared as they stand: a transport hands them out in lower
/// case.
pub open spec fn header_value(headers: Seq<(String, String)>, name: Seq<char>) -> Option<
    Seq<char>,
>
    decreases headers.len(),
{
    if headers.len() == 0 {
        None
    } else if headers[0].0@ == name {
        Some(headers[0].1@)
    } else {
        header_value(headers.skip(1), name)
    }
}

/// Looks a header up by its name.
pub fn get_header<'a>(headers: &'a Vec<(String, String)>, name: &str) -> (value: Option<&'a str>)
    ensures
        match value {
            Some(text) => header_value(headers@, name@) == Some(text@),
            None => header_value(headers@, name@).is_none(),
        },
{
    let wanted = String::from_str(name);
    let mut i: usize = 0;
    assert(headers@.skip(0) =~= headers@);
    while i < headers.len()
        invariant
            i <= headers.len(),
            wanted@ == name@,
            header_value(headers@, name@) == header_value(headers@.skip(i as int), name@),
        decreases headers.len() - i,
    {
        if headers[i].0 == wanted {
            return Some(headers[i].1.as_str());
        }
        assert(headers@.skip(i as int).skip(1) =~= headers@.skip(i as int + 1));
        i += 1;
    }
    None
}

/// The number that a header value states: the 32-bit integer it denotes, and
/// none where there is no value or the value denotes no such integer.
pub open spec fn stated_number(value: Option<Seq<char>>) -> Option<i32> {
    match value {
        Some(text) => parsed_i32(text),
        None => None,
    }
}

/// The number of requests left that the headers of an answer state: what
/// the rate-limit header states, and none where the header is missing or
/// states no number.
pub open spec fn rate_limit_of(headers: Seq<(String, String)>) -> Option<i32> {
    stated_number(header_value(headers, "x-ratelimit-remaining"@))
}

/// Reads the number of requests left from the headers of an answer. A
/// missing or unreadable header is no error: it states nothing.
pub fn extraxt_rate_limit(headers: &Vec<(String, String)>) -> (rate_limit: Option<i32>)
    ensures
        rate_limit == rate_limit_of(headers@),
{
    match get_header(headers, rate_limit_header()) {
        Some(value) => parse_i32(value),
        None => None,
    }
}

/// Without a rate-limit header nothing is stated.
pub proof fn lemma_rate_limit_of_missing_header(headers: Seq<(String, String)>)
    requires
        header_value(headers, "x-ratelimit-remaining"@).is_none(),
    ensures
        rate_limit_of(headers).is_none(),
{
}

/// A header that holds a number as the library writes numbers states that
/// number.
pub proof fn lemma_rate_limit_of_decimal(headers: Seq<(String, String)>, n: i32)
    requires
        header_value(headers, "x-ratelimit-remaining"@) == Some(decimal(n as int)),
    ensures
        rate_limit_of(headers) == Some(n),
{
    lemma_parsed_i32_of_decimal(n);
}

/// A header with a character that is not a digit states no number, unless
/// that character is a sign in first place. Such a header is no error: it
/// states nothing.
pub proof fn lemma_rate_limit_of_non_numeric(headers: Seq<(String, String)>, i: int)
    requires
        header_value(headers, "x-ratelimit-remaining"@) matches Some(value) && 0 <= i
            < value.len() && !is_digit(value[i]) && (i > 0 || (value[0] != '+' && value[0]
            != '-')),
    ensures
        rate_limit_of(headers).is_none(),
{
    let s = header_value(headers, "x-ratelimit-remaining"@).unwrap();
    if s[0] == '-' || s[0] == '+' {
        assert(s.skip(1)[i - 1] == s[i]);
    }
}

/// Whether the body of an answer with this status is looked at at all: an
/// answer that rejects the API key is not read any further.
pub fn body_is_read(status: u16) -> (read: bool)
    ensures
        read == (status != UNAUTHORIZED),
{
    status != UNAUTHORIZED
}

/// The error that a failure of the service amounts to: its body as it came,
/// or, where even the body could not be read, what the transport reported.
pub open spec fn server_error_of(body: Result<String, String>) -> ApiError {
    match body {
        Ok(text) => ApiError::ServerError(text),
        Err(cause) => ApiError::TransportError(cause),
    }
}

/// Turns the body of a failure answer into the error to report.
pub fn extract_error(body: Result<String, String>) -> (error: ApiError)
    ensures
        error == server_error_of(body),
{
    match body {
        Ok(text) => ApiError::ServerError(text),
        Err(cause) => ApiError::TransportError(cause),
    }
}

/// What an answer amounts to before its body is decoded.
///
/// A rejected key is reported whatever the body holds. A failure of the
/// service is reported with its body. For every other status the result is
/// the body's text and the number of requests left, or a transport error
/// where the body could not be read.
pub open spec fn raw_response_of(
    status: u16,
    headers: Seq<(String, String)>,
    body: Result<String, String>,
) -> Result<(String, Option<i32>), ApiError> {
    if status == UNAUTHORIZED {
        Err(ApiError::InvalidCredentials)
    } else if status == INTERNAL_SERVER_ERROR {
        Err(server_error_of(body))
    } else {
        match body {
            Ok(text) => Ok((text, rate_limit_of(headers))),
            Err(cause) => Err(ApiError::TransportError(cause)),
        }
    }
}

/// Classifies an answer by its status and hands out its text and the number
/// of requests left.
///
/// `headers` are the headers of the answer, each with its name and value;
/// `body` is the text of the body, or what the transport reported when
/// reading it failed.
pub fn parse_raw_response(
    status: u16,
    headers: &Vec<(String, String)>,
    body: Result<String, String>,
) -> (r: Result<(String, Option<i32>), ApiError>)
    ensures
        r == raw_response_of(status, headers@, body),
{
    if status == UNAUTHORIZED {
        return Err(ApiError::InvalidCredentials);
    }
    if status == INTERNAL_SERVER_ERROR {
        return Err(extract_error(body));
    }
    let rate_limit = extraxt_rate_limit(headers);
    match body {
        Ok(text) => Ok((text, rate_limit)),
        Err(cause) => Err(ApiError::TransportError(cause)),
    }
}

/// A rejected key is reported whatever else the answer holds.
pub proof fn lemma_unauthorized_whatever_the_body(
    headers: Seq<(String, String)>,
    body: Result<String, String>,
)
    ensures
        raw_response_of(UNAUTHORIZED, headers, body) == Err::<
            (String, Option<i32>),
            ApiError,
        >(ApiError::InvalidCredentials),
{
}

/// The place in the document at which a decoding failed: the path of
/// members and indices that leads there, as the failure writes it.
pub uninterp spec fn failure_place(
    failure: serde_path_to_error::Error<serde_json::Error>,
) -> Seq<char>;

/// What the decoder found wrong where a decoding failed, as the failure
/// writes it.
pub uninterp spec fn failure_report(
    failure: serde_path_to_error::Error<serde_json::Error>,
) -> Seq<char>;

/// `serde_path_to_error::Error::path`, written out through the path's
/// `Display`: the place in the document at which decoding failed. The text
/// is a function of the failure alone; nothing else is claimed about it. It
/// may be empty: a member's name is written as it stands.
#[verifier::external_body]
fn failure_path(failure: &serde_path_to_error::Error<serde_json::Error>) -> (path: String)
    ensures
        path@ == failure_place(*failure),
{
    failure.path().to_string()
}

/// `serde_path_to_error::Error::inner`, written out through the `Display` of
/// `serde_json::Error`: what the decoder found wrong. The text is a function
/// of the failure alone; nothing else is claimed about it.
#[verifier::external_body]
fn failure_message(failure: &serde_path_to_error::Error<serde_json::Error>) -> (message: String)
    ensures
        message@ == failure_report(*failure),
{
    failure.inner().to_string()
}

/// Whether a result is the decode error that reports a failure: an error
/// whose path is the place at which decoding failed and whose message is
/// what the decoder found wrong there.
pub open spec fn is_decode_error_of<T>(
    failure: serde_path_to_error::Error<serde_json::Error>,
    r: Result<T, ApiError>,
) -> bool {
    r matches Err(ApiError::DecodeError { path, message }) && path@ == failure_place(failure)
        && message@ == failure_report(failure)
}

/// What the outcome of decoding a body amounts to: a decoded value as it
/// is, a failure as the decode error that reports it.
pub open spec fn decoded_as<T>(
    decoded: Result<T, serde_path_to_error::Error<serde_json::Error>>,
    r: Result<T, ApiError>,
) -> bool {
    match decoded {
        Ok(value) => r == Ok::<T, ApiError>(value),
        Err(failure) => is_decode_error_of(failure, r),
    }
}

/// Turns the outcome of decoding a body into the library's result: a decoded
/// value is passed on as it is, and a failure becomes a decode error that
/// carries the failure's path and message.
pub fn parse_json<T>(decoded: Result<T, serde_path_to_error::Error<serde_json::Error>>) -> (r:
    Result<T, ApiError>)
    ensures
        decoded_as(decoded, r),
{
    match decoded {
        Ok(value) => Ok(value),
        Err(failure) => {
            let path = failure_path(&failure);
            let message = failure_message(&failure);
            Err(ApiError::DecodeError { path, message })
        },
    }
}

/// What a decoded answer amounts to: the decoded result together with the
/// number of requests left, or the decode error that reports the failure.
pub open spec fn finished_as(
    rate_limit: Option<i32>,
    decoded: Result<ApiResponseType, serde_path_to_error::Error<serde_json::Error>>,
    r: Result<ApiResponse, ApiError>,
) -> bool {
    match decoded {
        Ok(response) => r == Ok::<ApiResponse, ApiError>(
            ApiResponse { ratelimit_remaining: rate_limit, response },
        ),
        Err(failure) => is_decode_error_of(failure, r),
    }
}

/// Decodes an answer of the service.
///
/// `status` is the HTTP status, `headers` are the headers of the answer,
/// and `body` is the text of the body, or what the transport reported when
/// reading it failed. `kind` says what the body is expected to hold, and
/// `decode` reads a body of a given kind.
///
/// A rejected key, a failure of the service and an unreadable body are
/// reported as [`parse_raw_response`] reports them, without `decode` being
/// called. Otherwise `decode` is called once, on the body and `kind`: what it
/// read is returned together with the number of requests left, and its
/// failure is reported as a decode error with the failure's place as its
/// path and the failure's report as its message.
pub fn decode_response<F>(
    status: u16,
    headers: &Vec<(String, String)>,
    body: Result<String, String>,
    kind: ResponseKind,
    decode: F,
) -> (r: Result<ApiResponse, ApiError>) where
    F: FnOnce(String, ResponseKind) -> Result<
        ApiResponseType,
        serde_path_to_error::Error<serde_json::Error>,
    >,

    requires
        forall|text: String| call_requires(decode, (text, kind)),
    ensures
        match raw_response_of(status, headers@, body) {
            Err(error) => r == Err::<ApiResponse, ApiError>(error),
            Ok((text, rate_limit)) => exists|
                decoded: Result<ApiResponseType, serde_path_to_error::Error<serde_json::Error>>,
            |
                call_ensures(decode, (text, kind), decoded) && finished_as(rate_limit, decoded, r),
        },
{
    match parse_raw_response(status, headers, body) {
        Err(error) => Err(error),
        Ok((text, rate_limit)) => {
            let ghost sent = text;
            let decoded = decode(text, kind);
            let ghost outcome = decoded;
            let r = match parse_json(decoded) {
                Ok(response) => Ok(ApiResponse { ratelimit_remaining: rate_limit, response }),
                Err(error) => Err(error),
            };
            assert(call_ensures(decode, (sent, kind), outcome) && finished_as(
                rate_limit,
                outcome,
                r,
            ));
            r
        },
    }
}

} // verus!
