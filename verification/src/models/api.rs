use super::query_models::query::Query;
use super::query_models::request_type::QueryRequestType;
use crate::responses::response_types::ResponseKind;
use crate::text::Text;
use vstd::prelude::*;
use vstd::string::*;

verus! {

/// Everything a transport needs to send one query, and what to decode the
/// answer into.
#[derive(Debug, PartialEq)]
pub struct PreparedRequest {
    /// The HTTP method.
    pub method: QueryRequestType,
    /// The path of the request, relative to the service's base address.
    pub path: String,
    /// The full address of the request.
    pub target: String,
    /// The value of the `Authorization` header.
    pub authorization: String,
    /// The body, where the request has one.
    pub body: Option<String>,
    /// The kind of result the answer holds.
    pub kind: ResponseKind,
}

/// The address of a request: the service's base address and the request's
/// path.
pub open spec fn target_of(path: Seq<char>) -> Seq<char> {
    "https://api.core.ac.uk/v3/"@ + path
}

/// The value of the `Authorization` header for an API key.
pub open spec fn bearer(key: Seq<char>) -> Seq<char> {
    "Bearer "@ + key
}

/// The body that goes out with a request: a POST request carries its body,
/// a GET request carries none.
pub open spec fn body_sent(method: QueryRequestType, body: Option<Seq<char>>) -> Option<
    Seq<char>,
> {
    match method {
        QueryRequestType::Post => body,
        QueryRequestType::Get => None,
    }
}

/// Prepares the request for a query: where it goes, how it is authorised,
/// what it carries and what kind of result is to be expected.
pub fn prepare_request<T1: Text, T2: Text>(key: &str, query: Query<T1, T2>) -> (request:
    PreparedRequest)
    ensures
        request.method == query.method(),
        request.path@ == query.path(),
        request.target@ == target_of(query.path()),
        request.authorization@ == bearer(key@),
        match request.body {
            Some(body) => body_sent(query.method(), query.body()) == Some(body@),
            None => body_sent(query.method(), query.body()).is_none(),
        },
        request.kind == query.kind(),
{
    let kind = query.response_kind();
    let (method, path, body) = query.parse_request();
    let target = String::from_str("https://api.core.ac.uk/v3/").concat(path.as_str());
    let authorization = String::from_str("Bearer ").concat(key);
    let body = match (method, body) {
        (QueryRequestType::Post, Some(content)) => Some(content),
        _ => None,
    };
    PreparedRequest { method, path, target, authorization, body, kind }
}

/// Every body a query has goes out with its request: only a discovery has
/// a body, and a discovery is sent by POST.
pub proof fn lemma_body_goes_out<T1: Text, T2: Text>(query: Query<T1, T2>)
    ensures
        body_sent(query.method(), query.body()) == query.body(),
        query.body().is_some() <==> query.method() == QueryRequestType::Post,
{
}

} // verus!
