use super::request_type::QueryRequestType;
use super::search_query::SearchQuery;
use crate::responses::response_types::ResponseKind;
use crate::text::Text;
use vstd::prelude::*;
use vstd::string::*;

verus! {

/// A request to the service: one record fetched by its identifier, a
/// discovery by DOI, or a search over one kind of record.
#[derive(Debug, Clone)]
pub enum Query<T1, T2> {
    /// One data provider, by identifier.
    DataProviders(T1),
    /// Links to the full text of the work with this DOI.
    Discovery(T1),
    /// One journal, by identifier.
    Journals(T1),
    /// One output, by identifier.
    Outputs(T1),
    /// A search over works.
    SearchWorks(SearchQuery<T1, T2>),
    /// A search over outputs.
    SearchOutputs(SearchQuery<T1, T2>),
    /// A search over data providers.
    SearchDataProviders(SearchQuery<T1, T2>),
    /// A search over journals.
    SearchJournals(SearchQuery<T1, T2>),
}

/// The body of a discovery request: a JSON object whose one member, `doi`,
/// holds the DOI as it was given, without escaping.
pub open spec fn discovery_body(doi: Seq<char>) -> Seq<char> {
    "{\"doi\": \""@ + doi + "\"}"@
}

impl<T1: Text, T2: Text> Query<T1, T2> {
    /// The HTTP method of the request: POST for a discovery, GET for
    /// everything else.
    pub open spec fn method(&self) -> QueryRequestType {
        match self {
            Query::Discovery(_) => QueryRequestType::Post,
            _ => QueryRequestType::Get,
        }
    }

    /// The path of the request, relative to the service's base address.
    pub open spec fn path(&self) -> Seq<char> {
        match self {
            Query::DataProviders(id) => "data-providers/"@ + id.text(),
            Query::Discovery(_) => "discover"@,
            Query::Journals(id) => "journals/"@ + id.text(),
            Query::Outputs(id) => "outputs/"@ + id.text(),
            Query::SearchWorks(sq) => "search/works/"@ + sq@.query_string(),
            Query::SearchOutputs(sq) => "search/outputs/"@ + sq@.query_string(),
            Query::SearchDataProviders(sq) => "search/data-providers/"@ + sq@.query_string(),
            Query::SearchJournals(sq) => "search/journals/"@ + sq@.query_string(),
        }
    }

    /// The body of the request, which only a discovery has.
    pub open spec fn body(&self) -> Option<Seq<char>> {
        match self {
            Query::Discovery(doi) => Some(discovery_body(doi.text())),
            _ => None,
        }
    }

    /// The kind of result the request yields, which decides what the body
    /// of the answer is decoded into.
    pub open spec fn kind(&self) -> ResponseKind {
        match self {
            Query::DataProviders(_) => ResponseKind::DataProviders,
            Query::Discovery(_) => ResponseKind::Discovery,
            Query::Journals(_) => ResponseKind::Journals,
            Query::Outputs(_) => ResponseKind::Outputs,
            Query::SearchWorks(_) => ResponseKind::SearchWorks,
            Query::SearchOutputs(_) => ResponseKind::SearchOutputs,
            Query::SearchDataProviders(_) => ResponseKind::SearchDataProviders,
            Query::SearchJournals(_) => ResponseKind::SearchJournals,
        }
    }

    /// Tells which kind of result the request yields.
    pub fn response_kind(&self) -> (kind: ResponseKind)
        ensures
            kind == self.kind(),
    {
        match self {
            Query::DataProviders(_) => ResponseKind::DataProviders,
            Query::Discovery(_) => ResponseKind::Discovery,
            Query::Journals(_) => ResponseKind::Journals,
            Query::Outputs(_) => ResponseKind::Outputs,
            Query::SearchWorks(_) => ResponseKind::SearchWorks,
            Query::SearchOutputs(_) => ResponseKind::SearchOutputs,
            Query::SearchDataProviders(_) => ResponseKind::SearchDataProviders,
            Query::SearchJournals(_) => ResponseKind::SearchJournals,
        }
    }

    /// Turns the query into the request that asks for it: method, path and
    /// body.
    pub fn parse_request(self) -> (request: (QueryRequestType, String, Option<String>))
        ensures
            request.0 == self.method(),
            request.1@ == self.path(),
            match request.2 {
                Some(body) => self.body() == Some(body@),
                None => self.body().is_none(),
            },
    {
        match self {
            Query::DataProviders(id) => (
                QueryRequestType::Get,
                String::from_str("data-providers/").concat(id.to_text().as_str()),
                None,
            ),
            Query::Discovery(doi) => (
                QueryRequestType::Post,
                String::from_str("discover"),
                Some(create_discovery_body(doi)),
            ),
            Query::Journals(id) => (
                QueryRequestType::Get,
                String::from_str("journals/").concat(id.to_text().as_str()),
                None,
            ),
            Query::Outputs(id) => (
                QueryRequestType::Get,
                String::from_str("outputs/").concat(id.to_text().as_str()),
                None,
            ),
            Query::SearchWorks(sq) => (
                QueryRequestType::Get,
                String::from_str("search/works/").concat(sq.parse().as_str()),
                None,
            ),
            Query::SearchOutputs(sq) => (
                QueryRequestType::Get,
                String::from_str("search/outputs/").concat(sq.parse().as_str()),
                None,
            ),
            Query::SearchDataProviders(sq) => (
                QueryRequestType::Get,
                String::from_str("search/data-providers/").concat(sq.parse().as_str()),
                None,
            ),
            Query::SearchJournals(sq) => (
                QueryRequestType::Get,
                String::from_str("search/journals/").concat(sq.parse().as_str()),
                None,
            ),
        }
    }
}

/// Writes the body of a discovery request for `doi`.
pub fn create_discovery_body<T: Text>(doi: T) -> (body: String)
    ensures
        body@ == discovery_body(doi.text()),
{
    let mut body = String::from_str("{\"doi\": \"");
    body.append(doi.to_text().as_str());
    body.append("\"}");
    body
}

} // verus!
