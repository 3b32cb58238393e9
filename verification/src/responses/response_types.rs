use super::search::SearchResponse;
use crate::models::data_provider_models::data_provider::DataProvider;
use crate::models::discovery_models::discovery::Discovery;
use crate::models::journal_models::journal::Journal;
use crate::models::work_models::work::Work;
use vstd::prelude::*;

verus! {

/// The kinds of result, one for each kind of request.
#[derive(Debug, Clone, Copy, PartialEq, Eq, Structural, Hash)]
pub enum ResponseKind {
    DataProviders,
    Discovery,
    Journals,
    Outputs,
    SearchWorks,
    SearchOutputs,
    SearchDataProviders,
    SearchJournals,
}

/// The result of a request, in the form that belongs to the request's kind.
#[derive(Debug, PartialEq)]
pub enum ApiResponseType {
    DataProviders(DataProvider),
    Discovery(Discovery),
    Journals(Journal),
    Outputs(Work),
    SearchWorks(SearchResponse<Work>),
    SearchOutputs(SearchResponse<Work>),
    SearchDataProviders(SearchResponse<DataProvider>),
    SearchJournals(SearchResponse<Journal>),
}

impl ApiResponseType {
    /// The kind of request this result answers.
    pub open spec fn kind(&self) -> ResponseKind {
        match self {
            ApiResponseType::DataProviders(_) => ResponseKind::DataProviders,
            ApiResponseType::Discovery(_) => ResponseKind::Discovery,
            ApiResponseType::Journals(_) => ResponseKind::Journals,
            ApiResponseType::Outputs(_) => ResponseKind::Outputs,
            ApiResponseType::SearchWorks(_) => ResponseKind::SearchWorks,
            ApiResponseType::SearchOutputs(_) => ResponseKind::SearchOutputs,
            ApiResponseType::SearchDataProviders(_) => ResponseKind::SearchDataProviders,
            ApiResponseType::SearchJournals(_) => ResponseKind::SearchJournals,
        }
    }

    /// Tells which kind of request this result answers.
    pub fn response_kind(&self) -> (kind: ResponseKind)
        ensures
            kind == self.kind(),
    {
        match self {
            ApiResponseType::DataProviders(_) => ResponseKind::DataProviders,
            ApiResponseType::Discovery(_) => ResponseKind::Discovery,
            ApiResponseType::Journals(_) => ResponseKind::Journals,
            ApiResponseType::Outputs(_) => ResponseKind::Outputs,
            ApiResponseType::SearchWorks(_) => ResponseKind::SearchWorks,
            ApiResponseType::SearchOutputs(_) => ResponseKind::SearchOutputs,
            ApiResponseType::SearchDataProviders(_) => ResponseKind::SearchDataProviders,
            ApiResponseType::SearchJournals(_) => ResponseKind::SearchJournals,
        }
    }
}

} // verus!
