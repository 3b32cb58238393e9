use vstd::prelude::*;

verus! {

/// A journal title known to the service.
#[derive(Debug, PartialEq, PartialOrd, Hash, Default)]
pub struct Journal {
    /// Identifiers of the journal.
    pub identifiers: Vec<String>,
    /// Language of the journal.
    pub language: String,
    /// Publisher of the journal.
    pub publisher: String,
    /// Subjects of the journal.
    pub subjects: Vec<String>,
    /// ID of the data provider the journal belongs to.
    pub data_provider_id: i32,
    /// Title of the journal.
    pub title: String,
}

} // verus!
