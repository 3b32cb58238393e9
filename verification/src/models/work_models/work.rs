use super::author::Author;
use super::data_provider::DataProvider;
use super::identifier::IdentifierEntry;
use super::journal::Journal;
use super::link::LinkType;
use super::reference::Reference;
use crate::models::empty::Empty;
use vstd::prelude::*;

verus! {

/// A piece of research: an article, a thesis and the like.
#[derive(Debug, PartialEq, PartialOrd, Hash, Default)]
pub struct Work {
    /// Date the work was accepted.
    pub accepted_date: Option<String>,
    /// arXiv identifier of the work.
    pub arxiv_id: Option<String>,
    /// Authors of the work.
    pub authors: Option<Vec<Author>>,
    /// Number of citations the work has received.
    pub citation_count: Option<i32>,
    /// Contributors to the work.
    pub contributors: Option<Vec<String>>,
    /// Outputs associated with the work.
    pub outputs: Option<Vec<String>>,
    /// Date the work was created.
    pub created_date: Option<String>,
    /// Data providers associated with the work.
    pub data_providers: Option<Vec<DataProvider>>,
    /// Date the work was deposited.
    pub deposited_date: Option<String>,
    /// Abstract of the work.
    pub abstract_text: Option<String>,
    /// Type of the document: article, thesis and so on.
    pub document_type: Option<String>,
    /// Digital Object Identifier of the work.
    pub doi: Option<String>,
    /// Address the work can be downloaded from.
    pub download_url: Option<String>,
    /// Field of study of the work.
    pub field_of_study: Option<String>,
    /// Full text of the work.
    pub full_text: Option<String>,
    /// ID of the work.
    pub id: Option<i32>,
    /// Identifiers of the work.
    pub identifiers: Option<IdentifierEntry>,
    /// Title of the work.
    pub title: Option<String>,
    /// Language of the work.
    pub language: Option<Empty>,
    /// Microsoft Academic Graph identifier of the work.
    pub mag_id: Option<String>,
    /// Open Archives Initiative identifiers of the work.
    pub oai_ids: Option<Vec<String>>,
    /// Date the work was published.
    pub published_date: Option<String>,
    /// Publisher of the work.
    pub publisher: Option<String>,
    /// PubMed identifier of the work.
    pub pubmed_id: Option<String>,
    /// References the work cites.
    pub references: Option<Vec<Reference>>,
    /// Addresses of the full text at its sources.
    pub source_fulltext_urls: Option<Vec<String>>,
    /// Journals the work appeared in.
    pub journals: Option<Vec<Journal>>,
    /// Date the work was last updated.
    pub updated_date: Option<String>,
    /// Year the work was published, as text whether the service sent a
    /// number or a string.
    pub year_published: Option<String>,
    /// Links of the work.
    pub links: Option<Vec<LinkType>>,
}

} // verus!
