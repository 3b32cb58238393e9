use super::location::Location;
use super::other_identifiers::OtherIdentifiers;
use vstd::prelude::*;

verus! {

/// A provider of open-access papers and other resources: a repository, a
/// preprint server, a journal or a publisher.
#[derive(Debug, PartialEq, PartialOrd, Hash, Default)]
pub struct DataProvider {
    /// ID of the data provider.
    pub id: i32,
    /// ID in the Directory of Open Access Repositories.
    pub open_doar_id: Option<i32>,
    /// Name of the data provider.
    pub name: String,
    /// Contact email of the data provider.
    pub email: String,
    /// URI of the data provider.
    pub uri: Option<String>,
    /// Address of the data provider's OAI-PMH endpoint.
    pub oai_pmh_url: String,
    /// Homepage of the data provider.
    pub homepage_url: Option<String>,
    /// Source of the data.
    pub source: Option<String>,
    /// Software the data provider runs.
    pub software: Option<String>,
    /// Metadata format the data provider uses.
    pub metadata_format: String,
    /// Date the data provider was created.
    pub created_date: Option<String>,
    /// Location of the data provider.
    pub location: Location,
    /// Logo of the data provider.
    pub logo: String,
    /// Type of the data provider.
    pub data_provider_type: String,
    /// Statistics about the data provider.
    pub stats: Option<String>,
    /// ID in the Research Organization Registry.
    pub ror_id: Option<String>,
    /// Institution the data provider belongs to.
    pub institution_name: Option<String>,
    /// Other names of the data provider.
    pub aliases: Vec<String>,
    /// Identifiers in other registries.
    pub other_identifiers: Option<OtherIdentifiers>,
}

} // verus!
