use super::identifier_type::IdentifierType;
use vstd::prelude::*;

verus! {

/// Identifiers of a data provider in other registries.
#[derive(Debug, PartialEq, PartialOrd, Hash, Default)]
pub struct OtherIdentifiers {
    /// Global Research Identifier Database.
    pub grid: Option<IdentifierType>,
    /// International Standard Name Identifier.
    pub isni: Option<IdentifierType>,
    /// FundRef.
    pub fund_ref: Option<IdentifierType>,
    /// Wikidata.
    pub wikidata: Option<IdentifierType>,
}

} // verus!
