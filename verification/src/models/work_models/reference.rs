use vstd::prelude::*;

verus! {

/// A reference that a work cites.
#[derive(Debug, PartialEq, PartialOrd, Hash, Default)]
pub struct Reference {
    /// ID of the reference.
    pub id: Option<i32>,
    /// Authors of the reference.
    pub authors: Option<Vec<String>>,
    /// What the reference cites.
    pub cites: Option<String>,
    /// Date of the reference.
    pub date: Option<String>,
    /// Digital Object Identifier of the reference.
    pub doi: Option<String>,
    /// The reference as it was written.
    pub raw: Option<String>,
    /// Title of the reference.
    pub title: Option<String>,
}

} // verus!
