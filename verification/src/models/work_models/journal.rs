use vstd::prelude::*;

verus! {

/// A journal as it is listed with a work.
#[derive(Debug, PartialEq, PartialOrd, Hash, Default)]
pub struct Journal {
    /// Title of the journal.
    pub title: Option<String>,
    /// Identifiers of the journal.
    pub identifiers: Vec<String>,
}

} // verus!
