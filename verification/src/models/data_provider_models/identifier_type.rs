use vstd::prelude::*;

verus! {

/// The forms of one kind of identifier.
#[derive(Debug, PartialEq, PartialOrd, Hash, Default)]
pub struct IdentifierType {
    /// Preferred form of the identifier, as text whether the service sent a
    /// number or a string.
    pub preferred: Option<String>,
    /// All forms of the identifier.
    pub all: Option<String>,
}

} // verus!
