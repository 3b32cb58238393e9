use vstd::prelude::*;

verus! {

/// An author of a work.
#[derive(Debug, PartialEq, PartialOrd, Hash, Default)]
pub struct Author {
    /// Name of the author.
    pub name: String,
}

} // verus!
