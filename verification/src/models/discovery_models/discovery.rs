use vstd::prelude::*;

verus! {

/// What a discovery by DOI found.
#[derive(Debug, PartialEq, PartialOrd, Hash, Default)]
pub struct Discovery {
    /// Address of the full text.
    pub full_text_link: String,
    /// Where the full text was found.
    pub source: String,
}

} // verus!
