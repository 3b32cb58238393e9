use vstd::prelude::*;

verus! {

/// A data provider as it is listed with a work.
#[derive(Debug, PartialEq, PartialOrd, Hash, Default)]
pub struct DataProvider {
    /// ID of the data provider.
    pub id: i32,
    /// Name of the data provider.
    pub name: String,
    /// URL of the data provider.
    pub url: String,
    /// Logo of the data provider.
    pub logo: String,
}

} // verus!
