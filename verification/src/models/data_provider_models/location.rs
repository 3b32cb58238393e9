use vstd::prelude::*;

verus! {

/// Where a data provider is.
///
/// The coordinates are kept as the bit patterns of the single-precision
/// numbers the service sends, so that a location can be hashed. Equality
/// and order go by these bit patterns, not by the numbers they stand for:
/// minus zero differs from zero, a value that is not a number equals itself,
/// and a negative coordinate comes after every positive one.
#[derive(Debug, PartialEq, PartialOrd, Hash, Default)]
pub struct Location {
    /// Country code of the location.
    pub country_code: Option<String>,
    /// Latitude, as the bits of a single-precision number.
    pub latitude: Option<u32>,
    /// Longitude, as the bits of a single-precision number.
    pub longitude: Option<u32>,
}

} // verus!
