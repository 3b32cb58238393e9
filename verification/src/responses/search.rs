use crate::text::{parse_i32, parsed_i32};
use vstd::prelude::*;

verus! {

/// One page of search results and what the service says about the search.
#[derive(Debug, PartialEq, Default)]
pub struct SearchResponse<T> {
    /// How many records match the search.
    pub total_hits: Option<i32>,
    /// The limit the page was asked with.
    pub limit: Option<i32>,
    /// The offset the page was asked with.
    pub offset: Option<i32>,
    /// Cursor for scrolling through a long result.
    pub scroll_id: Option<i32>,
    /// The records of this page.
    pub results: Option<Vec<T>>,
    /// How long the service took.
    pub tooks: Option<String>,
    /// How long the search engine behind the service took.
    pub es_took: Option<String>,
}

/// The forms in which the service sends a count: a number, a number written
/// in a string, or null.
#[derive(Debug, PartialEq)]
pub enum IntOrStringOrNull {
    Int(i32),
    String(String),
    Null,
}

/// The count that a received form stands for: the number itself, the number
/// a string denotes, or none for null. A string that denotes no 32-bit
/// integer is an error, which hands the string back.
pub open spec fn limit_of(shape: IntOrStringOrNull) -> Result<Option<i32>, String> {
    match shape {
        IntOrStringOrNull::Int(i) => Ok(Some(i)),
        IntOrStringOrNull::String(s) => match parsed_i32(s@) {
            Some(i) => Ok(Some(i)),
            None => Err(s),
        },
        IntOrStringOrNull::Null => Ok(None),
    }
}

/// Brings a count to one form, whichever way the service sent it.
pub fn deserialize_limit(shape: IntOrStringOrNull) -> (r: Result<Option<i32>, String>)
    ensures
        r == limit_of(shape),
{
    match shape {
        IntOrStringOrNull::Int(i) => Ok(Some(i)),
        IntOrStringOrNull::String(s) => match parse_i32(s.as_str()) {
            Some(i) => Ok(Some(i)),
            None => Err(s),
        },
        IntOrStringOrNull::Null => Ok(None),
    }
}

} // verus!
