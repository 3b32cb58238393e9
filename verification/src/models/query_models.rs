//! Building a search: comparisons, their chaining, paging, and the request
//! each query turns into.

pub mod filter;
pub mod filter_operator;
pub mod logical_operator;
pub mod query;
pub mod request_type;
pub mod search_query;
