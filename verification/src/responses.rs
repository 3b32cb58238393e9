//! What a request yields.

pub mod response;
pub mod response_types;
pub mod search;
