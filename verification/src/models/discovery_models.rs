//! What a discovery by DOI finds.

pub mod discovery;
