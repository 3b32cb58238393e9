//! A data provider, an entity that offers records to the service, and its
//! parts.

pub mod data_provider;
pub mod identifier_type;
pub mod location;
pub mod other_identifiers;
