//! A work, the unit of research the service indexes, and its parts.

pub mod author;
pub mod data_provider;
pub mod identifier;
pub mod journal;
pub mod link;
pub mod reference;
pub mod work;
