//! The values a caller builds requests from and reads answers into.

pub mod api;
pub mod data_provider_models;
pub mod discovery_models;
pub mod empty;
pub mod journal_models;
pub mod query_models;
pub mod work_models;
