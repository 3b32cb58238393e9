//! Typed client-side core for the CORE scholarly-metadata search service:
//! query construction, request description and response classification.

pub mod errors;
pub mod helpers;
pub mod models;
pub mod responses;
pub mod text;

pub use models::data_provider_models::data_provider::DataProvider;
pub use models::discovery_models::discovery::Discovery;
pub use models::journal_models::journal::Journal;
pub use models::query_models::filter_operator::FilterOperator;
pub use models::query_models::search_query::SearchQuery;
pub use models::work_models::work::Work;
pub use text::Text;
