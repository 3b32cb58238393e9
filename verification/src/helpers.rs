//! Reading what the service answers.

pub mod date_iterator;
pub mod response_handler;
pub mod string_number_deserializer;
