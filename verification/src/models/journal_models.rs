//! A journal title known to the service.

pub mod journal;
