//! Newsletter-subscription core: validated-by-construction domain types for
//! subscriber names and email addresses, and the submission-handling protocol
//! that turns untrusted form input into a persisted subscription or a precise
//! rejection.

pub mod domain;
pub mod handler;
