//! Test support: canned responses to stand in for a real provider, so code
//! built on this library can be tested without network access.

pub mod fake_provider;
pub mod fixtures;
