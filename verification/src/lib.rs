//! Verified core of an in-process HTTP test harness: the connection-state
//! machine behind transactional test isolation, the structured error
//! envelope, and the assertions that check a response against it.

pub mod assertions;
pub mod connection;
pub mod context;
pub mod envelope;
pub mod harness;
pub mod json;
pub mod response;
pub mod status;
pub mod text;
