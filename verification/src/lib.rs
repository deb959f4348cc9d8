//! The decisions of a community relay's admission control and workflow store,
//! kept apart from the sockets, the database and the clock.
//!
//! Each operation that has to wait for an outside service is written as a value
//! that says what to ask next and a function that takes the answer. The caller
//! does the asking.
pub mod admission;
pub mod audit;
pub mod audit_laws;
pub mod channel;
pub mod deletion;
pub mod deletion_laws;
pub mod identity;
pub mod json;
pub mod shared_laws;
pub mod statement;
pub mod store;
pub mod timestamp;
pub mod workflow_id;
