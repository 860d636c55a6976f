//! Coordination layer between a single-threaded caller and a document
//! database client: error classification, session and transaction state,
//! cursor reads and raw document framing.
pub mod bridge;
pub mod cursor;
pub mod document;
pub mod error;
pub mod exclusion;
pub mod result_set;
pub mod session;
