//! The gateway side: a client that endorses and submits transactions.
pub mod client;
