//! The client and its builder, under their older module path.
pub use crate::gateway::client::{Client, ClientBuilder};
