//! The chaincode runtime: the decisions of the peer stream handler.
//!
//! The stream, the queues and the tasks that run handlers live outside this
//! crate; they hand each inbound message to these functions and send what
//! they return.
use vstd::prelude::*;
use crate::messages::ChaincodeId;

pub mod context;
pub mod handler;
pub mod message;
pub mod router;

verus! {

/// The chaincode's process-wide configuration, read once at startup.
pub struct Metadata {
    pub mspid: String,
    pub peer_address: String,
    pub root_cert: String,
    pub client_cert: String,
    pub client_key: String,
    pub chaincode_id: ChaincodeId,
}

} // verus!
