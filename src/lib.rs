//! Client and chaincode runtime for a Hyperledger Fabric style permissioned
//! ledger: the wire codec and message catalog, signing and transaction ids,
//! proposal construction, the gateway's endorse and submit decisions, and
//! the chaincode stream's routing, dispatch and state requests.
pub mod chaincode;
pub mod client;
pub mod crypto;
pub mod descriptor;
pub mod error;
pub mod gateway;
pub mod identity;
pub mod messages;
pub mod network;
pub mod signer;
pub mod text;
pub mod transaction;
pub mod wire;
