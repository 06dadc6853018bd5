//! The errors this crate reports.
use vstd::prelude::*;

verus! {

/// A failure of the cryptographic primitives.
#[derive(Clone, Copy, Debug, PartialEq, Eq, Structural)]
pub enum CryptoError {
    /// The private key is neither a PKCS#8 nor a SEC1 PEM P-256 key.
    MalformedKey,
    /// The key was read but the signature could not be produced.
    SigningFailed,
    /// The system's random source did not answer.
    RandomnessUnavailable,
}

/// The text of a cryptographic failure.
pub open spec fn crypto_text(e: CryptoError) -> Seq<char> {
    match e {
        CryptoError::MalformedKey => "malformed private key"@,
        CryptoError::SigningFailed => "signing failed"@,
        CryptoError::RandomnessUnavailable => "random source unavailable"@,
    }
}

impl CryptoError {
    /// The error as text.
    pub fn message(&self) -> (r: String)
        ensures
            r@ == crypto_text(*self),
    {
        match self {
            CryptoError::MalformedKey => String::from_str("malformed private key"),
            CryptoError::SigningFailed => String::from_str("signing failed"),
            CryptoError::RandomnessUnavailable => String::from_str("random source unavailable"),
        }
    }
}

/// An error of a builder: a setter got an unusable value, or `build` misses one.
#[derive(Clone, Debug, PartialEq, Eq)]
pub enum BuilderError {
    InvalidParameter(String),
    MissingParameter(String),
    Crypto(CryptoError),
}

impl BuilderError {
    /// The error as text.
    pub fn message(&self) -> (r: String)
        ensures
            match self {
                BuilderError::InvalidParameter(reason) => r@ == "Invalid parameter: "@ + reason@,
                BuilderError::MissingParameter(name) => r@ == "Missing parameter: "@ + name@,
                BuilderError::Crypto(e) => r@ == "Cryptographic failure: "@ + crypto_text(*e),
            },
    {
        match self {
            BuilderError::InvalidParameter(reason) => String::from_str("Invalid parameter: ").concat(
                reason.as_str(),
            ),
            BuilderError::MissingParameter(name) => String::from_str("Missing parameter: ").concat(
                name.as_str(),
            ),
            BuilderError::Crypto(e) => {
                let text = e.message();
                String::from_str("Cryptographic failure: ").concat(text.as_str())
            },
        }
    }
}

/// An error of the endorse and submit exchange with a gateway.
#[derive(Clone, Debug, PartialEq, Eq)]
pub enum SubmitError {
    /// The client holds no connection to the gateway.
    NotConnected,
    /// The gateway or the transport failed; the details it sent, if any.
    NodeError(String),
    /// The endorsement came back without a prepared envelope.
    EmptyResponse,
    Crypto(CryptoError),
}

impl SubmitError {
    /// The error as text.
    pub fn message(&self) -> (r: String)
        ensures
            r@ == match self {
                SubmitError::NotConnected => "Not connected"@,
                SubmitError::NodeError(d) => "Node error: "@ + d@,
                SubmitError::EmptyResponse => "Empty response"@,
                SubmitError::Crypto(e) => "Cryptographic failure: "@ + crypto_text(*e),
            },
    {
        match self {
            SubmitError::NotConnected => String::from_str("Not connected"),
            SubmitError::NodeError(details) => String::from_str("Node error: ").concat(
                details.as_str(),
            ),
            SubmitError::EmptyResponse => String::from_str("Empty response"),
            SubmitError::Crypto(e) => {
                let text = e.message();
                String::from_str("Cryptographic failure: ").concat(text.as_str())
            },
        }
    }
}

/// An error raised by a chaincode function.
#[derive(Clone, Debug, PartialEq, Eq)]
pub enum ContractError {
    MethodCall(String),
}

impl ContractError {
    /// The error as text.
    pub fn message(&self) -> (r: String)
        ensures
            match self {
                ContractError::MethodCall(e) => r@ == "Method call error: "@ + e@,
            },
    {
        match self {
            ContractError::MethodCall(e) => String::from_str("Method call error: ").concat(
                e.as_str(),
            ),
        }
    }
}

} // verus!
