//! Building the identity that signs and creates transactions.
use vstd::prelude::*;
use crate::error::BuilderError;
use crate::messages::SerializedIdentity;
use crate::text::{trim_text, trimmed};

verus! {

/// Collects a certificate and an MSP id into a `SerializedIdentity`.
pub struct IdentityBuilder {
    pub msp: Option<String>,
    pub cert: Vec<u8>,
}

impl IdentityBuilder {
    /// Starts from the PEM bytes of the identity's certificate.
    pub fn from_pem(pem_bytes: &[u8]) -> (r: IdentityBuilder)
        ensures
            r.cert@ == pem_bytes@,
            r.msp is None,
    {
        let mut cert: Vec<u8> = Vec::new();
        cert.extend_from_slice(pem_bytes);
        proof {
            assert(cert@ =~= pem_bytes@);
        }
        IdentityBuilder { msp: None, cert }
    }

    /// Sets the MSP id; white space around it is dropped, and it may not be empty.
    pub fn with_msp(self, msp: String) -> (r: Result<IdentityBuilder, BuilderError>)
        ensures
            trimmed(msp@).len() == 0 ==> (r matches Err(BuilderError::InvalidParameter(t)) && t@ == "msp cannot be empty"@),
            trimmed(msp@).len() > 0 ==> (r matches Ok(b) && b.msp matches Some(m) && m@ == trimmed(
                msp@,
            ) && b.cert@ == self.cert@),
    {
        let msp = trim_text(msp.as_str());
        if msp.as_str().is_empty() {
            return Err(BuilderError::InvalidParameter(String::from_str("msp cannot be empty")));
        }
        let mut b = self;
        b.msp = Some(msp);
        Ok(b)
    }

    /// The identity; fails when no MSP id was set.
    pub fn build(self) -> (r: Result<SerializedIdentity, BuilderError>)
        ensures
            match self.msp {
                Some(m) => r matches Ok(id) && id.mspid@ == m@ && id.id_bytes@ == self.cert@,
                None => r matches Err(BuilderError::MissingParameter(p)) && p@ == "msp"@,
            },
    {
        match self.msp {
            Some(mspid) => Ok(SerializedIdentity { mspid, id_bytes: self.cert }),
            None => Err(BuilderError::MissingParameter(String::from_str("msp"))),
        }
    }
}

} // verus!
