//! A gateway client: configuration, and the decisions of the endorse and
//! submit exchange. The exchange itself runs over gRPC outside this crate.
use vstd::prelude::*;
use crate::crypto::{generate_transaction_id, transaction_id_of};
use crate::error::{BuilderError, SubmitError};
use crate::messages::{
    Envelope, EnvelopeView, SerializedIdentity, SubmitRequest, SubmitRequestView,
    decode_endorse_response, endorse_response_from, endorsed_result, extract_result,
};
use crate::signer::{Signer, signature_of};
use crate::text::{trim_text, trimmed};
use crate::transaction::{PreparedTransaction, TransactionBuilder};

verus! {

/// Whether the `http` URI parser accepts the text.
pub uninterp spec fn uri_accepts(text: Seq<char>) -> bool;

/// The message of the `http` URI parser's error on the text.
pub uninterp spec fn uri_error(text: Seq<char>) -> Seq<char>;

/// Relies on `http::Uri`'s `FromStr` (re-exported by tonic as
/// `tonic::transport::Uri`): `Ok` when the text parses as a URI, else the
/// parser's message.
#[verifier::external_body]
fn check_uri(text: &str) -> (r: Result<(), String>)
    ensures
        r is Ok == uri_accepts(text@),
        r matches Err(e) ==> e@ == uri_error(text@),
{
    match text.parse::<tonic::transport::Uri>() {
        Ok(_) => Ok(()),
        Err(e) => Err(e.to_string()),
    }
}

/// The gateway endpoint `scheme://authority/`.
pub open spec fn endpoint_text(scheme: Seq<char>, authority: Seq<char>) -> Seq<char> {
    scheme + "://"@ + authority + "/"@
}

/// An authority holds no path, query or fragment delimiter.
pub open spec fn plain_authority(a: Seq<char>) -> bool {
    forall|i: int| 0 <= i < a.len() ==> #[trigger] a[i] != '/' && a[i] != '?' && a[i] != '#'
}

fn is_plain_authority(a: &String) -> (r: bool)
    ensures
        r == plain_authority(a@),
{
    let s = a.as_str();
    let n = s.unicode_len();
    let mut i: usize = 0;
    while i < n
        invariant
            n == a@.len(),
            s@ == a@,
            i <= n,
            forall|k: int| 0 <= k < i ==> #[trigger] a@[k] != '/' && a@[k] != '?' && a@[k] != '#',
        decreases n - i,
    {
        let c = s.get_char(i);
        if c == '/' || c == '?' || c == '#' {
            return false;
        }
        i = i + 1;
    }
    true
}

/// A configured client: who signs, and where the gateway is.
pub struct Client {
    pub identity: SerializedIdentity,
    pub signer: Signer,
    pub tls: Vec<u8>,
    pub endpoint: String,
}

/// The request to send to the gateway's `Submit`, and the result to hand to
/// the caller once it succeeds.
pub struct Submission {
    pub request: SubmitRequest,
    pub result: Vec<u8>,
}

fn copy_identity(identity: &SerializedIdentity) -> (r: SerializedIdentity)
    ensures
        r@ == identity@,
{
    SerializedIdentity { mspid: identity.mspid.clone(), id_bytes: identity.id_bytes.clone() }
}

impl Client {
    /// A transaction builder that signs as this client.
    pub fn get_transaction_builder(&self) -> (r: TransactionBuilder)
        ensures
            r.identity@ == self.identity@,
            r.signer.pkey@ == self.signer.pkey@,
            r.channel_name is None,
            r.chaincode_id is None,
            r.contract_id is None,
            r.function_name is None,
            r.function_args@.len() == 0,
            r.nonce is None,
            r.transaction_id is None,
            r.header is None,
            r.proposal is None,
    {
        TransactionBuilder::new(
            copy_identity(&self.identity),
            Signer { pkey: self.signer.pkey.clone() },
        )
    }

    /// What to do once the gateway answered `Endorse` with `reply`: re-sign
    /// the prepared envelope's payload and address it to `Submit` under the
    /// transaction id of `nonce`, and extract the result.
    pub fn on_endorsed(&self, prepared: &PreparedTransaction, reply: &[u8], nonce: &[u8]) -> (r:
        Result<Submission, SubmitError>)
        ensures
            match endorse_response_from(reply@) {
                None => r matches Err(SubmitError::NodeError(_)),
                Some(None) => r == Err::<Submission, SubmitError>(SubmitError::EmptyResponse),
                Some(Some(env)) => match signature_of(self.signer.pkey@, env.payload) {
                    None => r matches Err(SubmitError::Crypto(_)),
                    Some(sig) => r matches Ok(s) && s.result@ == endorsed_result(env.payload)
                        && s.request@ == (SubmitRequestView {
                        transaction_id: transaction_id_of(nonce@, self.identity@.bytes()),
                        channel_id: prepared.channel_name@,
                        prepared_transaction: Some(EnvelopeView { payload: env.payload, signature: sig }),
                    }),
                },
            },
    {
        let envelope = match decode_endorse_response(reply) {
            None => {
                return Err(
                    SubmitError::NodeError(String::from_str("malformed endorsement response")),
                )
            },
            Some(None) => return Err(SubmitError::EmptyResponse),
            Some(Some(e)) => e,
        };
        let result = extract_result(envelope.payload.as_slice());
        let signature = match self.signer.sign_message(envelope.payload.as_slice()) {
            Ok(s) => s,
            Err(e) => return Err(SubmitError::Crypto(e)),
        };
        let creator = self.identity.encode();
        let transaction_id = generate_transaction_id(nonce, creator.as_slice());
        let request = SubmitRequest {
            transaction_id,
            channel_id: prepared.channel_name.clone(),
            prepared_transaction: Some(Envelope { payload: envelope.payload, signature }),
        };
        Ok(Submission { request, result })
    }
}

/// Collects the configuration of a `Client`.
pub struct ClientBuilder {
    pub identity: Option<SerializedIdentity>,
    pub tls: Option<Vec<u8>>,
    pub signer: Option<Signer>,
    pub scheme: Option<String>,
    pub authority: Option<String>,
}

impl ClientBuilder {
    pub fn new() -> (r: ClientBuilder)
        ensures
            r.identity is None && r.tls is None && r.signer is None && r.scheme is None
                && r.authority is None,
    {
        ClientBuilder { identity: None, tls: None, signer: None, scheme: None, authority: None }
    }

    /// The identity that creates the transactions.
    pub fn with_identity(self, identity: SerializedIdentity) -> (r: Result<ClientBuilder, BuilderError>)
        ensures
            r matches Ok(b) && b == (ClientBuilder { identity: Some(identity), ..self }),
    {
        let mut b = self;
        b.identity = Some(identity);
        Ok(b)
    }

    /// The signer of the transactions.
    pub fn with_signer(self, signer: Signer) -> (r: Result<ClientBuilder, BuilderError>)
        ensures
            r matches Ok(b) && b == (ClientBuilder { signer: Some(signer), ..self }),
    {
        let mut b = self;
        b.signer = Some(signer);
        Ok(b)
    }

    /// The URI scheme of the gateway, `https` unless set. White space around
    /// it is dropped, and it may not be empty.
    pub fn with_scheme(self, scheme: String) -> (r: Result<ClientBuilder, BuilderError>)
        ensures
            trimmed(scheme@).len() == 0 ==> (r matches Err(BuilderError::InvalidParameter(t)) && t@ == "scheme cannot be empty"@),
            trimmed(scheme@).len() > 0 ==> (r matches Ok(b) && b.scheme matches Some(s) && s@
                == trimmed(scheme@) && b == (ClientBuilder { scheme: b.scheme, ..self })),
    {
        let scheme = trim_text(scheme.as_str());
        if scheme.as_str().is_empty() {
            return Err(BuilderError::InvalidParameter(String::from_str("scheme cannot be empty")));
        }
        let mut b = self;
        b.scheme = Some(scheme);
        Ok(b)
    }

    /// The older spelling of `with_scheme`.
    pub fn with_sheme(self, scheme: String) -> (r: Result<ClientBuilder, BuilderError>)
        ensures
            trimmed(scheme@).len() == 0 ==> (r matches Err(BuilderError::InvalidParameter(t)) && t@ == "scheme cannot be empty"@),
            trimmed(scheme@).len() > 0 ==> (r matches Ok(b) && b.scheme matches Some(s) && s@
                == trimmed(scheme@) && b == (ClientBuilder { scheme: b.scheme, ..self })),
    {
        self.with_scheme(scheme)
    }

    /// The PEM bytes of the CA certificate that authenticates the gateway.
    pub fn with_tls(self, bytes: Vec<u8>) -> (r: Result<ClientBuilder, BuilderError>)
        ensures
            r matches Ok(b) && b == (ClientBuilder { tls: Some(bytes), ..self }),
    {
        let mut b = self;
        b.tls = Some(bytes);
        Ok(b)
    }

    /// The authority (host and port) of the gateway, `localhost:7051` unless
    /// set. White space around it is dropped, and it may not be empty.
    pub fn with_authority(self, authority: String) -> (r: Result<ClientBuilder, BuilderError>)
        ensures
            trimmed(authority@).len() == 0 ==> (r matches Err(BuilderError::InvalidParameter(t)) && t@ == "authority cannot be empty"@),
            trimmed(authority@).len() > 0 ==> (r matches Ok(b) && b.authority matches Some(a)
                && a@ == trimmed(authority@) && b == (ClientBuilder { authority: b.authority, ..self })),
    {
        let authority = trim_text(authority.as_str());
        if authority.as_str().is_empty() {
            return Err(
                BuilderError::InvalidParameter(String::from_str("authority cannot be empty")),
            );
        }
        let mut b = self;
        b.authority = Some(authority);
        Ok(b)
    }

    pub open spec fn scheme_or_default(&self) -> Seq<char> {
        match self.scheme {
            Some(s) => s@,
            None => "https"@,
        }
    }

    pub open spec fn authority_or_default(&self) -> Seq<char> {
        match self.authority {
            Some(a) => a@,
            None => "localhost:7051"@,
        }
    }

    /// Checks and collects the configuration. Building does not connect.
    pub fn build(self) -> (r: Result<Client, BuilderError>)
        ensures
            self.identity is None ==> (r matches Err(BuilderError::MissingParameter(p)) && p@
                == "identity"@),
            (self.identity is Some && self.signer is None) ==> (r matches Err(
                BuilderError::MissingParameter(p),
            ) && p@ == "signer"@),
            (self.identity is Some && self.signer is Some && self.tls is None) ==> (r matches Err(
                BuilderError::MissingParameter(p),
            ) && p@ == "tls"@),
            (self.identity is Some && self.signer is Some && self.tls is Some && !plain_authority(
                self.authority_or_default(),
            )) ==> (r matches Err(BuilderError::InvalidParameter(t)) && t@ == "invalid authority"@),
            (self.identity is Some && self.signer is Some && self.tls is Some && plain_authority(
                self.authority_or_default(),
            )) ==> if uri_accepts(
                endpoint_text(self.scheme_or_default(), self.authority_or_default()),
            ) {
                r matches Ok(c) && c.identity == self.identity->0 && c.signer == self.signer->0
                    && c.tls == self.tls->0 && c.endpoint@ == endpoint_text(
                    self.scheme_or_default(),
                    self.authority_or_default(),
                )
            } else {
                r matches Err(BuilderError::InvalidParameter(t)) && t@ == uri_error(
                    endpoint_text(self.scheme_or_default(), self.authority_or_default()),
                )
            },
    {
        let identity = match self.identity {
            Some(identity) => identity,
            None => return Err(BuilderError::MissingParameter(String::from_str("identity"))),
        };
        let signer = match self.signer {
            Some(signer) => signer,
            None => return Err(BuilderError::MissingParameter(String::from_str("signer"))),
        };
        let tls = match self.tls {
            Some(tls) => tls,
            None => return Err(BuilderError::MissingParameter(String::from_str("tls"))),
        };
        let scheme = match self.scheme {
            Some(scheme) => scheme,
            None => String::from_str("https"),
        };
        let authority = match self.authority {
            Some(authority) => authority,
            None => String::from_str("localhost:7051"),
        };
        if !is_plain_authority(&authority) {
            return Err(BuilderError::InvalidParameter(String::from_str("invalid authority")));
        }
        let endpoint = scheme.concat("://").concat(authority.as_str()).concat("/");
        match check_uri(endpoint.as_str()) {
            Ok(()) => {},
            Err(reason) => return Err(BuilderError::InvalidParameter(reason)),
        }
        Ok(Client { identity, signer, tls, endpoint })
    }
}

} // verus!
