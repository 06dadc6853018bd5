//! Assembling a signed proposal and the endorsement request that carries it.
use vstd::prelude::*;
use vstd::utf8::*;
use crate::crypto::{
    generate_transaction_id, random_bytes, sha256, sha256_of, text_bytes,
    transaction_id_of,
};
use crate::error::{BuilderError, CryptoError};
use crate::messages::{
    ChaincodeId, ChaincodeIdView, ChaincodeInput, ChannelHeader, ChannelHeaderView,
    EndorseRequest, EndorseRequestView, Header, HeaderView, Proposal, ProposalView,
    SerializedIdentity, SignedProposal, SignedProposalView, Timestamp, ENDORSER_TRANSACTION,
    encode_header_extension, encode_invocation_payload, encode_signature_header,
    header_extension_bytes, invocation_payload_bytes, signature_header_bytes, texts_bytes,
    channel_header_from, header_from, proposal_from, signature_header_from,
    lemma_channel_header_round_trip, lemma_header_round_trip, lemma_proposal_round_trip,
    lemma_signature_header_round_trip,
};
use crate::signer::{Signer, signature_of};
use crate::text::{trim_text, trimmed};

verus! {

/// Number of random bytes in a nonce.
pub const NONCE_LENGTH: usize = 24;

/// Relies on `SystemTime::elapsed` on the Unix epoch: the current time as
/// seconds and nanoseconds since the epoch; `None` for a clock set before it.
#[verifier::external_body]
fn unix_time() -> (r: Option<Timestamp>)
    ensures
        r matches Some(t) ==> 0 <= t.nanos < 1_000_000_000,
{
    match std::time::UNIX_EPOCH.elapsed() {
        Ok(d) => Some(Timestamp { seconds: d.as_secs() as i64, nanos: d.subsec_nanos() as i32 }),
        Err(_) => None,
    }
}

/// The current time; the epoch itself for a clock set before it.
pub(crate) fn now() -> (r: Timestamp)
    ensures
        0 <= r.nanos < 1_000_000_000,
{
    match unix_time() {
        Some(t) => t,
        None => Timestamp { seconds: 0, nanos: 0 },
    }
}

/// A fresh nonce of `NONCE_LENGTH` random bytes.
pub fn generate_nonce() -> (r: Result<Vec<u8>, CryptoError>)
    ensures
        r matches Ok(n) ==> n@.len() == NONCE_LENGTH,
        r matches Err(e) ==> e == CryptoError::RandomnessUnavailable,
{
    match random_bytes(NONCE_LENGTH) {
        Some(n) => Ok(n),
        None => Err(CryptoError::RandomnessUnavailable),
    }
}

pub open spec fn opt_text_view(o: Option<String>) -> Option<Seq<char>> {
    match o {
        Some(s) => Some(s@),
        None => None,
    }
}

/// `contract:function`, or the bare function name without a contract.
pub open spec fn qualified_name(contract: Option<Seq<char>>, function: Seq<char>) -> Seq<char> {
    match contract {
        Some(c) => if c.len() == 0 {
            function
        } else {
            c + seq![':'] + function
        },
        None => function,
    }
}

/// The invocation arguments: the qualified name, then the arguments, as UTF-8.
pub open spec fn input_args(qualified: Seq<char>, args: Seq<Seq<char>>) -> Seq<Seq<u8>> {
    seq![encode_utf8(qualified)] + texts_bytes(args)
}

/// The chaincode id that names the chaincode `name`.
pub open spec fn chaincode_id_bytes(name: Seq<char>) -> Seq<u8> {
    ChaincodeIdView { path: seq![], name, version: seq![] }.bytes()
}

/// The channel header of an endorser transaction.
pub open spec fn channel_header_for(
    channel: Seq<char>,
    txid: Seq<char>,
    ts: Timestamp,
    chaincode: Seq<char>,
    id_bytes: Seq<u8>,
) -> ChannelHeaderView {
    ChannelHeaderView {
        header_type: ENDORSER_TRANSACTION,
        version: 1,
        timestamp: Some(ts),
        channel_id: channel,
        tx_id: txid,
        epoch: 0,
        extension: header_extension_bytes(chaincode_id_bytes(chaincode)),
        tls_cert_hash: sha256_of(id_bytes),
    }
}

/// The header: the channel header and the signature header (creator, nonce).
pub open spec fn header_for(
    creator: Seq<u8>,
    id_bytes: Seq<u8>,
    channel: Seq<char>,
    txid: Seq<char>,
    nonce: Seq<u8>,
    ts: Timestamp,
    chaincode: Seq<char>,
) -> HeaderView {
    HeaderView {
        channel_header: channel_header_for(channel, txid, ts, chaincode, id_bytes).bytes(),
        signature_header: signature_header_bytes(creator, nonce),
    }
}

/// The proposal: header, the invocation payload and the header extension.
pub open spec fn proposal_for(header: Seq<u8>, chaincode: Seq<char>, args: Seq<Seq<u8>>) -> ProposalView {
    let id = chaincode_id_bytes(chaincode);
    ProposalView {
        header,
        payload: invocation_payload_bytes(
            id,
            crate::messages::ChaincodeInputView { args, is_init: false }.bytes(),
        ),
        extension: header_extension_bytes(id),
    }
}

/// The header a proposal carries: the given one, or the one built from the
/// identity, channel, transaction id, nonce, time and chaincode.
pub open spec fn header_bytes_for(
    header: Option<Header>,
    identity: SerializedIdentity,
    channel: Seq<char>,
    txid: Seq<char>,
    nonce: Seq<u8>,
    ts: Timestamp,
    chaincode: Seq<char>,
) -> Seq<u8> {
    match header {
        Some(h) => h@.bytes(),
        None => header_for(
            identity@.bytes(),
            identity.id_bytes@,
            channel,
            txid,
            nonce,
            ts,
            chaincode,
        ).bytes(),
    }
}

/// Builds the proposal that invokes `input` on `chaincode`, with `header`
/// if given, else a header built from the other arguments.
pub fn assemble_proposal(
    identity: &SerializedIdentity,
    channel: &String,
    chaincode: &String,
    txid: &String,
    nonce: &[u8],
    ts: Timestamp,
    header: &Option<Header>,
    input: &ChaincodeInput,
) -> (r: Proposal)
    requires
        !input.is_init,
    ensures
        r@ == proposal_for(
            header_bytes_for(*header, *identity, channel@, txid@, nonce@, ts, chaincode@),
            chaincode@,
            input@.args,
        ),
{
    let id = ChaincodeId { path: String::new(), name: chaincode.clone(), version: String::new() };
    let id_bytes = id.encode();
    proof {
        assert(id@ == (ChaincodeIdView { path: seq![], name: chaincode@, version: seq![] }));
    }
    let extension = encode_header_extension(id_bytes.as_slice());
    let header_bytes = match header {
        Some(h) => h.encode(),
        None => {
            let creator = identity.encode();
            let channel_header = ChannelHeader {
                header_type: ENDORSER_TRANSACTION,
                version: 1,
                timestamp: Some(ts),
                channel_id: channel.clone(),
                tx_id: txid.clone(),
                epoch: 0,
                extension: extension.clone(),
                tls_cert_hash: sha256(identity.id_bytes.as_slice()),
            };
            proof {
                assert(channel_header@ == channel_header_for(
                    channel@,
                    txid@,
                    ts,
                    chaincode@,
                    identity.id_bytes@,
                ));
            }
            let h = Header {
                channel_header: channel_header.encode(),
                signature_header: encode_signature_header(creator.as_slice(), nonce),
            };
            h.encode()
        },
    };
    let input_bytes = input.encode();
    proof {
        assert(input@ == (crate::messages::ChaincodeInputView { args: input@.args, is_init: false }));
    }
    Proposal {
        header: header_bytes,
        payload: encode_invocation_payload(id_bytes.as_slice(), input_bytes.as_slice()),
        extension,
    }
}

/// A transaction ready for endorsement. Building one does no network I/O.
#[derive(Clone, Debug)]
pub struct PreparedTransaction {
    pub channel_name: String,
    pub transaction_id: String,
    pub endorse_request: EndorseRequest,
}

/// Collects what a proposal needs, then builds and signs it.
#[derive(Clone, Debug)]
pub struct TransactionBuilder {
    pub identity: SerializedIdentity,
    pub signer: Signer,
    pub channel_name: Option<String>,
    pub chaincode_id: Option<String>,
    pub contract_id: Option<String>,
    pub function_name: Option<String>,
    pub function_args: Vec<String>,
    pub nonce: Option<Vec<u8>>,
    pub transaction_id: Option<String>,
    pub header: Option<Header>,
    pub proposal: Option<Proposal>,
}

impl TransactionBuilder {
    /// The nonce a build uses: the override, else the fresh one.
    pub open spec fn nonce_for(&self, fresh: Seq<u8>) -> Seq<u8> {
        match self.nonce {
            Some(n) => n@,
            None => fresh,
        }
    }

    /// The transaction id a build uses: the override, else the one computed
    /// from the nonce and the serialized identity.
    pub open spec fn txid_for(&self, fresh: Seq<u8>) -> Seq<char> {
        match self.transaction_id {
            Some(t) => t@,
            None => transaction_id_of(self.nonce_for(fresh), self.identity@.bytes()),
        }
    }

    pub open spec fn args_view(&self) -> Seq<Seq<u8>> {
        input_args(
            qualified_name(opt_text_view(self.contract_id), self.function_name->0@),
            self.function_args@.map_values(|a: String| a@),
        )
    }

    /// The proposal a build signs, once channel, chaincode and function are set.
    pub open spec fn proposal_for(&self, fresh: Seq<u8>, ts: Timestamp) -> ProposalView {
        match self.proposal {
            Some(p) => p@,
            None => proposal_for(
                match self.header {
                    Some(h) => h@.bytes(),
                    None => header_for(
                        self.identity@.bytes(),
                        self.identity.id_bytes@,
                        self.channel_name->0@,
                        self.txid_for(fresh),
                        self.nonce_for(fresh),
                        ts,
                        self.chaincode_id->0@,
                    ).bytes(),
                },
                self.chaincode_id->0@,
                self.args_view(),
            ),
        }
    }

    /// The header a build makes when none is set.
    pub open spec fn built_header(&self, fresh: Seq<u8>, ts: Timestamp) -> HeaderView {
        header_for(
            self.identity@.bytes(),
            self.identity.id_bytes@,
            self.channel_name->0@,
            self.txid_for(fresh),
            self.nonce_for(fresh),
            ts,
            self.chaincode_id->0@,
        )
    }

    /// The channel header inside `built_header`.
    pub open spec fn built_channel_header(&self, fresh: Seq<u8>, ts: Timestamp) -> ChannelHeaderView {
        channel_header_for(
            self.channel_name->0@,
            self.txid_for(fresh),
            ts,
            self.chaincode_id->0@,
            self.identity.id_bytes@,
        )
    }

    /// The endorsement request of a build, given the signature it got.
    pub open spec fn request_for(&self, fresh: Seq<u8>, signature: Seq<u8>, ts: Timestamp) -> EndorseRequestView {
        EndorseRequestView {
            transaction_id: self.txid_for(fresh),
            channel_id: self.channel_name->0@,
            proposed_transaction: Some(
                SignedProposalView {
                    proposal_bytes: self.proposal_for(fresh, ts).bytes(),
                    signature,
                },
            ),
            endorsing_organizations: seq![],
        }
    }

    pub open spec fn complete(&self) -> bool {
        self.channel_name is Some && self.chaincode_id is Some && self.function_name is Some
    }

    /// The error of a build that misses a required field.
    pub open spec fn missing(&self, r: Result<PreparedTransaction, BuilderError>) -> bool {
        &&& self.channel_name is None ==> (r matches Err(BuilderError::MissingParameter(p))
            && p@ == "channel_name"@)
        &&& (self.channel_name is Some && self.chaincode_id is None) ==> (r matches Err(
            BuilderError::MissingParameter(p),
        ) && p@ == "chaincode_id"@)
        &&& (self.channel_name is Some && self.chaincode_id is Some && self.function_name is None)
            ==> (r matches Err(BuilderError::MissingParameter(p)) && p@ == "function_name"@)
    }

    /// A builder for `identity` and `signer` with nothing else set.
    pub fn new(identity: SerializedIdentity, signer: Signer) -> (r: TransactionBuilder)
        ensures
            r.identity == identity,
            r.signer == signer,
            r.channel_name is None,
            r.chaincode_id is None,
            r.contract_id is None,
            r.function_name is None,
            r.function_args@.len() == 0,
            r.nonce is None,
            r.transaction_id is None,
            r.header is None,
            r.proposal is None,
    {
        TransactionBuilder {
            identity,
            signer,
            channel_name: None,
            chaincode_id: None,
            contract_id: None,
            function_name: None,
            function_args: Vec::new(),
            nonce: None,
            transaction_id: None,
            header: None,
            proposal: None,
        }
    }

    /// Sets the channel; white space around it is dropped, and it may not be empty.
    pub fn with_channel_name(self, name: String) -> (r: Result<TransactionBuilder, BuilderError>)
        ensures
            trimmed(name@).len() == 0 ==> (r matches Err(BuilderError::InvalidParameter(t)) && t@ == "name cannot be empty"@),
            trimmed(name@).len() > 0 ==> (r matches Ok(b) && b.channel_name matches Some(c) && c@
                == trimmed(name@) && b == (TransactionBuilder { channel_name: b.channel_name, ..self })),
    {
        let name = trim_text(name.as_str());
        if name.as_str().is_empty() {
            return Err(BuilderError::InvalidParameter(String::from_str("name cannot be empty")));
        }
        let mut b = self;
        b.channel_name = Some(name);
        Ok(b)
    }

    /// Sets the chaincode; white space around it is dropped, and it may not be empty.
    pub fn with_chaincode_id(self, id: String) -> (r: Result<TransactionBuilder, BuilderError>)
        ensures
            trimmed(id@).len() == 0 ==> (r matches Err(BuilderError::InvalidParameter(t)) && t@ == "id cannot be empty"@),
            trimmed(id@).len() > 0 ==> (r matches Ok(b) && b.chaincode_id matches Some(c) && c@
                == trimmed(id@) && b == (TransactionBuilder { chaincode_id: b.chaincode_id, ..self })),
    {
        let id = trim_text(id.as_str());
        if id.as_str().is_empty() {
            return Err(BuilderError::InvalidParameter(String::from_str("id cannot be empty")));
        }
        let mut b = self;
        b.chaincode_id = Some(id);
        Ok(b)
    }

    /// Sets the contract; white space around it is dropped. An empty contract
    /// leaves the function name unqualified.
    pub fn with_contract_id(self, id: String) -> (r: Result<TransactionBuilder, BuilderError>)
        ensures
            trimmed(id@).len() == 0 ==> (r matches Ok(b) && b == (TransactionBuilder {
                contract_id: None,
                ..self
            })),
            trimmed(id@).len() > 0 ==> (r matches Ok(b) && b.contract_id matches Some(c) && c@
                == trimmed(id@) && b == (TransactionBuilder { contract_id: b.contract_id, ..self })),
    {
        let id = trim_text(id.as_str());
        let mut b = self;
        if id.as_str().is_empty() {
            b.contract_id = None;
        } else {
            b.contract_id = Some(id);
        }
        Ok(b)
    }

    /// Sets the function; white space around it is dropped, and it may not be empty.
    pub fn with_function_name(self, name: String) -> (r: Result<TransactionBuilder, BuilderError>)
        ensures
            trimmed(name@).len() == 0 ==> (r matches Err(BuilderError::InvalidParameter(t)) && t@ == "name cannot be empty"@),
            trimmed(name@).len() > 0 ==> (r matches Ok(b) && b.function_name matches Some(f) && f@
                == trimmed(name@) && b == (TransactionBuilder { function_name: b.function_name, ..self })),
    {
        let name = trim_text(name.as_str());
        if name.as_str().is_empty() {
            return Err(BuilderError::InvalidParameter(String::from_str("name cannot be empty")));
        }
        let mut b = self;
        b.function_name = Some(name);
        Ok(b)
    }

    /// Sets the function arguments, passed on unmodified; none is fine.
    pub fn with_function_args(self, args: Vec<String>) -> (r: Result<TransactionBuilder, BuilderError>)
        ensures
            r matches Ok(b) && b == (TransactionBuilder { function_args: args, ..self }),
    {
        let mut b = self;
        b.function_args = args;
        Ok(b)
    }

    /// Fixes the nonce instead of drawing one; it must be `NONCE_LENGTH` bytes.
    pub fn with_nonce(&mut self, nonce: Option<Vec<u8>>) -> (r: Result<(), BuilderError>)
        ensures
            (nonce matches Some(n) && n@.len() != NONCE_LENGTH) ==> (r matches Err(BuilderError::InvalidParameter(t)) && t@ == "nonce must be 24 bytes"@
                && *final(self) == *old(self)),
            !(nonce matches Some(n) && n@.len() != NONCE_LENGTH) ==> (r is Ok && *final(self) == (
            TransactionBuilder { nonce: nonce, ..*old(self) })),
    {
        match &nonce {
            Some(n) => {
                if n.len() != NONCE_LENGTH {
                    return Err(
                        BuilderError::InvalidParameter(String::from_str("nonce must be 24 bytes")),
                    );
                }
            },
            None => {},
        }
        self.nonce = nonce;
        Ok(())
    }

    /// Fixes the transaction id instead of computing it; `None` clears it.
    pub fn with_transaction_id(&mut self, transaction_id: Option<String>)
        ensures
            *final(self) == (TransactionBuilder { transaction_id: transaction_id, ..*old(self) }),
    {
        self.transaction_id = transaction_id;
    }

    /// Fixes the header instead of building it; `None` clears it.
    pub fn with_header(&mut self, header: Option<Header>)
        ensures
            *final(self) == (TransactionBuilder { header: header, ..*old(self) }),
    {
        self.header = header;
    }

    /// Fixes the proposal instead of building it; `None` clears it.
    pub fn with_proposal(&mut self, proposal: Option<Proposal>)
        ensures
            *final(self) == (TransactionBuilder { proposal: proposal, ..*old(self) }),
    {
        self.proposal = proposal;
    }

    /// The chaincode input: the qualified name first, then the arguments.
    pub fn chaincode_input(&self) -> (r: Result<ChaincodeInput, BuilderError>)
        ensures
            self.function_name is None ==> (r matches Err(BuilderError::MissingParameter(p)) && p@
                == "function_name"@),
            self.function_name is Some ==> (r matches Ok(input) && input@.args == self.args_view()
                && !input.is_init),
    {
        let function = match &self.function_name {
            Some(f) => f,
            None => return Err(BuilderError::MissingParameter(String::from_str("function_name"))),
        };
        let qualified = match &self.contract_id {
            Some(c) if !c.as_str().is_empty() => {
                proof {
                    reveal_strlit(":");
                }
                c.clone().concat(":").concat(function.as_str())
            },
            _ => function.clone(),
        };
        let mut args: Vec<Vec<u8>> = Vec::new();
        args.push(text_bytes(&qualified));
        let ghost texts = self.function_args@.map_values(|a: String| a@);
        let mut i: usize = 0;
        while i < self.function_args.len()
            invariant
                i <= self.function_args@.len(),
                texts == self.function_args@.map_values(|a: String| a@),
                args@.len() == i + 1,
                args@[0]@ == encode_utf8(qualified@),
                forall|j: int| 0 <= j < i ==> (#[trigger] args@[j + 1])@ == encode_utf8(texts[j]),
            decreases self.function_args@.len() - i,
        {
            args.push(text_bytes(&self.function_args[i]));
            i = i + 1;
        }
        let input = ChaincodeInput { args, is_init: false };
        proof {
            reveal_strlit(":");
            assert(qualified@ == qualified_name(opt_text_view(self.contract_id), function@));
            let expected = input_args(qualified@, texts);
            assert(expected.len() == args@.len());
            assert forall|j: int| 0 <= j < expected.len() implies #[trigger] input@.args[j]
                == expected[j] by {
                if j > 0 {
                    assert(args@[(j - 1) + 1] == args@[j]);
                }
            }
            assert(input@.args =~= expected);
        }
        Ok(input)
    }

    /// Builds and signs with the given fresh nonce and time. The nonce and
    /// transaction id overrides, when set, take precedence.
    pub fn build_from(self, fresh_nonce: Vec<u8>, timestamp: Timestamp) -> (r: Result<
        PreparedTransaction,
        BuilderError,
    >)
        ensures
            self.missing(r),
            (self.complete() && self.nonce_for(fresh_nonce@).len() != NONCE_LENGTH) ==> (r matches Err(
                BuilderError::InvalidParameter(t),
            ) && t@ == "nonce must be 24 bytes"@),
            (self.complete() && self.nonce_for(fresh_nonce@).len() == NONCE_LENGTH) ==> match signature_of(
                self.signer.pkey@,
                self.proposal_for(fresh_nonce@, timestamp).bytes(),
            ) {
                Some(sig) => r matches Ok(p) && p.channel_name@ == self.channel_name->0@
                    && p.transaction_id@ == self.txid_for(fresh_nonce@) && p.endorse_request@
                    == self.request_for(fresh_nonce@, sig, timestamp),
                None => r matches Err(BuilderError::Crypto(_)),
            },
    {
        let ghost fresh = fresh_nonce@;
        let channel_name = match &self.channel_name {
            Some(c) => c.clone(),
            None => return Err(BuilderError::MissingParameter(String::from_str("channel_name"))),
        };
        let chaincode = match &self.chaincode_id {
            Some(c) => c.clone(),
            None => return Err(BuilderError::MissingParameter(String::from_str("chaincode_id"))),
        };
        let input = match self.chaincode_input() {
            Ok(input) => input,
            Err(e) => return Err(e),
        };
        let nonce = match &self.nonce {
            Some(n) => n.clone(),
            None => fresh_nonce,
        };
        if nonce.len() != NONCE_LENGTH {
            return Err(BuilderError::InvalidParameter(String::from_str("nonce must be 24 bytes")));
        }
        let creator = self.identity.encode();
        let transaction_id = match &self.transaction_id {
            Some(t) => t.clone(),
            None => generate_transaction_id(nonce.as_slice(), creator.as_slice()),
        };
        proof {
            assert(nonce@ == self.nonce_for(fresh));
            assert(transaction_id@ == self.txid_for(fresh));
        }
        let ghost chaincode_name = chaincode@;
        let id = ChaincodeId { path: String::new(), name: chaincode, version: String::new() };
        let id_bytes = id.encode();
        proof {
            assert(id@ == (ChaincodeIdView { path: seq![], name: chaincode_name, version: seq![] }));
            assert(id_bytes@ == chaincode_id_bytes(chaincode_name));
        }
        let extension = encode_header_extension(id_bytes.as_slice());
        let proposal = match &self.proposal {
            Some(p) => Proposal {
                header: p.header.clone(),
                payload: p.payload.clone(),
                extension: p.extension.clone(),
            },
            None => {
                let header = match &self.header {
                    Some(h) => h.encode(),
                    None => {
                        let channel_header = ChannelHeader {
                            header_type: ENDORSER_TRANSACTION,
                            version: 1,
                            timestamp: Some(timestamp),
                            channel_id: channel_name.clone(),
                            tx_id: transaction_id.clone(),
                            epoch: 0,
                            extension: extension.clone(),
                            tls_cert_hash: sha256(self.identity.id_bytes.as_slice()),
                        };
                        proof {
                            assert(channel_header@ == channel_header_for(
                                channel_name@,
                                transaction_id@,
                                timestamp,
                                chaincode_name,
                                self.identity.id_bytes@,
                            ));
                        }
                        let header = Header {
                            channel_header: channel_header.encode(),
                            signature_header: encode_signature_header(
                                creator.as_slice(),
                                nonce.as_slice(),
                            ),
                        };
                        proof {
                            assert(header@ == header_for(
                                self.identity@.bytes(),
                                self.identity.id_bytes@,
                                channel_name@,
                                transaction_id@,
                                nonce@,
                                timestamp,
                                chaincode_name,
                            ));
                        }
                        header.encode()
                    },
                };
                let input_bytes = input.encode();
                proof {
                    assert(input@ == (crate::messages::ChaincodeInputView {
                        args: self.args_view(),
                        is_init: false,
                    }));
                }
                Proposal {
                    header,
                    payload: encode_invocation_payload(id_bytes.as_slice(), input_bytes.as_slice()),
                    extension,
                }
            },
        };
        proof {
            assert(proposal@ == self.proposal_for(fresh, timestamp));
        }
        let proposal_bytes = proposal.encode();
        let signature = match self.signer.sign_message(proposal_bytes.as_slice()) {
            Ok(s) => s,
            Err(e) => return Err(BuilderError::Crypto(e)),
        };
        let endorse_request = EndorseRequest {
            transaction_id: transaction_id.clone(),
            channel_id: channel_name.clone(),
            proposed_transaction: Some(SignedProposal { proposal_bytes, signature }),
            endorsing_organizations: Vec::new(),
        };
        proof {
            assert(endorse_request@.endorsing_organizations =~= Seq::<Seq<char>>::empty());
        }
        Ok(PreparedTransaction { channel_name, transaction_id, endorse_request })
    }

    /// Builds and signs with a fresh random nonce (unless one is fixed) and
    /// the current time.
    pub fn build(self) -> (r: Result<PreparedTransaction, BuilderError>)
        ensures
            self.missing(r),
            (self.complete() && self.nonce is Some && self.nonce->0@.len() != NONCE_LENGTH) ==> (r matches Err(
                BuilderError::InvalidParameter(t),
            ) && t@ == "nonce must be 24 bytes"@),
            (self.complete() && self.nonce is Some && self.nonce->0@.len() == NONCE_LENGTH) ==> exists|ts: Timestamp|
                #![trigger self.proposal_for(self.nonce->0@, ts)]
                match signature_of(self.signer.pkey@, self.proposal_for(self.nonce->0@, ts).bytes()) {
                    Some(sig) => r matches Ok(p) && p.channel_name@ == self.channel_name->0@
                        && p.transaction_id@ == self.txid_for(self.nonce->0@) && p.endorse_request@
                        == self.request_for(self.nonce->0@, sig, ts),
                    None => r matches Err(BuilderError::Crypto(_)),
                },
            r matches Ok(p) ==> exists|fresh: Seq<u8>, ts: Timestamp, sig: Seq<u8>|
                #![trigger self.request_for(fresh, sig, ts)]
                fresh.len() == NONCE_LENGTH && signature_of(
                    self.signer.pkey@,
                    self.proposal_for(fresh, ts).bytes(),
                ) == Some(sig) && p.channel_name@ == self.channel_name->0@ && p.transaction_id@
                    == self.txid_for(fresh) && p.endorse_request@ == self.request_for(fresh, sig, ts),
    {
        if !self.complete_exec() {
            return self.build_from(Vec::new(), Timestamp { seconds: 0, nanos: 0 });
        }
        let ts = now();
        let fresh = match &self.nonce {
            Some(n) => n.clone(),
            None => match generate_nonce() {
                Ok(n) => n,
                Err(e) => return Err(BuilderError::Crypto(e)),
            },
        };
        let ghost b = self;
        let ghost f = fresh@;
        let r = self.build_from(fresh, ts);
        proof {
            if b.nonce is Some {
                assert(f == b.nonce->0@);
                let _ = b.proposal_for(f, ts);
            }
            if let Ok(p) = &r {
                let sig = signature_of(b.signer.pkey@, b.proposal_for(f, ts).bytes())->0;
                assert(b.request_for(f, sig, ts) == p.endorse_request@);
            }
        }
        r
    }

    fn complete_exec(&self) -> (r: bool)
        ensures
            r == self.complete(),
    {
        self.channel_name.is_some() && self.chaincode_id.is_some() && self.function_name.is_some()
    }
}

/// The first invocation argument is `contract:function` when a non-empty
/// contract is set, and the bare function name otherwise; the function
/// arguments follow.
pub proof fn lemma_first_argument(b: TransactionBuilder)
    requires
        b.function_name is Some,
    ensures
        (b.contract_id is Some && b.contract_id->0@.len() > 0) ==> b.args_view()[0] == encode_utf8(
            b.contract_id->0@ + seq![':'] + b.function_name->0@,
        ),
        (b.contract_id is None || b.contract_id->0@.len() == 0) ==> b.args_view()[0] == encode_utf8(
            b.function_name->0@,
        ),
        b.args_view().len() == b.function_args@.len() + 1,
{
}

/// Reading back a proposal built without overrides gives the header it was
/// built with: the channel header carries the transaction id computed from
/// the nonce and the serialized creator, and the signature header carries
/// that nonce and creator.
pub proof fn lemma_built_transaction_id(b: TransactionBuilder, fresh: Seq<u8>, ts: Timestamp)
    requires
        b.complete(),
        b.header is None,
        b.proposal is None,
        b.transaction_id is None,
        b.proposal_for(fresh, ts).fits(),
        b.built_header(fresh, ts).fits(),
        b.built_channel_header(fresh, ts).fits(),
        crate::messages::fits(b.identity@.bytes()),
        crate::messages::fits(b.nonce_for(fresh)),
    ensures
        proposal_from(b.proposal_for(fresh, ts).bytes()) == Some(b.proposal_for(fresh, ts)),
        b.proposal_for(fresh, ts).header == b.built_header(fresh, ts).bytes(),
        header_from(b.built_header(fresh, ts).bytes()) == Some(b.built_header(fresh, ts)),
        channel_header_from(b.built_header(fresh, ts).channel_header) == Some(
            b.built_channel_header(fresh, ts),
        ),
        signature_header_from(b.built_header(fresh, ts).signature_header) == Some(
            (b.identity@.bytes(), b.nonce_for(fresh)),
        ),
        b.built_channel_header(fresh, ts).tx_id == transaction_id_of(
            b.nonce_for(fresh),
            b.identity@.bytes(),
        ),
{
    lemma_proposal_round_trip(b.proposal_for(fresh, ts));
    lemma_header_round_trip(b.built_header(fresh, ts));
    lemma_channel_header_round_trip(b.built_channel_header(fresh, ts));
    lemma_signature_header_round_trip(b.identity@.bytes(), b.nonce_for(fresh));
}

} // verus!
