//! Framing of the messages that the chaincode sends on the peer stream.
use vstd::prelude::*;
use crate::chaincode::Metadata;
use crate::crypto::text_bytes;
use crate::error::BuilderError;
use crate::messages::{
    ChaincodeEvent, ChaincodeInput, ChaincodeMessage, ChaincodeMessageView, ChannelHeaderView,
    HeaderView, Proposal, channel_header_from, header_from, proposal_from, signature_header_from,
    lemma_channel_header_round_trip, lemma_header_round_trip, lemma_proposal_round_trip,
    lemma_signature_header_round_trip,
    ProposalView, SerializedIdentity, SignedProposal, SignedProposalView, Timestamp,
    opt_chaincode_event_view, opt_signed_proposal_view,
};
use crate::signer::{Signer, signature_of};
use crate::transaction::{
    NONCE_LENGTH, TransactionBuilder, assemble_proposal, channel_header_for, generate_nonce,
    header_bytes_for, header_for, now, proposal_for,
};
use crate::crypto::transaction_id_of;

verus! {

pub fn copy_signed_proposal(p: &Option<SignedProposal>) -> (r: Option<SignedProposal>)
    ensures
        opt_signed_proposal_view(r) == opt_signed_proposal_view(*p),
{
    match p {
        Some(p) => Some(
            SignedProposal { proposal_bytes: p.proposal_bytes.clone(), signature: p.signature.clone() },
        ),
        None => None,
    }
}

pub fn copy_event(e: &Option<ChaincodeEvent>) -> (r: Option<ChaincodeEvent>)
    ensures
        opt_chaincode_event_view(r) == opt_chaincode_event_view(*e),
{
    match e {
        Some(e) => Some(
            ChaincodeEvent {
                chaincode_id: e.chaincode_id.clone(),
                tx_id: e.tx_id.clone(),
                event_name: e.event_name.clone(),
                payload: e.payload.clone(),
            },
        ),
        None => None,
    }
}

pub open spec fn text_or_empty_view(o: Option<String>) -> Seq<char> {
    match o {
        Some(s) => s@,
        None => seq![],
    }
}

/// The proposal a sent message carries: the builder's, else one for the
/// configured chaincode and channel with no arguments.
pub open spec fn sent_proposal(b: TransactionBuilder, fresh: Seq<u8>, ts: Timestamp) -> ProposalView {
    match b.proposal {
        Some(p) => p@,
        None => proposal_for(
            header_bytes_for(
                b.header,
                b.identity,
                text_or_empty_view(b.channel_name),
                b.txid_for(fresh),
                b.nonce_for(fresh),
                ts,
                text_or_empty_view(b.chaincode_id),
            ),
            text_or_empty_view(b.chaincode_id),
            seq![],
        ),
    }
}

/// The header of a sent proposal when the builder holds none.
pub open spec fn sent_header(b: TransactionBuilder, fresh: Seq<u8>, ts: Timestamp) -> HeaderView {
    header_for(
        b.identity@.bytes(),
        b.identity.id_bytes@,
        text_or_empty_view(b.channel_name),
        b.txid_for(fresh),
        b.nonce_for(fresh),
        ts,
        text_or_empty_view(b.chaincode_id),
    )
}

/// The channel header inside `sent_header`.
pub open spec fn sent_channel_header(b: TransactionBuilder, fresh: Seq<u8>, ts: Timestamp) -> ChannelHeaderView {
    channel_header_for(
        text_or_empty_view(b.channel_name),
        b.txid_for(fresh),
        ts,
        text_or_empty_view(b.chaincode_id),
        b.identity.id_bytes@,
    )
}

/// Reading back the proposal of a sent message, from a builder without
/// overrides, gives its header: the channel header carries the message's
/// transaction id, computed from the nonce and the serialized identity, and
/// the signature header carries that nonce and identity.
pub proof fn lemma_sent_transaction_id(b: TransactionBuilder, fresh: Seq<u8>, ts: Timestamp)
    requires
        b.header is None,
        b.proposal is None,
        b.transaction_id is None,
        sent_proposal(b, fresh, ts).fits(),
        sent_header(b, fresh, ts).fits(),
        sent_channel_header(b, fresh, ts).fits(),
        crate::messages::fits(b.identity@.bytes()),
        crate::messages::fits(b.nonce_for(fresh)),
    ensures
        proposal_from(sent_proposal(b, fresh, ts).bytes()) == Some(sent_proposal(b, fresh, ts)),
        sent_proposal(b, fresh, ts).header == sent_header(b, fresh, ts).bytes(),
        header_from(sent_header(b, fresh, ts).bytes()) == Some(sent_header(b, fresh, ts)),
        channel_header_from(sent_header(b, fresh, ts).channel_header) == Some(
            sent_channel_header(b, fresh, ts),
        ),
        signature_header_from(sent_header(b, fresh, ts).signature_header) == Some(
            (b.identity@.bytes(), b.nonce_for(fresh)),
        ),
        sent_channel_header(b, fresh, ts).tx_id == b.txid_for(fresh),
        b.txid_for(fresh) == transaction_id_of(b.nonce_for(fresh), b.identity@.bytes()),
{
    lemma_proposal_round_trip(sent_proposal(b, fresh, ts));
    lemma_header_round_trip(sent_header(b, fresh, ts));
    lemma_channel_header_round_trip(sent_channel_header(b, fresh, ts));
    lemma_signature_header_round_trip(b.identity@.bytes(), b.nonce_for(fresh));
}

/// `m` is the message sent with type, payload and signature `sig`.
pub open spec fn sent_message(
    b: TransactionBuilder,
    fresh: Seq<u8>,
    ts: Timestamp,
    message_type: i32,
    payload: Seq<u8>,
    sig: Seq<u8>,
    m: ChaincodeMessageView,
) -> bool {
    m == (ChaincodeMessageView {
        message_type,
        timestamp: Some(ts),
        payload,
        txid: b.txid_for(fresh),
        proposal: Some(
            SignedProposalView { proposal_bytes: sent_proposal(b, fresh, ts).bytes(), signature: sig },
        ),
        chaincode_event: None,
        channel_id: text_or_empty_view(b.channel_name),
    })
}

/// Builds the messages of the chaincode: fresh ones and replies.
pub struct MessageBuilder {
    pub transaction_builder: TransactionBuilder,
}

impl MessageBuilder {
    /// A builder for the chaincode that `metadata` describes.
    pub fn new(metadata: &Metadata) -> (r: MessageBuilder)
        ensures
            r.transaction_builder.identity.mspid@ == metadata.mspid@,
            r.transaction_builder.identity.id_bytes@ == vstd::utf8::encode_utf8(metadata.root_cert@),
            r.transaction_builder.channel_name is None,
            r.transaction_builder.header is None,
            r.transaction_builder.signer.pkey@ == vstd::utf8::encode_utf8(metadata.client_key@),
            r.transaction_builder.chaincode_id matches Some(c) && c@ == metadata.chaincode_id.name@,
            r.transaction_builder.transaction_id is None,
            r.transaction_builder.proposal is None,
            r.transaction_builder.nonce is None,
    {
        let identity = SerializedIdentity {
            mspid: metadata.mspid.clone(),
            id_bytes: text_bytes(&metadata.root_cert),
        };
        let signer = Signer::new(text_bytes(&metadata.client_key));
        let mut b = TransactionBuilder::new(identity, signer);
        b.chaincode_id = Some(metadata.chaincode_id.name.clone());
        MessageBuilder { transaction_builder: b }
    }

    /// A new message: a transaction id from the nonce (the builder's, else
    /// `fresh_nonce`) and the identity, unless the builder holds one, and a
    /// signed proposal built from the configured chaincode and channel
    /// (empty when unset) with no arguments, unless the builder holds one.
    pub fn send_with(
        &self,
        message_type: i32,
        payload: Vec<u8>,
        fresh_nonce: Vec<u8>,
        timestamp: Timestamp,
    ) -> (r: Result<ChaincodeMessage, BuilderError>)
        ensures
            match signature_of(
                self.transaction_builder.signer.pkey@,
                sent_proposal(self.transaction_builder, fresh_nonce@, timestamp).bytes(),
            ) {
                Some(sig) => r matches Ok(m) && sent_message(
                    self.transaction_builder,
                    fresh_nonce@,
                    timestamp,
                    message_type,
                    payload@,
                    sig,
                    m@,
                ),
                None => r matches Err(BuilderError::Crypto(_)),
            },
    {
        let b = &self.transaction_builder;
        let nonce = match &b.nonce {
            Some(n) => n.clone(),
            None => fresh_nonce,
        };
        let txid = match &b.transaction_id {
            Some(t) => t.clone(),
            None => {
                let creator = b.identity.encode();
                crate::crypto::generate_transaction_id(nonce.as_slice(), creator.as_slice())
            },
        };
        let channel_id = match &b.channel_name {
            Some(c) => c.clone(),
            None => String::new(),
        };
        let chaincode = match &b.chaincode_id {
            Some(c) => c.clone(),
            None => String::new(),
        };
        let proposal = match &b.proposal {
            Some(p) => Proposal {
                header: p.header.clone(),
                payload: p.payload.clone(),
                extension: p.extension.clone(),
            },
            None => {
                let input = ChaincodeInput { args: Vec::new(), is_init: false };
                proof {
                    assert(input@.args =~= Seq::<Seq<u8>>::empty());
                }
                assemble_proposal(
                    &b.identity,
                    &channel_id,
                    &chaincode,
                    &txid,
                    nonce.as_slice(),
                    timestamp,
                    &b.header,
                    &input,
                )
            },
        };
        let proposal_bytes = proposal.encode();
        let signature = match b.signer.sign_message(proposal_bytes.as_slice()) {
            Ok(s) => s,
            Err(e) => return Err(BuilderError::Crypto(e)),
        };
        Ok(
            ChaincodeMessage {
                message_type,
                timestamp: Some(timestamp),
                payload,
                txid,
                proposal: Some(SignedProposal { proposal_bytes, signature }),
                chaincode_event: None,
                channel_id,
            },
        )
    }

    /// `send_with` on a fresh random nonce and the current time.
    pub fn send(&mut self, message_type: i32, payload: Vec<u8>) -> (r: Result<
        ChaincodeMessage,
        BuilderError,
    >)
        ensures
            *final(self) == *old(self),
            r matches Ok(m) ==> exists|fresh: Seq<u8>, ts: Timestamp, sig: Seq<u8>|
                #![trigger sent_message(old(self).transaction_builder, fresh, ts, message_type, payload@, sig, m@)]
                fresh.len() == NONCE_LENGTH && signature_of(
                    old(self).transaction_builder.signer.pkey@,
                    sent_proposal(old(self).transaction_builder, fresh, ts).bytes(),
                ) == Some(sig) && sent_message(
                    old(self).transaction_builder,
                    fresh,
                    ts,
                    message_type,
                    payload@,
                    sig,
                    m@,
                ),
    {
        let fresh = match generate_nonce() {
            Ok(n) => n,
            Err(e) => {
                return Err(BuilderError::Crypto(e));
            },
        };
        let ts = now();
        let ghost f = fresh@;
        let ghost pl = payload@;
        let r = self.send_with(message_type, payload, fresh, ts);
        proof {
            if let Ok(m) = &r {
                let sig = signature_of(
                    self.transaction_builder.signer.pkey@,
                    sent_proposal(self.transaction_builder, f, ts).bytes(),
                )->0;
                assert(sent_message(self.transaction_builder, f, ts, message_type, pl, sig, m@));
            }
        }
        r
    }

    /// A reply to `original`: its timestamp, transaction id, proposal, event
    /// and channel with the given type and payload. Clears the builder's
    /// cached transaction id and proposal.
    pub fn respond(&mut self, message_type: i32, payload: Vec<u8>, original: &ChaincodeMessage) -> (r:
        ChaincodeMessage)
        ensures
            r@.message_type == message_type,
            r@.payload == payload@,
            r@.timestamp == original@.timestamp,
            r@.txid == original@.txid,
            r@.proposal == original@.proposal,
            r@.chaincode_event == original@.chaincode_event,
            r@.channel_id == original@.channel_id,
            final(self).transaction_builder == (TransactionBuilder {
                transaction_id: None,
                proposal: None,
                ..old(self).transaction_builder
            }),
    {
        let message = ChaincodeMessage {
            message_type,
            timestamp: original.timestamp,
            payload,
            txid: original.txid.clone(),
            proposal: copy_signed_proposal(&original.proposal),
            chaincode_event: copy_event(&original.chaincode_event),
            channel_id: original.channel_id.clone(),
        };
        self.transaction_builder.with_transaction_id(None);
        self.transaction_builder.with_proposal(None);
        message
    }
}

} // verus!
