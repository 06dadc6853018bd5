//! What a chaincode function sees of its transaction: metadata accessors,
//! and the state requests it sends to the peer and the replies it reads.
//!
//! Each request goes out on the peer stream; the reply that comes back with
//! the same transaction id is handed to the matching reader. A context has
//! at most one request in flight.
use vstd::prelude::*;
use crate::chaincode::message::{MessageBuilder, copy_event, copy_signed_proposal};
use crate::messages::{
    ChaincodeEvent, ChaincodeMessage, ChaincodeMessageView, ChannelHeader, Header, Proposal,
    SignedProposal, DEL_STATE, GET_STATE, GET_STATE_BY_RANGE, PUT_STATE, channel_header_from,
    decode_range_values, del_state_bytes, encode_del_state, encode_get_state,
    encode_get_state_by_range, encode_put_state, get_state_bytes, get_state_by_range_bytes,
    header_from, opt_chaincode_event_view, opt_signed_proposal_view, proposal_from,
    put_state_bytes, range_values_from,
};
use crate::transaction::TransactionBuilder;

verus! {

/// The start key that stands for "no start key" in a range query.
pub open spec fn unspecified_start_key() -> Seq<char> {
    seq!['\u{1}']
}

/// The start key a range query sends: the given one, or the unspecified
/// start key in place of an empty one.
pub open spec fn range_start(start_key: Seq<char>) -> Seq<char> {
    if start_key.len() == 0 {
        unspecified_start_key()
    } else {
        start_key
    }
}

/// The seconds of the transaction timestamp: signed proposal, proposal,
/// header, channel header, timestamp.
pub open spec fn tx_timestamp_of(m: ChaincodeMessageView) -> Option<i64> {
    match m.proposal {
        Some(sp) => match proposal_from(sp.proposal_bytes) {
            Some(p) => match header_from(p.header) {
                Some(h) => match channel_header_from(h.channel_header) {
                    Some(ch) => match ch.timestamp {
                        Some(t) => Some(t.seconds),
                        None => None,
                    },
                    None => None,
                },
                None => None,
            },
            None => None,
        },
        None => None,
    }
}

/// A request in the context of the invocation `invocation`.
pub open spec fn request_of(
    r: ChaincodeMessageView,
    invocation: ChaincodeMessageView,
    message_type: i32,
    payload: Seq<u8>,
) -> bool {
    &&& r.message_type == message_type
    &&& r.payload == payload
    &&& r.timestamp == invocation.timestamp
    &&& r.txid == invocation.txid
    &&& r.proposal == invocation.proposal
    &&& r.chaincode_event == invocation.chaincode_event
    &&& r.channel_id == invocation.channel_id
}

/// The message builder after a reply went out: no cached id or proposal.
pub open spec fn cleared(before: TransactionBuilder, after: TransactionBuilder) -> bool {
    after == (TransactionBuilder { transaction_id: None, proposal: None, ..before })
}

/// The context of one invocation: the inbound message that started it.
pub struct Context {
    pub message: ChaincodeMessage,
}

impl Context {
    pub fn new(message: ChaincodeMessage) -> (r: Context)
        ensures
            r.message == message,
    {
        Context { message }
    }

    /// The `GET_STATE` request for `key`.
    pub fn get_state(&self, builder: &mut MessageBuilder, key: &String) -> (r: ChaincodeMessage)
        ensures
            request_of(r@, self.message@, GET_STATE, get_state_bytes(key@)),
            cleared(old(builder).transaction_builder, final(builder).transaction_builder),
    {
        builder.respond(GET_STATE, encode_get_state(key), &self.message)
    }

    /// The `GET_STATE_BY_RANGE` request from `start_key` to `end_key`; an
    /// empty start key is sent as the unspecified start key.
    pub fn get_state_by_range(
        &self,
        builder: &mut MessageBuilder,
        start_key: &String,
        end_key: &String,
    ) -> (r: ChaincodeMessage)
        ensures
            request_of(
                r@,
                self.message@,
                GET_STATE_BY_RANGE,
                get_state_by_range_bytes(range_start(start_key@), end_key@),
            ),
            cleared(old(builder).transaction_builder, final(builder).transaction_builder),
    {
        let payload = if start_key.as_str().is_empty() {
            let unspecified = String::from_str("\u{1}");
            proof {
                reveal_strlit("\u{1}");
                assert(unspecified@ =~= unspecified_start_key());
            }
            encode_get_state_by_range(&unspecified, end_key)
        } else {
            encode_get_state_by_range(start_key, end_key)
        };
        builder.respond(GET_STATE_BY_RANGE, payload, &self.message)
    }

    /// The `PUT_STATE` request that stores `value` under `key`.
    pub fn put_state(&self, builder: &mut MessageBuilder, key: &String, value: &[u8]) -> (r:
        ChaincodeMessage)
        ensures
            request_of(r@, self.message@, PUT_STATE, put_state_bytes(key@, value@)),
            cleared(old(builder).transaction_builder, final(builder).transaction_builder),
    {
        builder.respond(PUT_STATE, encode_put_state(key, value), &self.message)
    }

    /// The `PUT_STATE` request that stores the UTF-8 bytes of `value`.
    pub fn put_state_string(&self, builder: &mut MessageBuilder, key: &String, value: &String) -> (r:
        ChaincodeMessage)
        ensures
            request_of(
                r@,
                self.message@,
                PUT_STATE,
                put_state_bytes(key@, vstd::utf8::encode_utf8(value@)),
            ),
            cleared(old(builder).transaction_builder, final(builder).transaction_builder),
    {
        let bytes = crate::crypto::text_bytes(value);
        self.put_state(builder, key, bytes.as_slice())
    }

    /// The `DEL_STATE` request for `key`.
    pub fn del_state(&self, builder: &mut MessageBuilder, key: &String) -> (r: ChaincodeMessage)
        ensures
            request_of(r@, self.message@, DEL_STATE, del_state_bytes(key@)),
            cleared(old(builder).transaction_builder, final(builder).transaction_builder),
    {
        builder.respond(DEL_STATE, encode_del_state(key), &self.message)
    }

    /// The value that a reply to `get_state` carries: its payload, verbatim.
    pub fn state_value(reply: &ChaincodeMessage) -> (r: Vec<u8>)
        ensures
            r@ == reply.payload@,
    {
        reply.payload.clone()
    }

    /// The value of a reply to `get_state` as text, if it is UTF-8.
    pub fn state_string(reply: &ChaincodeMessage) -> (r: Option<String>)
        ensures
            r is Some == vstd::utf8::valid_utf8(reply.payload@),
            r matches Some(s) ==> s@ == vstd::utf8::decode_utf8(reply.payload@),
    {
        crate::crypto::utf8_text(reply.payload.as_slice())
    }

    /// The values of a reply to `get_state_by_range`: the `value` of each
    /// `KV` record, in order; `None` when the reply cannot be decoded.
    pub fn range_values(reply: &ChaincodeMessage) -> (r: Option<Vec<Vec<u8>>>)
        ensures
            match range_values_from(reply.payload@) {
                Some(vs) => r matches Some(v) && v@.map_values(|x: Vec<u8>| x@) == vs,
                None => r is None,
            },
    {
        decode_range_values(reply.payload.as_slice())
    }

    /// The transaction timestamp in seconds, if the proposal carries one.
    pub fn get_tx_timestamp(&self) -> (r: Option<i64>)
        ensures
            r == tx_timestamp_of(self.message@),
    {
        let signed = match &self.message.proposal {
            Some(p) => p,
            None => return None,
        };
        let proposal = match Proposal::decode(signed.proposal_bytes.as_slice()) {
            Some(p) => p,
            None => return None,
        };
        let header = match Header::decode(proposal.header.as_slice()) {
            Some(h) => h,
            None => return None,
        };
        let channel_header = match ChannelHeader::decode(header.channel_header.as_slice()) {
            Some(c) => c,
            None => return None,
        };
        match channel_header.timestamp {
            Some(t) => Some(t.seconds),
            None => None,
        }
    }

    /// The channel id of the invocation.
    pub fn get_channel_id(&self) -> (r: String)
        ensures
            r@ == self.message.channel_id@,
    {
        self.message.channel_id.clone()
    }

    /// The transaction id of the invocation.
    pub fn get_tx_id(&self) -> (r: String)
        ensures
            r@ == self.message.txid@,
    {
        self.message.txid.clone()
    }

    /// The signed proposal of the invocation, if it carries one.
    pub fn get_signed_proposal(&self) -> (r: Option<SignedProposal>)
        ensures
            opt_signed_proposal_view(r) == opt_signed_proposal_view(self.message.proposal),
    {
        copy_signed_proposal(&self.message.proposal)
    }

    /// The chaincode event of the invocation, if any.
    pub fn get_event(&self) -> (r: Option<ChaincodeEvent>)
        ensures
            opt_chaincode_event_view(r) == opt_chaincode_event_view(self.message.chaincode_event),
    {
        copy_event(&self.message.chaincode_event)
    }
}

} // verus!
