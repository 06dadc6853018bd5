//! The message catalog: the network messages this crate builds and reads,
//! each with its encoding, its decoding, and a mathematical view.
//!
//! Encoders leave out fields that hold their default value (zero, empty),
//! except embedded messages, which are written whenever they are present.
//! Decoders keep the last occurrence of a field and skip fields they do not
//! know.
use vstd::prelude::*;
use vstd::utf8::*;
use crate::wire::{
    WireField, WireValue, Field, field_views, fields_bytes, read_fields, last_value,
    bytes_or_empty, varint_or_zero, text_or_empty, all_bytes, opt_bytes, opt_text, opt_varint,
    opt_message, repeated_bytes, well_formed_fields, lemma_read_fields_of, lemma_bytes_back,
    lemma_text_back, group_field_lookup, group_field_bytes, group_optional_fields, decode_fields,
    find_last, get_bytes, get_varint, get_text, get_all_bytes, put_bytes, put_text, put_varint,
    put_message, put_repeated_bytes, FieldValue,
};

verus! {

broadcast use group_field_lookup, group_field_bytes, group_optional_fields;

/// The varint that carries a signed 64-bit value.
pub open spec fn i64_wire(x: i64) -> u64 {
    x as u64
}

/// The varint that carries a signed 32-bit value (sign-extended to 64 bits).
pub open spec fn i32_wire(x: i32) -> u64 {
    (x as i64) as u64
}

pub proof fn lemma_i64_wire(x: i64)
    ensures
        i64_wire(x) as i64 == x,
        (i64_wire(x) == 0) == (x == 0),
{
    assert((x as u64) as i64 == x) by (bit_vector);
    assert(((x as u64) == 0) == (x == 0)) by (bit_vector);
}

pub proof fn lemma_i32_wire(x: i32)
    ensures
        i32_wire(x) as i32 == x,
        (i32_wire(x) == 0) == (x == 0),
{
    assert(((x as i64) as u64) as i32 == x) by (bit_vector);
    assert((((x as i64) as u64) == 0) == (x == 0)) by (bit_vector);
}

/// A byte string that the wire format can carry.
pub open spec fn fits(b: Seq<u8>) -> bool {
    b.len() <= u64::MAX
}

/// A string whose UTF-8 encoding the wire format can carry.
pub open spec fn text_fits(s: Seq<char>) -> bool {
    encode_utf8(s).len() <= u64::MAX
}

// ---------------------------------------------------------------- Timestamp
/// Seconds and nanoseconds since the Unix epoch.
#[derive(Clone, Copy, Debug, PartialEq, Eq, Structural)]
pub struct Timestamp {
    pub seconds: i64,
    pub nanos: i32,
}

pub open spec fn timestamp_fields(t: Timestamp) -> Seq<WireField> {
    opt_varint(1, i64_wire(t.seconds)) + opt_varint(2, i32_wire(t.nanos))
}

pub open spec fn timestamp_bytes(t: Timestamp) -> Seq<u8> {
    fields_bytes(timestamp_fields(t))
}

pub open spec fn timestamp_of_fields(fs: Seq<WireField>) -> Option<Timestamp> {
    match (varint_or_zero(fs, 1), varint_or_zero(fs, 2)) {
        (Some(s), Some(n)) => Some(Timestamp { seconds: s as i64, nanos: n as i32 }),
        _ => None,
    }
}

pub open spec fn timestamp_from(b: Seq<u8>) -> Option<Timestamp> {
    match read_fields(b) {
        Some(fs) => timestamp_of_fields(fs),
        None => None,
    }
}

/// An embedded timestamp: `Some(None)` when absent, `None` when malformed.
pub open spec fn timestamp_field(fs: Seq<WireField>, tag: u32) -> Option<Option<Timestamp>> {
    match last_value(fs, tag) {
        None => Some(None),
        Some(WireValue::Bytes(b)) => match timestamp_from(b) {
            Some(t) => Some(Some(t)),
            None => None,
        },
        Some(_) => None,
    }
}

pub open spec fn opt_timestamp_bytes(t: Option<Timestamp>) -> Option<Seq<u8>> {
    match t {
        Some(t) => Some(timestamp_bytes(t)),
        None => None,
    }
}

impl Timestamp {
    pub fn encode(&self) -> (r: Vec<u8>)
        ensures
            r@ == timestamp_bytes(*self),
    {
        let mut out: Vec<u8> = Vec::new();
        put_varint(&mut out, 1, self.seconds as u64);
        put_varint(&mut out, 2, self.nanos as i64 as u64);
        out
    }

    pub fn decode(b: &[u8]) -> (r: Option<Timestamp>)
        ensures
            r == timestamp_from(b@),
    {
        let fs = match decode_fields(b) {
            Some(fs) => fs,
            None => return None,
        };
        let s = match get_varint(&fs, 1) {
            Some(v) => v,
            None => return None,
        };
        let n = match get_varint(&fs, 2) {
            Some(v) => v,
            None => return None,
        };
        Some(Timestamp { seconds: s as i64, nanos: n as i32 })
    }
}

/// Decoding an encoded timestamp gives it back.
pub proof fn lemma_timestamp_round_trip(t: Timestamp)
    ensures
        timestamp_from(timestamp_bytes(t)) == Some(t),
{
    let fs = timestamp_fields(t);
    lemma_i64_wire(t.seconds);
    lemma_i32_wire(t.nanos);
    lemma_read_fields_of(fs);
}

fn get_timestamp(fs: &Vec<Field>, tag: u32) -> (r: Option<Option<Timestamp>>)
    ensures
        r == timestamp_field(field_views(fs@), tag),
{
    match find_last(fs, tag) {
        None => Some(None),
        Some(i) => match &fs[i].value {
            FieldValue::Bytes(b) => match Timestamp::decode(b.as_slice()) {
                Some(t) => Some(Some(t)),
                None => None,
            },
            _ => None,
        },
    }
}

// ----------------------------------------------------------- SignedProposal
/// A proposal together with the creator's signature over its bytes.
#[derive(Clone, Debug)]
pub struct SignedProposal {
    pub proposal_bytes: Vec<u8>,
    pub signature: Vec<u8>,
}

pub struct SignedProposalView {
    pub proposal_bytes: Seq<u8>,
    pub signature: Seq<u8>,
}

impl View for SignedProposal {
    type V = SignedProposalView;

    open spec fn view(&self) -> SignedProposalView {
        SignedProposalView { proposal_bytes: self.proposal_bytes@, signature: self.signature@ }
    }
}

impl SignedProposalView {
    pub open spec fn fields(self) -> Seq<WireField> {
        opt_bytes(1, self.proposal_bytes) + opt_bytes(2, self.signature)
    }

    pub open spec fn bytes(self) -> Seq<u8> {
        fields_bytes(self.fields())
    }

    pub open spec fn fits(self) -> bool {
        fits(self.proposal_bytes) && fits(self.signature)
    }
}

pub open spec fn signed_proposal_of_fields(fs: Seq<WireField>) -> Option<SignedProposalView> {
    match (bytes_or_empty(fs, 1), bytes_or_empty(fs, 2)) {
        (Some(p), Some(s)) => Some(SignedProposalView { proposal_bytes: p, signature: s }),
        _ => None,
    }
}

pub open spec fn signed_proposal_from(b: Seq<u8>) -> Option<SignedProposalView> {
    match read_fields(b) {
        Some(fs) => signed_proposal_of_fields(fs),
        None => None,
    }
}

impl SignedProposal {
    pub fn encode(&self) -> (r: Vec<u8>)
        ensures
            r@ == self@.bytes(),
    {
        let mut out: Vec<u8> = Vec::new();
        put_bytes(&mut out, 1, self.proposal_bytes.as_slice());
        put_bytes(&mut out, 2, self.signature.as_slice());
        out
    }

    pub fn decode(b: &[u8]) -> (r: Option<SignedProposal>)
        ensures
            match signed_proposal_from(b@) {
                Some(v) => r matches Some(m) && m@ == v,
                None => r is None,
            },
    {
        let fs = match decode_fields(b) {
            Some(fs) => fs,
            None => return None,
        };
        let proposal_bytes = match get_bytes(&fs, 1) {
            Some(v) => v,
            None => return None,
        };
        let signature = match get_bytes(&fs, 2) {
            Some(v) => v,
            None => return None,
        };
        Some(SignedProposal { proposal_bytes, signature })
    }
}

/// Decoding an encoded signed proposal gives it back.
pub proof fn lemma_signed_proposal_round_trip(m: SignedProposalView)
    requires
        m.fits(),
    ensures
        signed_proposal_from(m.bytes()) == Some(m),
{
    let fs = m.fields();
    lemma_read_fields_of(fs);
    lemma_bytes_back(fs, 1, m.proposal_bytes);
    lemma_bytes_back(fs, 2, m.signature);
}

pub open spec fn signed_proposal_field(fs: Seq<WireField>, tag: u32) -> Option<
    Option<SignedProposalView>,
> {
    match last_value(fs, tag) {
        None => Some(None),
        Some(WireValue::Bytes(b)) => match signed_proposal_from(b) {
            Some(m) => Some(Some(m)),
            None => None,
        },
        Some(_) => None,
    }
}

fn get_signed_proposal(fs: &Vec<Field>, tag: u32) -> (r: Option<Option<SignedProposal>>)
    ensures
        match signed_proposal_field(field_views(fs@), tag) {
            Some(Some(v)) => r matches Some(Some(m)) && m@ == v,
            Some(None) => r matches Some(None),
            None => r is None,
        },
{
    match find_last(fs, tag) {
        None => Some(None),
        Some(i) => match &fs[i].value {
            FieldValue::Bytes(b) => match SignedProposal::decode(b.as_slice()) {
                Some(m) => Some(Some(m)),
                None => None,
            },
            _ => None,
        },
    }
}

// ----------------------------------------------------------------- Proposal
/// A transaction proposal: encoded header, payload and extension.
#[derive(Clone, Debug)]
pub struct Proposal {
    pub header: Vec<u8>,
    pub payload: Vec<u8>,
    pub extension: Vec<u8>,
}

pub struct ProposalView {
    pub header: Seq<u8>,
    pub payload: Seq<u8>,
    pub extension: Seq<u8>,
}

impl View for Proposal {
    type V = ProposalView;

    open spec fn view(&self) -> ProposalView {
        ProposalView {
            header: self.header@,
            payload: self.payload@,
            extension: self.extension@,
        }
    }
}

impl ProposalView {
    pub open spec fn fields(self) -> Seq<WireField> {
        opt_bytes(1, self.header) + opt_bytes(2, self.payload) + opt_bytes(3, self.extension)
    }

    pub open spec fn bytes(self) -> Seq<u8> {
        fields_bytes(self.fields())
    }

    pub open spec fn fits(self) -> bool {
        fits(self.header) && fits(self.payload) && fits(self.extension)
    }
}

pub open spec fn proposal_of_fields(fs: Seq<WireField>) -> Option<ProposalView> {
    match (bytes_or_empty(fs, 1), bytes_or_empty(fs, 2), bytes_or_empty(fs, 3)) {
        (Some(h), Some(p), Some(e)) => Some(ProposalView { header: h, payload: p, extension: e }),
        _ => None,
    }
}

pub open spec fn proposal_from(b: Seq<u8>) -> Option<ProposalView> {
    match read_fields(b) {
        Some(fs) => proposal_of_fields(fs),
        None => None,
    }
}

impl Proposal {
    pub fn encode(&self) -> (r: Vec<u8>)
        ensures
            r@ == self@.bytes(),
    {
        let mut out: Vec<u8> = Vec::new();
        put_bytes(&mut out, 1, self.header.as_slice());
        put_bytes(&mut out, 2, self.payload.as_slice());
        put_bytes(&mut out, 3, self.extension.as_slice());
        out
    }

    pub fn decode(b: &[u8]) -> (r: Option<Proposal>)
        ensures
            match proposal_from(b@) {
                Some(v) => r matches Some(m) && m@ == v,
                None => r is None,
            },
    {
        let fs = match decode_fields(b) {
            Some(fs) => fs,
            None => return None,
        };
        let header = match get_bytes(&fs, 1) {
            Some(v) => v,
            None => return None,
        };
        let payload = match get_bytes(&fs, 2) {
            Some(v) => v,
            None => return None,
        };
        let extension = match get_bytes(&fs, 3) {
            Some(v) => v,
            None => return None,
        };
        Some(Proposal { header, payload, extension })
    }
}

/// Decoding an encoded proposal gives it back.
pub proof fn lemma_proposal_round_trip(m: ProposalView)
    requires
        m.fits(),
    ensures
        proposal_from(m.bytes()) == Some(m),
{
    let fs = m.fields();
    lemma_read_fields_of(fs);
    lemma_bytes_back(fs, 1, m.header);
    lemma_bytes_back(fs, 2, m.payload);
    lemma_bytes_back(fs, 3, m.extension);
}

// ------------------------------------------------------------------- Header
/// The encoded channel header and signature header of a proposal.
#[derive(Clone, Debug)]
pub struct Header {
    pub channel_header: Vec<u8>,
    pub signature_header: Vec<u8>,
}

pub struct HeaderView {
    pub channel_header: Seq<u8>,
    pub signature_header: Seq<u8>,
}

impl View for Header {
    type V = HeaderView;

    open spec fn view(&self) -> HeaderView {
        HeaderView {
            channel_header: self.channel_header@,
            signature_header: self.signature_header@,
        }
    }
}

impl HeaderView {
    pub open spec fn fields(self) -> Seq<WireField> {
        opt_bytes(1, self.channel_header) + opt_bytes(2, self.signature_header)
    }

    pub open spec fn bytes(self) -> Seq<u8> {
        fields_bytes(self.fields())
    }

    pub open spec fn fits(self) -> bool {
        fits(self.channel_header) && fits(self.signature_header)
    }
}

pub open spec fn header_of_fields(fs: Seq<WireField>) -> Option<HeaderView> {
    match (bytes_or_empty(fs, 1), bytes_or_empty(fs, 2)) {
        (Some(c), Some(s)) => Some(HeaderView { channel_header: c, signature_header: s }),
        _ => None,
    }
}

pub open spec fn header_from(b: Seq<u8>) -> Option<HeaderView> {
    match read_fields(b) {
        Some(fs) => header_of_fields(fs),
        None => None,
    }
}

impl Header {
    pub fn encode(&self) -> (r: Vec<u8>)
        ensures
            r@ == self@.bytes(),
    {
        let mut out: Vec<u8> = Vec::new();
        put_bytes(&mut out, 1, self.channel_header.as_slice());
        put_bytes(&mut out, 2, self.signature_header.as_slice());
        out
    }

    pub fn decode(b: &[u8]) -> (r: Option<Header>)
        ensures
            match header_from(b@) {
                Some(v) => r matches Some(m) && m@ == v,
                None => r is None,
            },
    {
        let fs = match decode_fields(b) {
            Some(fs) => fs,
            None => return None,
        };
        let channel_header = match get_bytes(&fs, 1) {
            Some(v) => v,
            None => return None,
        };
        let signature_header = match get_bytes(&fs, 2) {
            Some(v) => v,
            None => return None,
        };
        Some(Header { channel_header, signature_header })
    }
}

/// Decoding an encoded header gives it back.
pub proof fn lemma_header_round_trip(m: HeaderView)
    requires
        m.fits(),
    ensures
        header_from(m.bytes()) == Some(m),
{
    let fs = m.fields();
    lemma_read_fields_of(fs);
    lemma_bytes_back(fs, 1, m.channel_header);
    lemma_bytes_back(fs, 2, m.signature_header);
}


fn put_timestamp(out: &mut Vec<u8>, tag: u32, t: &Option<Timestamp>)
    requires
        1 <= tag <= crate::wire::MAX_TAG,
    ensures
        final(out)@ == old(out)@ + fields_bytes(opt_message(tag, opt_timestamp_bytes(*t))),
{
    match t {
        Some(t) => {
            let b = t.encode();
            put_message(out, tag, b.as_slice());
        },
        None => {
            assert(old(out)@ + Seq::<u8>::empty() =~= old(out)@);
        },
    }
}

proof fn lemma_timestamp_fits(t: Timestamp)
    ensures
        timestamp_bytes(t).len() <= 22,
{
    crate::wire::lemma_varint_len(8);
    crate::wire::lemma_varint_len(16);
    crate::wire::lemma_varint_len(i64_wire(t.seconds) as nat);
    crate::wire::lemma_varint_len(i32_wire(t.nanos) as nat);
    assert(crate::wire::varint(8) == seq![8u8]);
    assert(crate::wire::varint(16) == seq![16u8]);
}

proof fn lemma_timestamp_back(fs: Seq<WireField>, tag: u32, t: Option<Timestamp>)
    requires
        last_value(fs, tag) == match t {
            Some(t) => Some(WireValue::Bytes(timestamp_bytes(t))),
            None => None,
        },
    ensures
        timestamp_field(fs, tag) == Some(t),
{
    if let Some(t) = t {
        lemma_timestamp_round_trip(t);
    }
}

// ------------------------------------------------------------ ChannelHeader
/// Header type of an endorser transaction.
pub const ENDORSER_TRANSACTION: i32 = 3;

/// The channel-level header of a proposal.
#[derive(Clone, Debug)]
pub struct ChannelHeader {
    pub header_type: i32,
    pub version: i32,
    pub timestamp: Option<Timestamp>,
    pub channel_id: String,
    pub tx_id: String,
    pub epoch: u64,
    pub extension: Vec<u8>,
    pub tls_cert_hash: Vec<u8>,
}

pub struct ChannelHeaderView {
    pub header_type: i32,
    pub version: i32,
    pub timestamp: Option<Timestamp>,
    pub channel_id: Seq<char>,
    pub tx_id: Seq<char>,
    pub epoch: u64,
    pub extension: Seq<u8>,
    pub tls_cert_hash: Seq<u8>,
}

impl View for ChannelHeader {
    type V = ChannelHeaderView;

    open spec fn view(&self) -> ChannelHeaderView {
        ChannelHeaderView {
            header_type: self.header_type,
            version: self.version,
            timestamp: self.timestamp,
            channel_id: self.channel_id@,
            tx_id: self.tx_id@,
            epoch: self.epoch,
            extension: self.extension@,
            tls_cert_hash: self.tls_cert_hash@,
        }
    }
}

impl ChannelHeaderView {
    pub open spec fn fields(self) -> Seq<WireField> {
        opt_varint(1, i32_wire(self.header_type)) + opt_varint(2, i32_wire(self.version))
            + opt_message(3, opt_timestamp_bytes(self.timestamp)) + opt_text(4, self.channel_id)
            + opt_text(5, self.tx_id) + opt_varint(6, self.epoch) + opt_bytes(7, self.extension)
            + opt_bytes(8, self.tls_cert_hash)
    }

    pub open spec fn bytes(self) -> Seq<u8> {
        fields_bytes(self.fields())
    }

    pub open spec fn fits(self) -> bool {
        &&& text_fits(self.channel_id)
        &&& text_fits(self.tx_id)
        &&& fits(self.extension)
        &&& fits(self.tls_cert_hash)
    }
}

pub open spec fn channel_header_of_fields(fs: Seq<WireField>) -> Option<ChannelHeaderView> {
    match (
        varint_or_zero(fs, 1),
        varint_or_zero(fs, 2),
        timestamp_field(fs, 3),
        text_or_empty(fs, 4),
        text_or_empty(fs, 5),
        varint_or_zero(fs, 6),
        bytes_or_empty(fs, 7),
        bytes_or_empty(fs, 8),
    ) {
        (Some(ty), Some(ver), Some(ts), Some(ch), Some(tx), Some(ep), Some(ext), Some(hash)) => Some(
            ChannelHeaderView {
                header_type: ty as i32,
                version: ver as i32,
                timestamp: ts,
                channel_id: ch,
                tx_id: tx,
                epoch: ep,
                extension: ext,
                tls_cert_hash: hash,
            },
        ),
        _ => None,
    }
}

pub open spec fn channel_header_from(b: Seq<u8>) -> Option<ChannelHeaderView> {
    match read_fields(b) {
        Some(fs) => channel_header_of_fields(fs),
        None => None,
    }
}

impl ChannelHeader {
    pub fn encode(&self) -> (r: Vec<u8>)
        ensures
            r@ == self@.bytes(),
    {
        let mut out: Vec<u8> = Vec::new();
        put_varint(&mut out, 1, self.header_type as i64 as u64);
        put_varint(&mut out, 2, self.version as i64 as u64);
        put_timestamp(&mut out, 3, &self.timestamp);
        put_text(&mut out, 4, &self.channel_id);
        put_text(&mut out, 5, &self.tx_id);
        put_varint(&mut out, 6, self.epoch);
        put_bytes(&mut out, 7, self.extension.as_slice());
        put_bytes(&mut out, 8, self.tls_cert_hash.as_slice());
        out
    }

    pub fn decode(b: &[u8]) -> (r: Option<ChannelHeader>)
        ensures
            match channel_header_from(b@) {
                Some(v) => r matches Some(m) && m@ == v,
                None => r is None,
            },
    {
        let fs = match decode_fields(b) {
            Some(fs) => fs,
            None => return None,
        };
        let ty = match get_varint(&fs, 1) {
            Some(v) => v,
            None => return None,
        };
        let ver = match get_varint(&fs, 2) {
            Some(v) => v,
            None => return None,
        };
        let timestamp = match get_timestamp(&fs, 3) {
            Some(v) => v,
            None => return None,
        };
        let channel_id = match get_text(&fs, 4) {
            Some(v) => v,
            None => return None,
        };
        let tx_id = match get_text(&fs, 5) {
            Some(v) => v,
            None => return None,
        };
        let epoch = match get_varint(&fs, 6) {
            Some(v) => v,
            None => return None,
        };
        let extension = match get_bytes(&fs, 7) {
            Some(v) => v,
            None => return None,
        };
        let tls_cert_hash = match get_bytes(&fs, 8) {
            Some(v) => v,
            None => return None,
        };
        Some(
            ChannelHeader {
                header_type: ty as i32,
                version: ver as i32,
                timestamp,
                channel_id,
                tx_id,
                epoch,
                extension,
                tls_cert_hash,
            },
        )
    }
}

proof fn lemma_channel_header_well_formed(m: ChannelHeaderView)
    requires
        m.fits(),
    ensures
        well_formed_fields(m.fields()),
{
    if let Some(t) = m.timestamp {
        lemma_timestamp_fits(t);
    }
}

proof fn lemma_channel_header_lookups(m: ChannelHeaderView)
    ensures
        varint_or_zero(m.fields(), 1) == Some(i32_wire(m.header_type)),
        varint_or_zero(m.fields(), 2) == Some(i32_wire(m.version)),
        timestamp_field(m.fields(), 3) == Some(m.timestamp),
        text_or_empty(m.fields(), 4) == Some(m.channel_id),
        text_or_empty(m.fields(), 5) == Some(m.tx_id),
        varint_or_zero(m.fields(), 6) == Some(m.epoch),
        bytes_or_empty(m.fields(), 7) == Some(m.extension),
        bytes_or_empty(m.fields(), 8) == Some(m.tls_cert_hash),
{
    let fs = m.fields();
    lemma_i32_wire(m.header_type);
    lemma_i32_wire(m.version);
    lemma_timestamp_back(fs, 3, m.timestamp);
    lemma_text_back(fs, 4, m.channel_id);
    lemma_text_back(fs, 5, m.tx_id);
    lemma_bytes_back(fs, 7, m.extension);
    lemma_bytes_back(fs, 8, m.tls_cert_hash);
}

/// Decoding an encoded channel header gives it back.
pub proof fn lemma_channel_header_round_trip(m: ChannelHeaderView)
    requires
        m.fits(),
    ensures
        channel_header_from(m.bytes()) == Some(m),
{
    lemma_channel_header_well_formed(m);
    lemma_read_fields_of(m.fields());
    lemma_channel_header_lookups(m);
    lemma_i32_wire(m.header_type);
    lemma_i32_wire(m.version);
}

// ----------------------------------------------------------- ChaincodeEvent
/// An event that a chaincode attached to a transaction.
#[derive(Clone, Debug)]
pub struct ChaincodeEvent {
    pub chaincode_id: String,
    pub tx_id: String,
    pub event_name: String,
    pub payload: Vec<u8>,
}

pub struct ChaincodeEventView {
    pub chaincode_id: Seq<char>,
    pub tx_id: Seq<char>,
    pub event_name: Seq<char>,
    pub payload: Seq<u8>,
}

impl View for ChaincodeEvent {
    type V = ChaincodeEventView;

    open spec fn view(&self) -> ChaincodeEventView {
        ChaincodeEventView {
            chaincode_id: self.chaincode_id@,
            tx_id: self.tx_id@,
            event_name: self.event_name@,
            payload: self.payload@,
        }
    }
}

impl ChaincodeEventView {
    pub open spec fn fields(self) -> Seq<WireField> {
        opt_text(1, self.chaincode_id) + opt_text(2, self.tx_id) + opt_text(3, self.event_name)
            + opt_bytes(4, self.payload)
    }

    pub open spec fn bytes(self) -> Seq<u8> {
        fields_bytes(self.fields())
    }

    pub open spec fn fits(self) -> bool {
        &&& text_fits(self.chaincode_id)
        &&& text_fits(self.tx_id)
        &&& text_fits(self.event_name)
        &&& fits(self.payload)
    }
}

pub open spec fn chaincode_event_of_fields(fs: Seq<WireField>) -> Option<ChaincodeEventView> {
    match (text_or_empty(fs, 1), text_or_empty(fs, 2), text_or_empty(fs, 3), bytes_or_empty(fs, 4)) {
        (Some(c), Some(t), Some(e), Some(p)) => Some(
            ChaincodeEventView { chaincode_id: c, tx_id: t, event_name: e, payload: p },
        ),
        _ => None,
    }
}

pub open spec fn chaincode_event_from(b: Seq<u8>) -> Option<ChaincodeEventView> {
    match read_fields(b) {
        Some(fs) => chaincode_event_of_fields(fs),
        None => None,
    }
}

impl ChaincodeEvent {
    pub fn encode(&self) -> (r: Vec<u8>)
        ensures
            r@ == self@.bytes(),
    {
        let mut out: Vec<u8> = Vec::new();
        put_text(&mut out, 1, &self.chaincode_id);
        put_text(&mut out, 2, &self.tx_id);
        put_text(&mut out, 3, &self.event_name);
        put_bytes(&mut out, 4, self.payload.as_slice());
        out
    }

    pub fn decode(b: &[u8]) -> (r: Option<ChaincodeEvent>)
        ensures
            match chaincode_event_from(b@) {
                Some(v) => r matches Some(m) && m@ == v,
                None => r is None,
            },
    {
        let fs = match decode_fields(b) {
            Some(fs) => fs,
            None => return None,
        };
        let chaincode_id = match get_text(&fs, 1) {
            Some(v) => v,
            None => return None,
        };
        let tx_id = match get_text(&fs, 2) {
            Some(v) => v,
            None => return None,
        };
        let event_name = match get_text(&fs, 3) {
            Some(v) => v,
            None => return None,
        };
        let payload = match get_bytes(&fs, 4) {
            Some(v) => v,
            None => return None,
        };
        Some(ChaincodeEvent { chaincode_id, tx_id, event_name, payload })
    }
}

/// Decoding an encoded chaincode event gives it back.
pub proof fn lemma_chaincode_event_round_trip(m: ChaincodeEventView)
    requires
        m.fits(),
    ensures
        chaincode_event_from(m.bytes()) == Some(m),
{
    let fs = m.fields();
    lemma_read_fields_of(fs);
    lemma_text_back(fs, 1, m.chaincode_id);
    lemma_text_back(fs, 2, m.tx_id);
    lemma_text_back(fs, 3, m.event_name);
    lemma_bytes_back(fs, 4, m.payload);
}

pub open spec fn chaincode_event_field(fs: Seq<WireField>, tag: u32) -> Option<
    Option<ChaincodeEventView>,
> {
    match last_value(fs, tag) {
        None => Some(None),
        Some(WireValue::Bytes(b)) => match chaincode_event_from(b) {
            Some(m) => Some(Some(m)),
            None => None,
        },
        Some(_) => None,
    }
}

fn get_chaincode_event(fs: &Vec<Field>, tag: u32) -> (r: Option<Option<ChaincodeEvent>>)
    ensures
        match chaincode_event_field(field_views(fs@), tag) {
            Some(Some(v)) => r matches Some(Some(m)) && m@ == v,
            Some(None) => r matches Some(None),
            None => r is None,
        },
{
    match find_last(fs, tag) {
        None => Some(None),
        Some(i) => match &fs[i].value {
            FieldValue::Bytes(b) => match ChaincodeEvent::decode(b.as_slice()) {
                Some(m) => Some(Some(m)),
                None => None,
            },
            _ => None,
        },
    }
}

// --------------------------------------------------------- ChaincodeMessage
/// Message types of the chaincode stream.
pub const REGISTER: i32 = 1;
pub const REGISTERED: i32 = 2;
pub const INIT: i32 = 3;
pub const READY: i32 = 4;
pub const TRANSACTION: i32 = 5;
pub const COMPLETED: i32 = 6;
pub const ERROR: i32 = 7;
pub const GET_STATE: i32 = 8;
pub const PUT_STATE: i32 = 9;
pub const DEL_STATE: i32 = 10;
pub const RESPONSE: i32 = 13;
pub const GET_STATE_BY_RANGE: i32 = 14;
pub const QUERY_STATE_NEXT: i32 = 16;

/// The unit of the chaincode stream.
#[derive(Clone, Debug)]
pub struct ChaincodeMessage {
    pub message_type: i32,
    pub timestamp: Option<Timestamp>,
    pub payload: Vec<u8>,
    pub txid: String,
    pub proposal: Option<SignedProposal>,
    pub chaincode_event: Option<ChaincodeEvent>,
    pub channel_id: String,
}

pub struct ChaincodeMessageView {
    pub message_type: i32,
    pub timestamp: Option<Timestamp>,
    pub payload: Seq<u8>,
    pub txid: Seq<char>,
    pub proposal: Option<SignedProposalView>,
    pub chaincode_event: Option<ChaincodeEventView>,
    pub channel_id: Seq<char>,
}

pub open spec fn opt_signed_proposal_view(p: Option<SignedProposal>) -> Option<SignedProposalView> {
    match p {
        Some(p) => Some(p@),
        None => None,
    }
}

pub open spec fn opt_chaincode_event_view(e: Option<ChaincodeEvent>) -> Option<ChaincodeEventView> {
    match e {
        Some(e) => Some(e@),
        None => None,
    }
}

impl View for ChaincodeMessage {
    type V = ChaincodeMessageView;

    open spec fn view(&self) -> ChaincodeMessageView {
        ChaincodeMessageView {
            message_type: self.message_type,
            timestamp: self.timestamp,
            payload: self.payload@,
            txid: self.txid@,
            proposal: opt_signed_proposal_view(self.proposal),
            chaincode_event: opt_chaincode_event_view(self.chaincode_event),
            channel_id: self.channel_id@,
        }
    }
}

impl ChaincodeMessageView {
    pub open spec fn proposal_bytes(self) -> Option<Seq<u8>> {
        match self.proposal {
            Some(p) => Some(p.bytes()),
            None => None,
        }
    }

    pub open spec fn event_bytes(self) -> Option<Seq<u8>> {
        match self.chaincode_event {
            Some(e) => Some(e.bytes()),
            None => None,
        }
    }

    pub open spec fn fields(self) -> Seq<WireField> {
        opt_varint(1, i32_wire(self.message_type)) + opt_message(
            2,
            opt_timestamp_bytes(self.timestamp),
        ) + opt_bytes(3, self.payload) + opt_text(4, self.txid) + opt_message(
            5,
            self.proposal_bytes(),
        ) + opt_message(6, self.event_bytes()) + opt_text(7, self.channel_id)
    }

    pub open spec fn bytes(self) -> Seq<u8> {
        fields_bytes(self.fields())
    }

    pub open spec fn fits(self) -> bool {
        &&& fits(self.payload)
        &&& text_fits(self.txid)
        &&& text_fits(self.channel_id)
        &&& (self.proposal matches Some(p) ==> p.fits() && fits(p.bytes()))
        &&& (self.chaincode_event matches Some(e) ==> e.fits() && fits(e.bytes()))
    }
}

pub open spec fn chaincode_message_of_fields(fs: Seq<WireField>) -> Option<ChaincodeMessageView> {
    match (
        varint_or_zero(fs, 1),
        timestamp_field(fs, 2),
        bytes_or_empty(fs, 3),
        text_or_empty(fs, 4),
        signed_proposal_field(fs, 5),
        chaincode_event_field(fs, 6),
        text_or_empty(fs, 7),
    ) {
        (Some(ty), Some(ts), Some(p), Some(tx), Some(sp), Some(ev), Some(ch)) => Some(
            ChaincodeMessageView {
                message_type: ty as i32,
                timestamp: ts,
                payload: p,
                txid: tx,
                proposal: sp,
                chaincode_event: ev,
                channel_id: ch,
            },
        ),
        _ => None,
    }
}

pub open spec fn chaincode_message_from(b: Seq<u8>) -> Option<ChaincodeMessageView> {
    match read_fields(b) {
        Some(fs) => chaincode_message_of_fields(fs),
        None => None,
    }
}

impl ChaincodeMessage {
    pub fn encode(&self) -> (r: Vec<u8>)
        ensures
            r@ == self@.bytes(),
    {
        let mut out: Vec<u8> = Vec::new();
        put_varint(&mut out, 1, self.message_type as i64 as u64);
        put_timestamp(&mut out, 2, &self.timestamp);
        put_bytes(&mut out, 3, self.payload.as_slice());
        put_text(&mut out, 4, &self.txid);
        match &self.proposal {
            Some(p) => {
                let b = p.encode();
                put_message(&mut out, 5, b.as_slice());
            },
            None => {},
        }
        match &self.chaincode_event {
            Some(e) => {
                let b = e.encode();
                put_message(&mut out, 6, b.as_slice());
            },
            None => {},
        }
        put_text(&mut out, 7, &self.channel_id);
        proof {
            let v = self@;
            assert(out@ =~= fields_bytes(opt_varint(1, i32_wire(v.message_type))) + fields_bytes(
                opt_message(2, opt_timestamp_bytes(v.timestamp)),
            ) + fields_bytes(opt_bytes(3, v.payload)) + fields_bytes(opt_text(4, v.txid))
                + fields_bytes(opt_message(5, v.proposal_bytes())) + fields_bytes(
                opt_message(6, v.event_bytes()),
            ) + fields_bytes(opt_text(7, v.channel_id)));
        }
        out
    }

    pub fn decode(b: &[u8]) -> (r: Option<ChaincodeMessage>)
        ensures
            match chaincode_message_from(b@) {
                Some(v) => r matches Some(m) && m@ == v,
                None => r is None,
            },
    {
        let fs = match decode_fields(b) {
            Some(fs) => fs,
            None => return None,
        };
        let ty = match get_varint(&fs, 1) {
            Some(v) => v,
            None => return None,
        };
        let timestamp = match get_timestamp(&fs, 2) {
            Some(v) => v,
            None => return None,
        };
        let payload = match get_bytes(&fs, 3) {
            Some(v) => v,
            None => return None,
        };
        let txid = match get_text(&fs, 4) {
            Some(v) => v,
            None => return None,
        };
        let proposal = match get_signed_proposal(&fs, 5) {
            Some(v) => v,
            None => return None,
        };
        let chaincode_event = match get_chaincode_event(&fs, 6) {
            Some(v) => v,
            None => return None,
        };
        let channel_id = match get_text(&fs, 7) {
            Some(v) => v,
            None => return None,
        };
        Some(
            ChaincodeMessage {
                message_type: ty as i32,
                timestamp,
                payload,
                txid,
                proposal,
                chaincode_event,
                channel_id,
            },
        )
    }
}

proof fn lemma_chaincode_message_well_formed(m: ChaincodeMessageView)
    requires
        m.fits(),
    ensures
        well_formed_fields(m.fields()),
{
    if let Some(t) = m.timestamp {
        lemma_timestamp_fits(t);
    }
}

proof fn lemma_chaincode_message_lookups(m: ChaincodeMessageView)
    requires
        m.fits(),
    ensures
        varint_or_zero(m.fields(), 1) == Some(i32_wire(m.message_type)),
        timestamp_field(m.fields(), 2) == Some(m.timestamp),
        bytes_or_empty(m.fields(), 3) == Some(m.payload),
        text_or_empty(m.fields(), 4) == Some(m.txid),
        signed_proposal_field(m.fields(), 5) == Some(m.proposal),
        chaincode_event_field(m.fields(), 6) == Some(m.chaincode_event),
        text_or_empty(m.fields(), 7) == Some(m.channel_id),
{
    let fs = m.fields();
    lemma_i32_wire(m.message_type);
    lemma_timestamp_back(fs, 2, m.timestamp);
    lemma_bytes_back(fs, 3, m.payload);
    lemma_text_back(fs, 4, m.txid);
    if let Some(p) = m.proposal {
        lemma_signed_proposal_round_trip(p);
    }
    if let Some(e) = m.chaincode_event {
        lemma_chaincode_event_round_trip(e);
    }
    lemma_text_back(fs, 7, m.channel_id);
}

/// Decoding an encoded chaincode message gives it back.
pub proof fn lemma_chaincode_message_round_trip(m: ChaincodeMessageView)
    requires
        m.fits(),
    ensures
        chaincode_message_from(m.bytes()) == Some(m),
{
    lemma_chaincode_message_well_formed(m);
    lemma_read_fields_of(m.fields());
    lemma_chaincode_message_lookups(m);
    lemma_i32_wire(m.message_type);
}


// ------------------------------------------------------- SerializedIdentity
/// An identity: the membership service provider id and the certificate bytes.
#[derive(Clone, Debug)]
pub struct SerializedIdentity {
    pub mspid: String,
    pub id_bytes: Vec<u8>,
}

pub struct IdentityView {
    pub mspid: Seq<char>,
    pub id_bytes: Seq<u8>,
}

impl View for SerializedIdentity {
    type V = IdentityView;

    open spec fn view(&self) -> IdentityView {
        IdentityView { mspid: self.mspid@, id_bytes: self.id_bytes@ }
    }
}

impl IdentityView {
    /// The canonical serialization, used wherever the creator is referenced.
    pub open spec fn bytes(self) -> Seq<u8> {
        fields_bytes(opt_text(1, self.mspid) + opt_bytes(2, self.id_bytes))
    }
}

impl SerializedIdentity {
    pub fn encode(&self) -> (r: Vec<u8>)
        ensures
            r@ == self@.bytes(),
    {
        let mut out: Vec<u8> = Vec::new();
        put_text(&mut out, 1, &self.mspid);
        put_bytes(&mut out, 2, self.id_bytes.as_slice());
        out
    }
}

// -------------------------------------------------------------- ChaincodeId
/// Name, version and path of a chaincode.
#[derive(Clone, Debug)]
pub struct ChaincodeId {
    pub path: String,
    pub name: String,
    pub version: String,
}

pub struct ChaincodeIdView {
    pub path: Seq<char>,
    pub name: Seq<char>,
    pub version: Seq<char>,
}

impl View for ChaincodeId {
    type V = ChaincodeIdView;

    open spec fn view(&self) -> ChaincodeIdView {
        ChaincodeIdView { path: self.path@, name: self.name@, version: self.version@ }
    }
}

impl ChaincodeIdView {
    pub open spec fn bytes(self) -> Seq<u8> {
        fields_bytes(opt_text(1, self.path) + opt_text(2, self.name) + opt_text(3, self.version))
    }
}

impl ChaincodeId {
    pub fn encode(&self) -> (r: Vec<u8>)
        ensures
            r@ == self@.bytes(),
    {
        let mut out: Vec<u8> = Vec::new();
        put_text(&mut out, 1, &self.path);
        put_text(&mut out, 2, &self.name);
        put_text(&mut out, 3, &self.version);
        out
    }
}

/// The chaincode header extension: the chaincode id in field 2.
pub open spec fn header_extension_bytes(chaincode_id: Seq<u8>) -> Seq<u8> {
    fields_bytes(opt_message(2, Some(chaincode_id)))
}

pub fn encode_header_extension(chaincode_id: &[u8]) -> (r: Vec<u8>)
    ensures
        r@ == header_extension_bytes(chaincode_id@),
{
    let mut out: Vec<u8> = Vec::new();
    put_message(&mut out, 2, chaincode_id);
    out
}

/// The signature header: the serialized creator and the nonce.
pub open spec fn signature_header_bytes(creator: Seq<u8>, nonce: Seq<u8>) -> Seq<u8> {
    fields_bytes(opt_bytes(1, creator) + opt_bytes(2, nonce))
}

/// The creator and nonce of an encoded signature header.
pub open spec fn signature_header_from(b: Seq<u8>) -> Option<(Seq<u8>, Seq<u8>)> {
    match read_fields(b) {
        Some(fs) => match (bytes_or_empty(fs, 1), bytes_or_empty(fs, 2)) {
            (Some(c), Some(n)) => Some((c, n)),
            _ => None,
        },
        None => None,
    }
}

/// Decoding an encoded signature header gives its creator and nonce back.
pub proof fn lemma_signature_header_round_trip(creator: Seq<u8>, nonce: Seq<u8>)
    requires
        fits(creator),
        fits(nonce),
    ensures
        signature_header_from(signature_header_bytes(creator, nonce)) == Some((creator, nonce)),
{
    let fs = opt_bytes(1, creator) + opt_bytes(2, nonce);
    lemma_read_fields_of(fs);
    lemma_bytes_back(fs, 1, creator);
    lemma_bytes_back(fs, 2, nonce);
}

pub fn encode_signature_header(creator: &[u8], nonce: &[u8]) -> (r: Vec<u8>)
    ensures
        r@ == signature_header_bytes(creator@, nonce@),
{
    let mut out: Vec<u8> = Vec::new();
    put_bytes(&mut out, 1, creator);
    put_bytes(&mut out, 2, nonce);
    out
}

// ----------------------------------------------------------- ChaincodeInput
/// The arguments of an invocation; the first one names the function.
#[derive(Clone, Debug)]
pub struct ChaincodeInput {
    pub args: Vec<Vec<u8>>,
    pub is_init: bool,
}

pub struct ChaincodeInputView {
    pub args: Seq<Seq<u8>>,
    pub is_init: bool,
}

impl View for ChaincodeInput {
    type V = ChaincodeInputView;

    open spec fn view(&self) -> ChaincodeInputView {
        ChaincodeInputView {
            args: self.args@.map_values(|a: Vec<u8>| a@),
            is_init: self.is_init,
        }
    }
}

impl ChaincodeInputView {
    pub open spec fn bytes(self) -> Seq<u8> {
        fields_bytes(
            repeated_bytes(1, self.args) + opt_varint(
                3,
                if self.is_init {
                    1
                } else {
                    0
                },
            ),
        )
    }
}

pub open spec fn chaincode_input_from(b: Seq<u8>) -> Option<ChaincodeInputView> {
    match read_fields(b) {
        Some(fs) => match (all_bytes(fs, 1), varint_or_zero(fs, 3)) {
            (Some(args), Some(i)) => Some(ChaincodeInputView { args, is_init: i != 0 }),
            _ => None,
        },
        None => None,
    }
}

impl ChaincodeInput {
    pub fn encode(&self) -> (r: Vec<u8>)
        ensures
            r@ == self@.bytes(),
    {
        let mut out: Vec<u8> = Vec::new();
        put_repeated_bytes(&mut out, 1, &self.args);
        put_varint(
            &mut out,
            3,
            if self.is_init {
                1
            } else {
                0
            },
        );
        out
    }

    pub fn decode(b: &[u8]) -> (r: Option<ChaincodeInput>)
        ensures
            match chaincode_input_from(b@) {
                Some(v) => r matches Some(m) && m@ == v,
                None => r is None,
            },
    {
        let fs = match decode_fields(b) {
            Some(fs) => fs,
            None => return None,
        };
        let args = match get_all_bytes(&fs, 1) {
            Some(v) => v,
            None => return None,
        };
        let i = match get_varint(&fs, 3) {
            Some(v) => v,
            None => return None,
        };
        let r = ChaincodeInput { args, is_init: i != 0 };
        proof {
            let items = all_bytes(field_views(fs@), 1)->0;
            assert(r@.args =~= items);
        }
        Some(r)
    }
}

/// Language tag of a chaincode specification.
pub const GOLANG: u64 = 1;

/// A chaincode specification: language, chaincode id and input.
pub open spec fn chaincode_spec_bytes(chaincode_id: Seq<u8>, input: Seq<u8>) -> Seq<u8> {
    fields_bytes(
        opt_varint(1, GOLANG) + opt_message(2, Some(chaincode_id)) + opt_message(3, Some(input)),
    )
}

/// An invocation specification wrapping a chaincode specification.
pub open spec fn invocation_spec_bytes(spec: Seq<u8>) -> Seq<u8> {
    fields_bytes(opt_message(1, Some(spec)))
}

/// A chaincode proposal payload: the invocation and an empty transient map.
pub open spec fn proposal_payload_bytes(invocation: Seq<u8>) -> Seq<u8> {
    fields_bytes(opt_bytes(1, invocation))
}

/// The proposal payload that invokes `input` on the chaincode `chaincode_id`.
pub open spec fn invocation_payload_bytes(chaincode_id: Seq<u8>, input: Seq<u8>) -> Seq<u8> {
    proposal_payload_bytes(invocation_spec_bytes(chaincode_spec_bytes(chaincode_id, input)))
}

pub fn encode_invocation_payload(chaincode_id: &[u8], input: &[u8]) -> (r: Vec<u8>)
    ensures
        r@ == invocation_payload_bytes(chaincode_id@, input@),
{
    let mut spec: Vec<u8> = Vec::new();
    put_varint(&mut spec, 1, GOLANG);
    put_message(&mut spec, 2, chaincode_id);
    put_message(&mut spec, 3, input);
    let mut invocation: Vec<u8> = Vec::new();
    put_message(&mut invocation, 1, spec.as_slice());
    let mut out: Vec<u8> = Vec::new();
    put_bytes(&mut out, 1, invocation.as_slice());
    out
}

// ----------------------------------------------------------------- Response
/// Status codes of a chaincode response.
pub const SUCCESS: i32 = 200;
pub const NOT_FOUND: i32 = 404;
pub const INTERNAL_SERVER_ERROR: i32 = 500;

/// The outcome of a chaincode invocation.
#[derive(Clone, Debug)]
pub struct Response {
    pub status: i32,
    pub message: String,
    pub payload: Vec<u8>,
}

pub struct ResponseView {
    pub status: i32,
    pub message: Seq<char>,
    pub payload: Seq<u8>,
}

impl View for Response {
    type V = ResponseView;

    open spec fn view(&self) -> ResponseView {
        ResponseView { status: self.status, message: self.message@, payload: self.payload@ }
    }
}

impl ResponseView {
    pub open spec fn bytes(self) -> Seq<u8> {
        fields_bytes(
            opt_varint(1, i32_wire(self.status)) + opt_text(2, self.message) + opt_bytes(
                3,
                self.payload,
            ),
        )
    }
}

pub open spec fn response_from(b: Seq<u8>) -> Option<ResponseView> {
    match read_fields(b) {
        Some(fs) => match (varint_or_zero(fs, 1), text_or_empty(fs, 2), bytes_or_empty(fs, 3)) {
            (Some(st), Some(msg), Some(p)) => Some(
                ResponseView { status: st as i32, message: msg, payload: p },
            ),
            _ => None,
        },
        None => None,
    }
}

impl Response {
    pub fn encode(&self) -> (r: Vec<u8>)
        ensures
            r@ == self@.bytes(),
    {
        let mut out: Vec<u8> = Vec::new();
        put_varint(&mut out, 1, self.status as i64 as u64);
        put_text(&mut out, 2, &self.message);
        put_bytes(&mut out, 3, self.payload.as_slice());
        out
    }

    pub fn decode(b: &[u8]) -> (r: Option<Response>)
        ensures
            match response_from(b@) {
                Some(v) => r matches Some(m) && m@ == v,
                None => r is None,
            },
    {
        let fs = match decode_fields(b) {
            Some(fs) => fs,
            None => return None,
        };
        let status = match get_varint(&fs, 1) {
            Some(v) => v,
            None => return None,
        };
        let message = match get_text(&fs, 2) {
            Some(v) => v,
            None => return None,
        };
        let payload = match get_bytes(&fs, 3) {
            Some(v) => v,
            None => return None,
        };
        Some(Response { status: status as i32, message, payload })
    }
}

// ----------------------------------------------------------------- Envelope
/// A signed payload as handed to the ordering service.
#[derive(Clone, Debug)]
pub struct Envelope {
    pub payload: Vec<u8>,
    pub signature: Vec<u8>,
}

pub struct EnvelopeView {
    pub payload: Seq<u8>,
    pub signature: Seq<u8>,
}

impl View for Envelope {
    type V = EnvelopeView;

    open spec fn view(&self) -> EnvelopeView {
        EnvelopeView { payload: self.payload@, signature: self.signature@ }
    }
}

impl EnvelopeView {
    pub open spec fn bytes(self) -> Seq<u8> {
        fields_bytes(opt_bytes(1, self.payload) + opt_bytes(2, self.signature))
    }
}

pub open spec fn envelope_from(b: Seq<u8>) -> Option<EnvelopeView> {
    match read_fields(b) {
        Some(fs) => match (bytes_or_empty(fs, 1), bytes_or_empty(fs, 2)) {
            (Some(p), Some(sig)) => Some(EnvelopeView { payload: p, signature: sig }),
            _ => None,
        },
        None => None,
    }
}

impl Envelope {
    pub fn encode(&self) -> (r: Vec<u8>)
        ensures
            r@ == self@.bytes(),
    {
        let mut out: Vec<u8> = Vec::new();
        put_bytes(&mut out, 1, self.payload.as_slice());
        put_bytes(&mut out, 2, self.signature.as_slice());
        out
    }

    pub fn decode(b: &[u8]) -> (r: Option<Envelope>)
        ensures
            match envelope_from(b@) {
                Some(v) => r matches Some(m) && m@ == v,
                None => r is None,
            },
    {
        let fs = match decode_fields(b) {
            Some(fs) => fs,
            None => return None,
        };
        let payload = match get_bytes(&fs, 1) {
            Some(v) => v,
            None => return None,
        };
        let signature = match get_bytes(&fs, 2) {
            Some(v) => v,
            None => return None,
        };
        Some(Envelope { payload, signature })
    }
}

/// The reply to an endorsement: the prepared envelope, when there is one.
pub open spec fn endorse_response_from(b: Seq<u8>) -> Option<Option<EnvelopeView>> {
    match read_fields(b) {
        Some(fs) => match last_value(fs, 1) {
            None => Some(None),
            Some(WireValue::Bytes(e)) => match envelope_from(e) {
                Some(env) => Some(Some(env)),
                None => None,
            },
            Some(_) => None,
        },
        None => None,
    }
}

/// Decodes an endorsement reply: `Some(None)` when it carries no envelope.
pub fn decode_endorse_response(b: &[u8]) -> (r: Option<Option<Envelope>>)
    ensures
        match endorse_response_from(b@) {
            Some(Some(v)) => r matches Some(Some(m)) && m@ == v,
            Some(None) => r matches Some(None),
            None => r is None,
        },
{
    let fs = match decode_fields(b) {
        Some(fs) => fs,
        None => return None,
    };
    match find_last(&fs, 1) {
        None => Some(None),
        Some(i) => match &fs[i].value {
            FieldValue::Bytes(e) => match Envelope::decode(e.as_slice()) {
                Some(env) => Some(Some(env)),
                None => None,
            },
            _ => None,
        },
    }
}


// ------------------------------------------------------ gateway requests
pub open spec fn texts_bytes(items: Seq<Seq<char>>) -> Seq<Seq<u8>> {
    items.map_values(|t: Seq<char>| encode_utf8(t))
}

fn texts_to_bytes(items: &Vec<String>) -> (r: Vec<Vec<u8>>)
    ensures
        r@.map_values(|b: Vec<u8>| b@) == texts_bytes(items@.map_values(|t: String| t@)),
{
    let mut out: Vec<Vec<u8>> = Vec::new();
    let mut i: usize = 0;
    while i < items.len()
        invariant
            i <= items@.len(),
            out@.len() == i,
            forall|j: int| 0 <= j < i ==> (#[trigger] out@[j])@ == encode_utf8(items@[j]@),
        decreases items@.len() - i,
    {
        out.push(crate::crypto::text_bytes(&items[i]));
        i = i + 1;
    }
    proof {
        assert(out@.map_values(|b: Vec<u8>| b@) =~= texts_bytes(
            items@.map_values(|t: String| t@),
        ));
    }
    out
}

/// A request to endorse a signed proposal.
#[derive(Clone, Debug)]
pub struct EndorseRequest {
    pub transaction_id: String,
    pub channel_id: String,
    pub proposed_transaction: Option<SignedProposal>,
    pub endorsing_organizations: Vec<String>,
}

pub struct EndorseRequestView {
    pub transaction_id: Seq<char>,
    pub channel_id: Seq<char>,
    pub proposed_transaction: Option<SignedProposalView>,
    pub endorsing_organizations: Seq<Seq<char>>,
}

impl View for EndorseRequest {
    type V = EndorseRequestView;

    open spec fn view(&self) -> EndorseRequestView {
        EndorseRequestView {
            transaction_id: self.transaction_id@,
            channel_id: self.channel_id@,
            proposed_transaction: opt_signed_proposal_view(self.proposed_transaction),
            endorsing_organizations: self.endorsing_organizations@.map_values(|t: String| t@),
        }
    }
}

impl EndorseRequestView {
    pub open spec fn bytes(self) -> Seq<u8> {
        fields_bytes(
            opt_text(1, self.transaction_id) + opt_text(2, self.channel_id) + opt_message(
                3,
                match self.proposed_transaction {
                    Some(p) => Some(p.bytes()),
                    None => None,
                },
            ) + repeated_bytes(4, texts_bytes(self.endorsing_organizations)),
        )
    }
}

impl EndorseRequest {
    pub fn encode(&self) -> (r: Vec<u8>)
        ensures
            r@ == self@.bytes(),
    {
        let mut out: Vec<u8> = Vec::new();
        put_text(&mut out, 1, &self.transaction_id);
        put_text(&mut out, 2, &self.channel_id);
        match &self.proposed_transaction {
            Some(p) => {
                let b = p.encode();
                put_message(&mut out, 3, b.as_slice());
            },
            None => {},
        }
        let orgs = texts_to_bytes(&self.endorsing_organizations);
        put_repeated_bytes(&mut out, 4, &orgs);
        out
    }
}

/// A request to submit an endorsed envelope.
#[derive(Clone, Debug)]
pub struct SubmitRequest {
    pub transaction_id: String,
    pub channel_id: String,
    pub prepared_transaction: Option<Envelope>,
}

pub struct SubmitRequestView {
    pub transaction_id: Seq<char>,
    pub channel_id: Seq<char>,
    pub prepared_transaction: Option<EnvelopeView>,
}

impl View for SubmitRequest {
    type V = SubmitRequestView;

    open spec fn view(&self) -> SubmitRequestView {
        SubmitRequestView {
            transaction_id: self.transaction_id@,
            channel_id: self.channel_id@,
            prepared_transaction: match self.prepared_transaction {
                Some(e) => Some(e@),
                None => None,
            },
        }
    }
}

impl SubmitRequestView {
    pub open spec fn bytes(self) -> Seq<u8> {
        fields_bytes(
            opt_text(1, self.transaction_id) + opt_text(2, self.channel_id) + opt_message(
                3,
                match self.prepared_transaction {
                    Some(e) => Some(e.bytes()),
                    None => None,
                },
            ),
        )
    }
}

impl SubmitRequest {
    pub fn encode(&self) -> (r: Vec<u8>)
        ensures
            r@ == self@.bytes(),
    {
        let mut out: Vec<u8> = Vec::new();
        put_text(&mut out, 1, &self.transaction_id);
        put_text(&mut out, 2, &self.channel_id);
        match &self.prepared_transaction {
            Some(e) => {
                let b = e.encode();
                put_message(&mut out, 3, b.as_slice());
            },
            None => {},
        }
        out
    }
}

// -------------------------------------------------------- state requests
/// `GetState{key, collection: ""}`.
pub open spec fn get_state_bytes(key: Seq<char>) -> Seq<u8> {
    fields_bytes(opt_text(1, key))
}

/// `PutState{key, value, collection: ""}`.
pub open spec fn put_state_bytes(key: Seq<char>, value: Seq<u8>) -> Seq<u8> {
    fields_bytes(opt_text(1, key) + opt_bytes(2, value))
}

/// `DelState{key, collection: ""}`.
pub open spec fn del_state_bytes(key: Seq<char>) -> Seq<u8> {
    fields_bytes(opt_text(1, key))
}

/// `GetStateByRange{start_key, end_key, collection: "", metadata: []}`.
pub open spec fn get_state_by_range_bytes(start_key: Seq<char>, end_key: Seq<char>) -> Seq<u8> {
    fields_bytes(opt_text(1, start_key) + opt_text(2, end_key))
}

pub fn encode_get_state(key: &String) -> (r: Vec<u8>)
    ensures
        r@ == get_state_bytes(key@),
{
    let mut out: Vec<u8> = Vec::new();
    put_text(&mut out, 1, key);
    out
}

pub fn encode_put_state(key: &String, value: &[u8]) -> (r: Vec<u8>)
    ensures
        r@ == put_state_bytes(key@, value@),
{
    let mut out: Vec<u8> = Vec::new();
    put_text(&mut out, 1, key);
    put_bytes(&mut out, 2, value);
    out
}

pub fn encode_del_state(key: &String) -> (r: Vec<u8>)
    ensures
        r@ == del_state_bytes(key@),
{
    let mut out: Vec<u8> = Vec::new();
    put_text(&mut out, 1, key);
    out
}

pub fn encode_get_state_by_range(start_key: &String, end_key: &String) -> (r: Vec<u8>)
    ensures
        r@ == get_state_by_range_bytes(start_key@, end_key@),
{
    let mut out: Vec<u8> = Vec::new();
    put_text(&mut out, 1, start_key);
    put_text(&mut out, 2, end_key);
    out
}

// ------------------------------------------------------- nested lookups
/// The bytes of field `tag` of the message `b`: empty when absent.
pub open spec fn field_of(b: Seq<u8>, tag: u32) -> Option<Seq<u8>> {
    match read_fields(b) {
        Some(fs) => bytes_or_empty(fs, tag),
        None => None,
    }
}

/// The embedded message in field `tag` of `b`, which must be present.
pub open spec fn present_field_of(b: Seq<u8>, tag: u32) -> Option<Seq<u8>> {
    match read_fields(b) {
        Some(fs) => match last_value(fs, tag) {
            Some(WireValue::Bytes(x)) => Some(x),
            _ => None,
        },
        None => None,
    }
}

fn field_of_exec(b: &[u8], tag: u32) -> (r: Option<Vec<u8>>)
    ensures
        match field_of(b@, tag) {
            Some(x) => r matches Some(v) && v@ == x,
            None => r is None,
        },
{
    match decode_fields(b) {
        Some(fs) => get_bytes(&fs, tag),
        None => None,
    }
}

fn present_field_of_exec(b: &[u8], tag: u32) -> (r: Option<Vec<u8>>)
    ensures
        match present_field_of(b@, tag) {
            Some(x) => r matches Some(v) && v@ == x,
            None => r is None,
        },
{
    let fs = match decode_fields(b) {
        Some(fs) => fs,
        None => return None,
    };
    match find_last(&fs, tag) {
        Some(i) => match &fs[i].value {
            FieldValue::Bytes(x) => Some(x.clone()),
            _ => None,
        },
        None => None,
    }
}

// ------------------------------------------------------------ range reply
/// The value of a `KV` record (field 3).
pub open spec fn kv_value(record: Seq<u8>) -> Option<Seq<u8>> {
    field_of(record, 3)
}

/// The value carried by one `QueryResultBytes` item: its `result_bytes`
/// decoded as a `KV` record.
pub open spec fn query_result_value(item: Seq<u8>) -> Option<Seq<u8>> {
    match field_of(item, 1) {
        Some(record) => kv_value(record),
        None => None,
    }
}

pub open spec fn values_of(items: Seq<Seq<u8>>) -> Option<Seq<Seq<u8>>>
    decreases items.len(),
{
    if items.len() == 0 {
        Some(seq![])
    } else {
        match (values_of(items.drop_last()), query_result_value(items.last())) {
            (Some(vs), Some(v)) => Some(vs.push(v)),
            _ => None,
        }
    }
}

/// The values of a `QueryResponse`, in order.
pub open spec fn range_values_from(b: Seq<u8>) -> Option<Seq<Seq<u8>>> {
    match read_fields(b) {
        Some(fs) => match all_bytes(fs, 1) {
            Some(items) => values_of(items),
            None => None,
        },
        None => None,
    }
}

proof fn lemma_values_of_none_extends(items: Seq<Seq<u8>>, k: int)
    requires
        0 <= k <= items.len(),
        values_of(items.subrange(0, k)) is None,
    ensures
        values_of(items) is None,
    decreases items.len() - k,
{
    if k == items.len() {
        assert(items.subrange(0, k) =~= items);
    } else {
        assert(items.subrange(0, k + 1).drop_last() =~= items.subrange(0, k));
        lemma_values_of_none_extends(items, k + 1);
    }
}

fn query_result_value_exec(item: &[u8]) -> (r: Option<Vec<u8>>)
    ensures
        match query_result_value(item@) {
            Some(x) => r matches Some(v) && v@ == x,
            None => r is None,
        },
{
    match field_of_exec(item, 1) {
        Some(record) => field_of_exec(record.as_slice(), 3),
        None => None,
    }
}

/// Decodes a range reply into the values of its records.
pub fn decode_range_values(b: &[u8]) -> (r: Option<Vec<Vec<u8>>>)
    ensures
        match range_values_from(b@) {
            Some(vs) => r matches Some(v) && v@.map_values(|x: Vec<u8>| x@) == vs,
            None => r is None,
        },
{
    let fs = match decode_fields(b) {
        Some(fs) => fs,
        None => return None,
    };
    let items = match get_all_bytes(&fs, 1) {
        Some(v) => v,
        None => return None,
    };
    let ghost all = all_bytes(field_views(fs@), 1)->0;
    let mut out: Vec<Vec<u8>> = Vec::new();
    let mut i: usize = 0;
    proof {
        assert(all.subrange(0, 0) =~= Seq::<Seq<u8>>::empty());
        assert(out@.map_values(|x: Vec<u8>| x@) =~= Seq::<Seq<u8>>::empty());
    }
    while i < items.len()
        invariant
            i <= items@.len(),
            items@.len() == all.len(),
            forall|j: int| 0 <= j < all.len() ==> (#[trigger] items@[j])@ == all[j],
            values_of(all.subrange(0, i as int)) == Some(out@.map_values(|x: Vec<u8>| x@)),
            range_values_from(b@) == values_of(all),
        decreases items@.len() - i,
    {
        let ghost pre = all.subrange(0, i as int);
        assert(all.subrange(0, i + 1).drop_last() =~= pre);
        assert(all.subrange(0, i + 1).last() == all[i as int]);
        let value = match query_result_value_exec(items[i].as_slice()) {
            Some(x) => x,
            None => {
                proof {
                    assert(query_result_value(all[i as int]) is None);
                    assert(values_of(all.subrange(0, i + 1)) is None);
                    lemma_values_of_none_extends(all, i + 1);
                }
                return None;
            },
        };
        let ghost before = out@;
        out.push(value);
        proof {
            assert(out@.map_values(|x: Vec<u8>| x@) =~= before.map_values(|x: Vec<u8>| x@).push(
                value@,
            ));
        }
        i = i + 1;
    }
    proof {
        assert(all.subrange(0, all.len() as int) =~= all);
    }
    Some(out)
}

// ------------------------------------------------------ endorsed result
/// The response payload of one transaction action: action payload, then the
/// endorsed action, its proposal response payload, the chaincode action in
/// its extension, and the response of that chaincode action.
pub open spec fn action_result(action: Seq<u8>) -> Option<Seq<u8>> {
    match field_of(action, 2) {
        Some(action_payload) => match present_field_of(action_payload, 2) {
            Some(endorsed) => match field_of(endorsed, 1) {
                Some(response_payload) => match field_of(response_payload, 2) {
                    Some(chaincode_action) => match present_field_of(chaincode_action, 3) {
                        Some(response) => field_of(response, 3),
                        None => None,
                    },
                    None => None,
                },
                None => None,
            },
            None => None,
        },
        None => None,
    }
}

/// The last non-empty action result, empty if there is none.
pub open spec fn last_result(actions: Seq<Seq<u8>>) -> Seq<u8>
    decreases actions.len(),
{
    if actions.len() == 0 {
        seq![]
    } else {
        match action_result(actions.last()) {
            Some(p) => if p.len() > 0 {
                p
            } else {
                last_result(actions.drop_last())
            },
            None => last_result(actions.drop_last()),
        }
    }
}

/// The user-visible result of an endorsed envelope payload: the payload's
/// data decoded as a transaction, and the last non-empty result of its
/// actions; empty where the payload cannot be read.
pub open spec fn endorsed_result(payload: Seq<u8>) -> Seq<u8> {
    match field_of(payload, 2) {
        Some(data) => match read_fields(data) {
            Some(fs) => match all_bytes(fs, 1) {
                Some(actions) => last_result(actions),
                None => seq![],
            },
            None => seq![],
        },
        None => seq![],
    }
}

fn action_result_exec(action: &[u8]) -> (r: Option<Vec<u8>>)
    ensures
        match action_result(action@) {
            Some(x) => r matches Some(v) && v@ == x,
            None => r is None,
        },
{
    let action_payload = match field_of_exec(action, 2) {
        Some(x) => x,
        None => return None,
    };
    let endorsed = match present_field_of_exec(action_payload.as_slice(), 2) {
        Some(x) => x,
        None => return None,
    };
    let response_payload = match field_of_exec(endorsed.as_slice(), 1) {
        Some(x) => x,
        None => return None,
    };
    let chaincode_action = match field_of_exec(response_payload.as_slice(), 2) {
        Some(x) => x,
        None => return None,
    };
    let response = match present_field_of_exec(chaincode_action.as_slice(), 3) {
        Some(x) => x,
        None => return None,
    };
    field_of_exec(response.as_slice(), 3)
}

/// Extracts the user-visible result from an endorsed envelope's payload.
pub fn extract_result(payload: &[u8]) -> (r: Vec<u8>)
    ensures
        r@ == endorsed_result(payload@),
{
    let data = match field_of_exec(payload, 2) {
        Some(x) => x,
        None => return Vec::new(),
    };
    let fs = match decode_fields(data.as_slice()) {
        Some(fs) => fs,
        None => return Vec::new(),
    };
    let actions = match get_all_bytes(&fs, 1) {
        Some(v) => v,
        None => return Vec::new(),
    };
    let ghost all = all_bytes(field_views(fs@), 1)->0;
    let mut result: Vec<u8> = Vec::new();
    let mut i: usize = 0;
    proof {
        assert(all.subrange(0, 0) =~= Seq::<Seq<u8>>::empty());
    }
    while i < actions.len()
        invariant
            i <= actions@.len(),
            actions@.len() == all.len(),
            forall|j: int| 0 <= j < all.len() ==> (#[trigger] actions@[j])@ == all[j],
            result@ == last_result(all.subrange(0, i as int)),
        decreases actions@.len() - i,
    {
        assert(all.subrange(0, i + 1).drop_last() =~= all.subrange(0, i as int));
        assert(all.subrange(0, i + 1).last() == all[i as int]);
        match action_result_exec(actions[i].as_slice()) {
            Some(p) => {
                if p.len() > 0 {
                    result = p;
                }
            },
            None => {},
        }
        i = i + 1;
    }
    proof {
        assert(all.subrange(0, all.len() as int) =~= all);
    }
    result
}

} // verus!
