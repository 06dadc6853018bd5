use fabric_sdk::messages::{
    ChaincodeEvent, ChaincodeMessage, ChannelHeader, Header, Proposal, SignedProposal, Timestamp,
    TRANSACTION,
};
use fabric_sdk::wire::{decode_fields, encode_fields, write_varint, Field, FieldValue};

#[test]
fn varint_of_300_is_two_bytes() {
    let mut out = Vec::new();
    write_varint(&mut out, 300);
    assert_eq!(out, vec![0xac, 0x02]);
}

#[test]
fn varint_of_max_is_ten_bytes() {
    let mut out = Vec::new();
    write_varint(&mut out, u64::MAX);
    assert_eq!(out.len(), 10);
    assert_eq!(out[9], 0x01);
}

#[test]
fn fields_round_trip() {
    let fields = vec![
        Field { tag: 1, value: FieldValue::Varint(150) },
        Field { tag: 2, value: FieldValue::Bytes(b"testing".to_vec()) },
        Field { tag: 536870911, value: FieldValue::Bytes(vec![]) },
    ];
    let bytes = encode_fields(&fields);
    assert_eq!(&bytes[..3], &[0x08, 0x96, 0x01]);
    assert_eq!(decode_fields(&bytes), Some(fields));
}

#[test]
fn truncated_field_is_rejected() {
    assert_eq!(decode_fields(&[0x12, 0x05, b'a']), None);
    assert_eq!(decode_fields(&[0x0d, 0, 0, 0]), None);
    assert_eq!(decode_fields(&[0x09, 1, 2, 3, 4, 5, 6, 7]), None);
    assert_eq!(decode_fields(&[0x0b]), None);
    assert_eq!(decode_fields(&[0x00, 0x01]), None);
}

#[test]
fn timestamp_encoding_is_exact() {
    let t = Timestamp { seconds: 1, nanos: 2 };
    assert_eq!(t.encode(), vec![0x08, 0x01, 0x10, 0x02]);
    assert_eq!(Timestamp::decode(&t.encode()), Some(t));
    let negative = Timestamp { seconds: -5, nanos: -1 };
    assert_eq!(negative.encode().len(), 22);
    assert_eq!(Timestamp::decode(&negative.encode()), Some(negative));
    assert_eq!(Timestamp { seconds: 0, nanos: 0 }.encode(), Vec::<u8>::new());
}

#[test]
fn proposal_round_trip() {
    let p = Proposal { header: vec![1, 2, 3], payload: vec![], extension: b"ext".to_vec() };
    let back = Proposal::decode(&p.encode()).unwrap();
    assert_eq!(back.header, p.header);
    assert_eq!(back.payload, p.payload);
    assert_eq!(back.extension, p.extension);
}

#[test]
fn signed_proposal_round_trip() {
    let p = SignedProposal { proposal_bytes: vec![9; 300], signature: vec![0x30, 0x44] };
    let back = SignedProposal::decode(&p.encode()).unwrap();
    assert_eq!(back.proposal_bytes, p.proposal_bytes);
    assert_eq!(back.signature, p.signature);
}

#[test]
fn header_round_trip() {
    let h = Header { channel_header: vec![7; 3], signature_header: vec![8; 4] };
    let back = Header::decode(&h.encode()).unwrap();
    assert_eq!(back.channel_header, h.channel_header);
    assert_eq!(back.signature_header, h.signature_header);
}

#[test]
fn channel_header_round_trip() {
    let c = ChannelHeader {
        header_type: 3,
        version: 1,
        timestamp: Some(Timestamp { seconds: 1_700_000_000, nanos: 5 }),
        channel_id: "mychannel".to_string(),
        tx_id: "ab01".to_string(),
        epoch: 0,
        extension: vec![0x12, 0x00],
        tls_cert_hash: vec![0xff; 32],
    };
    let back = ChannelHeader::decode(&c.encode()).unwrap();
    assert_eq!(back.header_type, 3);
    assert_eq!(back.version, 1);
    assert_eq!(back.timestamp, c.timestamp);
    assert_eq!(back.channel_id, "mychannel");
    assert_eq!(back.tx_id, "ab01");
    assert_eq!(back.epoch, 0);
    assert_eq!(back.extension, c.extension);
    assert_eq!(back.tls_cert_hash, c.tls_cert_hash);
}

#[test]
fn chaincode_message_round_trip() {
    let m = ChaincodeMessage {
        message_type: TRANSACTION,
        timestamp: Some(Timestamp { seconds: 10, nanos: 20 }),
        payload: b"payload".to_vec(),
        txid: "T".to_string(),
        proposal: Some(SignedProposal { proposal_bytes: vec![], signature: vec![] }),
        chaincode_event: Some(ChaincodeEvent {
            chaincode_id: "cc".to_string(),
            tx_id: "T".to_string(),
            event_name: "ev".to_string(),
            payload: vec![1],
        }),
        channel_id: "ch\u{e9}".to_string(),
    };
    let back = ChaincodeMessage::decode(&m.encode()).unwrap();
    assert_eq!(back.message_type, TRANSACTION);
    assert_eq!(back.timestamp, m.timestamp);
    assert_eq!(back.payload, m.payload);
    assert_eq!(back.txid, "T");
    let p = back.proposal.unwrap();
    assert!(p.proposal_bytes.is_empty() && p.signature.is_empty());
    let e = back.chaincode_event.unwrap();
    assert_eq!((e.chaincode_id.as_str(), e.tx_id.as_str(), e.event_name.as_str()), ("cc", "T", "ev"));
    assert_eq!(e.payload, vec![1]);
    assert_eq!(back.channel_id, "ch\u{e9}");
}

#[test]
fn chaincode_message_rejects_bad_utf8() {
    let bytes = encode_fields(&vec![Field { tag: 4, value: FieldValue::Bytes(vec![0xff]) }]);
    assert!(ChaincodeMessage::decode(&bytes).is_none());
}

#[test]
fn last_occurrence_of_a_field_wins() {
    let bytes = encode_fields(&vec![
        Field { tag: 4, value: FieldValue::Bytes(b"first".to_vec()) },
        Field { tag: 99, value: FieldValue::Varint(1) },
        Field { tag: 4, value: FieldValue::Bytes(b"second".to_vec()) },
    ]);
    let m = ChaincodeMessage::decode(&bytes).unwrap();
    assert_eq!(m.txid, "second");
    assert!(m.proposal.is_none());
}

#[test]
fn fixed_width_fields_round_trip_and_are_skipped() {
    assert_eq!(
        decode_fields(&[0x0d, 1, 2, 3, 4]),
        Some(vec![Field { tag: 1, value: FieldValue::Fixed(vec![1, 2, 3, 4]) }])
    );
    let fields = vec![
        Field { tag: 4, value: FieldValue::Bytes(b"T".to_vec()) },
        Field { tag: 20, value: FieldValue::Fixed(vec![9; 8]) },
        Field { tag: 21, value: FieldValue::Fixed(vec![8; 4]) },
    ];
    let bytes = encode_fields(&fields);
    assert_eq!(&bytes[3..5], &[0xa1, 0x01]);
    assert_eq!(decode_fields(&bytes), Some(fields));
    let m = ChaincodeMessage::decode(&bytes).unwrap();
    assert_eq!(m.txid, "T");
    let wrong_type = encode_fields(&vec![Field { tag: 4, value: FieldValue::Fixed(vec![0; 4]) }]);
    assert!(ChaincodeMessage::decode(&wrong_type).is_none());
}
