use fabric_sdk::chaincode::context::Context;
use fabric_sdk::chaincode::handler::{split_qualified_name, ContractEntry, Dispatch, MessageHandler};
use fabric_sdk::chaincode::message::MessageBuilder;
use fabric_sdk::chaincode::router::{on_message, Route, RouterState};
use fabric_sdk::chaincode::Metadata;
use fabric_sdk::descriptor::{adapt_name, quoted_argument};
use fabric_sdk::messages::{
    encode_get_state, ChaincodeId, ChaincodeInput, ChaincodeMessage, ChannelHeader, Header,
    Proposal, Response, SignedProposal, Timestamp, COMPLETED, DEL_STATE, ERROR, GET_STATE,
    GET_STATE_BY_RANGE, INIT, INTERNAL_SERVER_ERROR, NOT_FOUND, PUT_STATE, READY, REGISTER,
    REGISTERED, RESPONSE, SUCCESS, TRANSACTION,
};
use fabric_sdk::wire::{decode_fields, encode_fields, Field, FieldValue};
use p256::ecdsa::signature::Verifier;
use p256::pkcs8::EncodePrivateKey;

fn metadata() -> Metadata {
    Metadata {
        mspid: "Org1MSP".to_string(),
        peer_address: "localhost:7052".to_string(),
        root_cert: "root".to_string(),
        client_cert: "cert".to_string(),
        client_key: "key".to_string(),
        chaincode_id: ChaincodeId {
            path: String::new(),
            name: "basic_1.0".to_string(),
            version: "1.0".to_string(),
        },
    }
}

fn handler() -> MessageHandler {
    MessageHandler::new(
        &mut MessageBuilder::new(&metadata()),
        metadata().chaincode_id,
        vec![ContractEntry {
            name: "Assets".to_string(),
            functions: vec!["CreateAsset".to_string(), "ReadAsset".to_string()],
        }],
    )
    .0
}

fn invocation(message_type: i32, args: &[&str]) -> ChaincodeMessage {
    let input = ChaincodeInput { args: args.iter().map(|a| a.as_bytes().to_vec()).collect(), is_init: false };
    ChaincodeMessage {
        message_type,
        timestamp: Some(Timestamp { seconds: 3, nanos: 0 }),
        payload: input.encode(),
        txid: "T".to_string(),
        proposal: Some(SignedProposal { proposal_bytes: vec![1], signature: vec![2] }),
        chaincode_event: None,
        channel_id: "mychannel".to_string(),
    }
}

fn response_of(m: &ChaincodeMessage) -> Response {
    Response::decode(&m.payload).unwrap()
}

#[test]
fn router_follows_registration() {
    let (s, r) = on_message(RouterState::Created, REGISTERED);
    assert_eq!((s, r), (RouterState::Established, Route::StateChange));
    let (s, r) = on_message(s, READY);
    assert_eq!((s, r), (RouterState::Ready, Route::StateChange));
    assert_eq!(on_message(s, TRANSACTION), (RouterState::Ready, Route::Transaction));
    assert_eq!(on_message(s, INIT), (RouterState::Ready, Route::Transaction));
    assert_eq!(on_message(s, RESPONSE), (RouterState::Ready, Route::PeerResponse));
    assert_eq!(on_message(s, ERROR), (RouterState::Ready, Route::PeerResponse));
    assert_eq!(on_message(s, 18), (RouterState::Ready, Route::Drop));
    assert_eq!(on_message(RouterState::Created, READY).0, RouterState::Created);
}

#[test]
fn read_asset_round_trip_with_the_peer() {
    let mut builder = MessageBuilder::new(&metadata());
    let h = handler();
    let Dispatch::Invoke { contract, function, args, context } =
        h.dispatch(&mut builder, invocation(TRANSACTION, &["Assets:ReadAsset", "k1"]))
    else {
        panic!("expected an invocation")
    };
    assert_eq!((contract, function), (0, 1));
    assert_eq!(args, vec!["k1".to_string()]);
    let request = context.get_state(&mut builder, &args[0]);
    assert_eq!(request.message_type, GET_STATE);
    assert_eq!(request.txid, "T");
    assert_eq!(request.payload, vec![0x0a, 0x02, b'k', b'1']);
    let reply = ChaincodeMessage {
        message_type: RESPONSE,
        timestamp: None,
        payload: b"value".to_vec(),
        txid: "T".to_string(),
        proposal: None,
        chaincode_event: None,
        channel_id: "mychannel".to_string(),
    };
    let value = Context::state_value(&reply);
    let result = serde_json::to_string(&String::from_utf8(value).unwrap()).unwrap();
    let completed = h.complete(&mut builder, &context, Ok(result));
    assert_eq!(completed.message_type, COMPLETED);
    assert_eq!(completed.txid, "T");
    assert_eq!(completed.channel_id, "mychannel");
    let expected = Response { status: SUCCESS, message: "\"value\"".to_string(), payload: vec![] };
    assert_eq!(completed.payload, expected.encode());
    assert_eq!(response_of(&completed).message, "\"value\"");
}

#[test]
fn unknown_contract_is_not_found() {
    let mut builder = MessageBuilder::new(&metadata());
    let Dispatch::Reply(m) = handler().dispatch(&mut builder, invocation(TRANSACTION, &["Ghost:Any"])) else {
        panic!("expected a reply")
    };
    assert_eq!(m.message_type, COMPLETED);
    assert_eq!(m.txid, "T");
    assert_eq!(m.channel_id, "mychannel");
    let r = response_of(&m);
    assert_eq!(r.status, NOT_FOUND);
    assert!(r.message.contains("Any") && r.message.contains("basic_1.0"), "{}", r.message);
    assert!(r.payload.is_empty());
}

#[test]
fn unknown_function_is_not_found() {
    let mut builder = MessageBuilder::new(&metadata());
    let Dispatch::Reply(m) = handler().dispatch(&mut builder, invocation(INIT, &["Assets:Burn", "x"])) else {
        panic!("expected a reply")
    };
    let r = response_of(&m);
    assert_eq!(r.status, NOT_FOUND);
    assert_eq!(r.message, "Function Burn not found in contract Assets from chaincode basic_1.0");
}

#[test]
fn bare_function_uses_the_unnamed_contract() {
    let (h, _) = MessageHandler::new(
        &mut MessageBuilder::new(&metadata()),
        metadata().chaincode_id,
        vec![ContractEntry { name: String::new(), functions: vec!["Ping".to_string()] }],
    );
    let mut builder = MessageBuilder::new(&metadata());
    assert!(matches!(
        h.dispatch(&mut builder, invocation(TRANSACTION, &["Ping"])),
        Dispatch::Invoke { contract: 0, function: 0, .. }
    ));
}

#[test]
fn unreadable_input_gives_error_then_response() {
    let mut builder = MessageBuilder::new(&metadata());
    let mut m = invocation(TRANSACTION, &["x"]);
    m.payload = vec![0xff, 0xff];
    let Dispatch::Reject(e, r) = handler().dispatch(&mut builder, m) else { panic!("expected a reject") };
    assert_eq!(e.message_type, ERROR);
    assert_eq!(r.message_type, RESPONSE);
    assert_eq!(r.payload, b"Invalid chaincode input; malformed chaincode input message".to_vec());
    assert_eq!(e.payload, r.payload);
    assert_eq!(e.txid, "T");
    let empty = invocation(TRANSACTION, &[]);
    let Dispatch::Reject(_, r) = handler().dispatch(&mut builder, empty) else { panic!("expected a reject") };
    assert_eq!(r.payload, b"Invalid chaincode input; no function name".to_vec());
    let mut bad_text = invocation(TRANSACTION, &["x"]);
    bad_text.payload = ChaincodeInput { args: vec![vec![0xff]], is_init: false }.encode();
    let Dispatch::Reject(_, r) = handler().dispatch(&mut builder, bad_text) else { panic!("expected a reject") };
    assert_eq!(r.payload, b"Invalid chaincode input; argument is not valid UTF-8".to_vec());
}

#[test]
fn handler_error_completes_with_internal_error() {
    let mut builder = MessageBuilder::new(&metadata());
    let context = Context::new(invocation(TRANSACTION, &["Assets:CreateAsset"]));
    let m = handler().complete(&mut builder, &context, Err("boom".to_string()));
    assert_eq!(m.message_type, COMPLETED);
    assert_eq!(m.txid, "T");
    let r = response_of(&m);
    assert_eq!(r.status, INTERNAL_SERVER_ERROR);
    assert_eq!(r.message, "An error occurred during the exection of the chaincode function: boom");
}

#[test]
fn range_query_without_start_key() {
    let mut builder = MessageBuilder::new(&metadata());
    let context = Context::new(invocation(TRANSACTION, &["Assets:ReadAsset"]));
    let request = context.get_state_by_range(&mut builder, &String::new(), &"z".to_string());
    assert_eq!(request.message_type, GET_STATE_BY_RANGE);
    assert_eq!(request.payload, vec![0x0a, 0x01, 0x01, 0x12, 0x01, b'z']);
    let fields = decode_fields(&request.payload).unwrap();
    assert_eq!(fields[0].value, FieldValue::Bytes(vec![0x01]));
    let request = context.get_state_by_range(&mut builder, &"a".to_string(), &"z".to_string());
    assert_eq!(request.payload, vec![0x0a, 0x01, b'a', 0x12, 0x01, b'z']);
}

#[test]
fn range_reply_gives_kv_values() {
    let kv = |key: &str, value: &[u8]| {
        encode_fields(&vec![
            Field { tag: 1, value: FieldValue::Bytes(b"ns".to_vec()) },
            Field { tag: 2, value: FieldValue::Bytes(key.as_bytes().to_vec()) },
            Field { tag: 3, value: FieldValue::Bytes(value.to_vec()) },
        ])
    };
    let item = |record: Vec<u8>| encode_fields(&vec![Field { tag: 1, value: FieldValue::Bytes(record) }]);
    let reply_payload = encode_fields(&vec![
        Field { tag: 1, value: FieldValue::Bytes(item(kv("a", b"1"))) },
        Field { tag: 1, value: FieldValue::Bytes(item(kv("b", b"22"))) },
        Field { tag: 2, value: FieldValue::Varint(0) },
    ]);
    let reply = ChaincodeMessage {
        message_type: RESPONSE,
        timestamp: None,
        payload: reply_payload,
        txid: "T".to_string(),
        proposal: None,
        chaincode_event: None,
        channel_id: String::new(),
    };
    assert_eq!(Context::range_values(&reply), Some(vec![b"1".to_vec(), b"22".to_vec()]));
    let mut bad = reply.clone();
    bad.payload = vec![0x0a, 0x01, 0xff];
    assert_eq!(Context::range_values(&bad), None);
}

#[test]
fn put_and_delete_requests() {
    let mut builder = MessageBuilder::new(&metadata());
    let context = Context::new(invocation(TRANSACTION, &["Assets:CreateAsset"]));
    let put = context.put_state_string(&mut builder, &"k".to_string(), &"v".to_string());
    assert_eq!(put.message_type, PUT_STATE);
    assert_eq!(put.payload, vec![0x0a, 0x01, b'k', 0x12, 0x01, b'v']);
    let del = context.del_state(&mut builder, &"k".to_string());
    assert_eq!(del.message_type, DEL_STATE);
    assert_eq!(del.payload, encode_get_state(&"k".to_string()));
    assert_eq!(del.txid, "T");
}

#[test]
fn context_accessors() {
    let ch = ChannelHeader {
        header_type: 3,
        version: 1,
        timestamp: Some(Timestamp { seconds: 1_234, nanos: 9 }),
        channel_id: "mychannel".to_string(),
        tx_id: "T".to_string(),
        epoch: 0,
        extension: vec![],
        tls_cert_hash: vec![],
    };
    let header = Header { channel_header: ch.encode(), signature_header: vec![] };
    let proposal = Proposal { header: header.encode(), payload: vec![], extension: vec![] };
    let mut m = invocation(TRANSACTION, &["Assets:ReadAsset"]);
    m.proposal = Some(SignedProposal { proposal_bytes: proposal.encode(), signature: vec![] });
    let context = Context::new(m);
    assert_eq!(context.get_tx_timestamp(), Some(1_234));
    assert_eq!(context.get_tx_id(), "T");
    assert_eq!(context.get_channel_id(), "mychannel");
    assert!(context.get_signed_proposal().is_some());
    assert!(context.get_event().is_none());
    let bare = Context::new(invocation(TRANSACTION, &["x"]));
    assert_eq!(bare.get_tx_timestamp(), None);
}

fn keyed_metadata() -> (Metadata, p256::ecdsa::VerifyingKey) {
    let key = p256::ecdsa::SigningKey::from_slice(&[0x24u8; 32]).unwrap();
    let pem = key.to_pkcs8_pem(p256::pkcs8::LineEnding::LF).unwrap();
    let mut m = metadata();
    m.client_key = pem.to_string();
    (m, *key.verifying_key())
}

#[test]
fn send_builds_a_fresh_signed_proposal() {
    let (metadata, vk) = keyed_metadata();
    let builder = MessageBuilder::new(&metadata);
    let ts = Timestamp { seconds: 1, nanos: 0 };
    let first = builder.send_with(REGISTER, vec![7], vec![1; 24], ts).unwrap();
    assert_eq!(first.message_type, REGISTER);
    assert_eq!(first.payload, vec![7]);
    let identity = fabric_sdk::messages::SerializedIdentity {
        mspid: "Org1MSP".to_string(),
        id_bytes: b"root".to_vec(),
    };
    assert_eq!(first.txid, fabric_sdk::crypto::generate_transaction_id(&[1; 24], &identity.encode()));
    let signed = first.proposal.clone().unwrap();
    let sig = p256::ecdsa::Signature::from_der(&signed.signature).unwrap();
    assert!(sig.normalize_s().is_none());
    assert!(vk.verify(&signed.proposal_bytes, &sig).is_ok());
    let proposal = Proposal::decode(&signed.proposal_bytes).unwrap();
    let header = Header::decode(&proposal.header).unwrap();
    let ch = ChannelHeader::decode(&header.channel_header).unwrap();
    assert_eq!(ch.header_type, fabric_sdk::messages::ENDORSER_TRANSACTION);
    assert_eq!((ch.version, ch.epoch), (1, 0));
    assert_eq!(ch.timestamp, Some(ts));
    assert_eq!(ch.tx_id, first.txid);
    let sig_header = decode_fields(&header.signature_header).unwrap();
    assert_eq!(sig_header[0].value, FieldValue::Bytes(identity.encode()));
    assert_eq!(sig_header[1].value, FieldValue::Bytes(vec![1; 24]));
    let second = builder.send_with(REGISTER, vec![], vec![2; 24], ts).unwrap();
    assert_ne!(second.txid, first.txid);
    let mut builder = builder;
    let a = builder.send(REGISTER, vec![]).unwrap();
    let b = builder.send(REGISTER, vec![]).unwrap();
    assert_ne!(a.txid, b.txid);
}

#[test]
fn respond_clears_cached_transaction_id() {
    let (metadata, _) = keyed_metadata();
    let mut builder = MessageBuilder::new(&metadata);
    builder.transaction_builder.with_transaction_id(Some("fixed".to_string()));
    let ts = Timestamp { seconds: 1, nanos: 0 };
    assert_eq!(builder.send_with(REGISTER, vec![], vec![1; 24], ts).unwrap().txid, "fixed");
    let original = invocation(TRANSACTION, &["x"]);
    let reply = builder.respond(COMPLETED, vec![], &original);
    assert_eq!(reply.txid, "T");
    assert!(builder.transaction_builder.transaction_id.is_none());
    assert_eq!(builder.send_with(REGISTER, vec![], vec![1; 24], ts).unwrap().txid.len(), 64);
}

#[test]
fn qualified_names_split_on_colons() {
    let split = |q: &str| split_qualified_name(&q.to_string());
    assert_eq!(split("Assets:ReadAsset"), ("Assets".to_string(), "ReadAsset".to_string()));
    assert_eq!(split("ReadAsset"), (String::new(), "ReadAsset".to_string()));
    assert_eq!(split("a:b:c"), ("a".to_string(), "c".to_string()));
    assert_eq!(split(""), (String::new(), String::new()));
}

#[test]
fn descriptor_names_are_camel_case() {
    assert_eq!(adapt_name(&"read_asset".to_string()), "ReadAsset");
    assert_eq!(adapt_name(&"create__my_asset_".to_string()), "CreateMyAsset");
    assert_eq!(adapt_name(&"\u{df}eta".to_string()), "SSeta");
    assert_eq!(adapt_name(&String::new()), "");
    assert_eq!(adapt_name(&"CreateAsset".to_string()), "CreateAsset");
    assert_eq!(adapt_name(&"__x__y_".to_string()), "XY");
}

#[test]
fn json_arguments_fall_back_to_strings() {
    let decode_int = |arg: &str| -> Option<i64> {
        serde_json::from_str(arg).ok().or_else(|| serde_json::from_str(&quoted_argument(&arg.to_string())).ok())
    };
    let decode_text = |arg: &str| -> Option<String> {
        serde_json::from_str(arg).ok().or_else(|| serde_json::from_str(&quoted_argument(&arg.to_string())).ok())
    };
    assert_eq!(decode_int("42"), Some(42));
    assert_eq!(decode_text("foo"), Some("foo".to_string()));
    assert_eq!(decode_text("\"bar\""), Some("bar".to_string()));
    assert_eq!(decode_text("42"), Some("42".to_string()));
    assert_eq!(quoted_argument(&"foo".to_string()), "\"foo\"");
}

#[test]
fn handler_registers_first() {
    let (metadata, vk) = keyed_metadata();
    let mut builder = MessageBuilder::new(&metadata);
    let id = metadata.chaincode_id.clone();
    let (h, register) = MessageHandler::new(&mut builder, id.clone(), vec![]);
    assert!(h.contracts.is_empty());
    let register = register.unwrap();
    assert_eq!(register.message_type, REGISTER);
    assert_eq!(register.payload, id.encode());
    assert_eq!(register.txid.len(), 64);
    let signed = register.proposal.unwrap();
    let sig = p256::ecdsa::Signature::from_der(&signed.signature).unwrap();
    assert!(vk.verify(&signed.proposal_bytes, &sig).is_ok());
    let (_, failed) = MessageHandler::new(&mut MessageBuilder::new(&metadata_without_key()), id, vec![]);
    assert!(failed.is_err());
}

fn metadata_without_key() -> Metadata {
    metadata()
}
