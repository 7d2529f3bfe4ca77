use std::io::ErrorKind as IoErrorKind;

use std::io::Cursor;

use bytes::BytesMut;
use fbthrift_git::binary_protocol::{BinaryProtocolDeserializer, BinaryProtocolSerializer};
use fbthrift_git::{
    ApplicationException, ApplicationExceptionErrorCode, Deserialize, MessageType, ProtocolReader,
    ProtocolWriter, Serialize, TType,
};
use nebula_fbthrift_graph_v2::services::graph_service::{
    AuthenticateExn, ExecuteExn, ExecuteJsonExn, SignoutExn,
};
use nebula_fbthrift_graph_v2::types::{AuthResponse, ExecutionResponse};
use nebula_fbthrift_meta_v1::services::meta_service::{
    GetSpaceExn, ListEdgesExn, ListPartsExn, ListSpacesExn, ListTagsExn,
};
use nebula_fbthrift_meta_v1::types::{
    GetSpaceResp, ListEdgesResp, ListPartsResp, ListSpacesResp, ListTagsResp,
};
use nebula_fbthrift_storage_v1::services::storage_service::{ScanEdgeExn, ScanVertexExn};
use nebula_fbthrift_storage_v1::types::{ScanEdgeResponse, ScanVertexResponse};
use nebula_transport::graph_client::transport_response_handler::GraphTransportResponseHandler as SessionHandler;
use nebula_transport::response_handler::{Bound, MethodResponseHandler, ResponseHandler};
use nebula_transport::thrift::{
    is_malformed, read_envelope, same_bytes, Body, Envelope, EnvelopeFault, MessageKind, Unread,
};
use nebula_transport::v1::meta::body_after as meta_body;
use nebula_transport::v1::storage::body_after as storage_body;
use nebula_transport::v2::graph::body_after as graph_body;
use nebula_transport::v1::meta::{MetaMethod, MetaTransportResponseHandler};
use nebula_transport::v1::storage::{StorageMethod, StorageTransportResponseHandler};
use nebula_transport::v2::graph::{
    answer_signout, signout_reply, GraphMethod, GraphTransportResponseHandler,
};

#[test]
fn test_try_make_static_response_bytes() -> Result<(), Box<dyn std::error::Error>> {
    let mut handler = MetaTransportResponseHandler;

    assert_eq!(
        handler.try_make_static_response_bytes(
            b"MetaService",
            b"MetaService.listSpaces",
            b"FOO"
        )?,
        None
    );
    assert_eq!(
        handler.try_make_static_response_bytes(b"MetaService", b"MetaService.getSpace", b"FOO")?,
        None
    );
    assert_eq!(
        handler.try_make_static_response_bytes(b"MetaService", b"MetaService.listParts", b"FOO")?,
        None
    );
    assert_eq!(
        handler.try_make_static_response_bytes(b"MetaService", b"MetaService.listTags", b"FOO")?,
        None
    );
    assert_eq!(
        handler.try_make_static_response_bytes(b"MetaService", b"MetaService.listEdges", b"FOO")?,
        None
    );
    match handler.try_make_static_response_bytes(b"MetaService", b"MetaService.foo", b"FOO") {
        Ok(_) => panic!(),
        Err(err) => {
            assert_eq!(err.kind(), IoErrorKind::Other);

            assert_eq!(err.to_string(), "Unknown method MetaService.foo");
        }
    }

    Ok(())
}

#[test]
fn transport_response_handler_test_try_make_static_response_bytes() -> Result<(), Box<dyn std::error::Error>> {
    let mut handler = StorageTransportResponseHandler;

    assert_eq!(
        handler.try_make_static_response_bytes(
            b"StorageService",
            b"StorageService.scanVertex",
            b"FOO"
        )?,
        None
    );
    assert_eq!(
        handler.try_make_static_response_bytes(
            b"StorageService",
            b"StorageService.scanEdge",
            b"FOO"
        )?,
        None
    );
    match handler.try_make_static_response_bytes(
        b"StorageService",
        b"StorageService.foo",
        b"FOO",
    ) {
        Ok(_) => panic!(),
        Err(err) => {
            assert_eq!(err.kind(), IoErrorKind::Other);

            assert_eq!(err.to_string(), "Unknown method StorageService.foo");
        }
    }

    let mut handler = GraphTransportResponseHandler;

    assert_eq!(
        handler.try_make_static_response_bytes(
            b"GraphService",
            b"GraphService.authenticate",
            b"FOO"
        )?,
        None
    );
    assert_eq!(
        handler.try_make_static_response_bytes(b"GraphService", b"GraphService.execute", b"FOO")?,
        None
    );
    assert_eq!(
        handler.try_make_static_response_bytes(
            b"GraphService",
            b"GraphService.executeJson",
            b"FOO"
        )?,
        None
    );
    match handler.try_make_static_response_bytes(b"GraphService", b"GraphService.foo", b"FOO") {
        Ok(_) => panic!(),
        Err(err) => {
            assert_eq!(err.kind(), IoErrorKind::Other);

            assert_eq!(err.to_string(), "Unknown method GraphService.foo");
        }
    }

    Ok(())
}

fn signout_request(seqid: u32) -> Vec<u8> {
    let mut p = BinaryProtocolSerializer::<BytesMut>::with_buffer(BytesMut::new());
    p.write_message_begin("signout", MessageType::Call, seqid);

    p.write_struct_begin("args");
    p.write_field_begin("arg_sessionId", TType::I64, 1i16);
    Serialize::write(&1, &mut p);
    p.write_field_end();
    p.write_field_stop();
    p.write_struct_end();

    p.write_message_end();
    p.finish().to_vec()
}

#[test]
fn test_try_make_static_response_bytes_with_signout() -> Result<(), Box<dyn std::error::Error>> {
    let mut handler = GraphTransportResponseHandler;

    let request = signout_request(0);

    match handler.try_make_static_response_bytes(
        b"GraphService",
        b"GraphService.signout",
        &request[..],
    ) {
        Ok(Some(_)) => {}
        _ => panic!(),
    }

    Ok(())
}

fn message<T: Serialize<BinaryProtocolSerializer<BytesMut>>>(
    name: &str,
    kind: MessageType,
    seqid: u32,
    body: &T,
) -> Vec<u8> {
    let mut p = BinaryProtocolSerializer::<BytesMut>::with_buffer(BytesMut::new());
    p.write_message_begin(name, kind, seqid);
    body.write(&mut p);
    p.write_message_end();
    p.finish().to_vec()
}

fn exception() -> ApplicationException {
    ApplicationException::new(ApplicationExceptionErrorCode::InternalError, "boom".to_owned())
}

#[test]
fn meta_handler_finds_the_end_of_a_reply() {
    let mut handler = MetaTransportResponseHandler;
    let reply = message(
        "listSpaces",
        MessageType::Reply,
        7,
        &ListSpacesExn::Success(ListSpacesResp::default()),
    );
    assert!(reply.len() > 22);
    assert_eq!(handler.parse_response_bytes(&reply).unwrap(), Some(reply.len()));

    let mut longer = reply.clone();
    longer.extend_from_slice(b"xyz");
    assert_eq!(handler.parse_response_bytes(&longer).unwrap(), Some(reply.len()));

    for cut in 0..reply.len() {
        assert_eq!(handler.parse_response_bytes(&reply[..cut]).unwrap(), None);
    }
}

#[test]
fn meta_handler_knows_its_methods_only() {
    let mut handler = MetaTransportResponseHandler;
    for name in ["listSpaces", "getSpace", "listParts", "listTags", "listEdges"] {
        let call = message(name, MessageType::Call, 1, &());
        assert_eq!(handler.parse_response_bytes(&call).unwrap(), Some(12 + name.len()));
        let error = message(name, MessageType::Exception, 1, &exception());
        assert_eq!(handler.parse_response_bytes(&error).unwrap(), Some(error.len()));
    }
    let other = message("listHosts", MessageType::Call, 1, &());
    let error = handler.parse_response_bytes(&other).unwrap_err();
    assert_eq!(error.kind(), IoErrorKind::Other);
    assert_eq!(
        error.to_string(),
        "Unexpected name [108, 105, 115, 116, 72, 111, 115, 116, 115]"
    );
    for cut in 0..other.len() {
        assert_eq!(handler.parse_response_bytes(&other[..cut]).unwrap(), None);
    }
    assert_eq!(handler.parse_response_bytes(b"").unwrap(), None);
    assert_eq!(handler.parse_response_bytes(b"FOO").unwrap(), None);
}

#[test]
fn meta_handler_reads_the_result_of_the_named_method() {
    let mut handler = MetaTransportResponseHandler;
    let spaces = message(
        "getSpace",
        MessageType::Reply,
        3,
        &GetSpaceExn::Success(GetSpaceResp::default()),
    );
    assert_eq!(handler.parse_response_bytes(&spaces).unwrap(), Some(spaces.len()));
    let replies = [
        message("listParts", MessageType::Reply, 3, &ListPartsExn::Success(ListPartsResp::default())),
        message("listTags", MessageType::Reply, 3, &ListTagsExn::Success(ListTagsResp::default())),
        message("listEdges", MessageType::Reply, 3, &ListEdgesExn::Success(ListEdgesResp::default())),
    ];
    for reply in replies {
        assert!(reply.len() > 21);
        let mut longer = reply.clone();
        longer.push(0);
        assert_eq!(handler.parse_response_bytes(&longer).unwrap(), Some(reply.len()));
        assert_eq!(handler.parse_response_bytes(&reply[..reply.len() - 1]).unwrap(), None);
    }
    let mismatched = message("listTags", MessageType::Reply, 3, &exception());
    assert_eq!(handler.parse_response_bytes(&mismatched).unwrap(), None);
}

#[test]
fn storage_handler_finds_the_end_of_a_reply() {
    let mut handler = StorageTransportResponseHandler;
    for (name, reply) in [
        (
            "scanEdge",
            message(
                "scanEdge",
                MessageType::Reply,
                9,
                &ScanEdgeExn::Success(ScanEdgeResponse::default()),
            ),
        ),
        (
            "scanVertex",
            message(
                "scanVertex",
                MessageType::Reply,
                9,
                &ScanVertexExn::Success(ScanVertexResponse::default()),
            ),
        ),
    ] {
        assert!(reply.len() > 12 + name.len());
        assert_eq!(handler.parse_response_bytes(&reply).unwrap(), Some(reply.len()));
        assert_eq!(handler.parse_response_bytes(&reply[..reply.len() - 1]).unwrap(), None);
        let mut two = reply.clone();
        two.extend_from_slice(&reply);
        assert_eq!(handler.parse_response_bytes(&two).unwrap(), Some(reply.len()));
    }
    let other = message("listSpaces", MessageType::Call, 1, &());
    assert_eq!(
        handler.parse_response_bytes(&other).unwrap_err().to_string(),
        "Unexpected name [108, 105, 115, 116, 83, 112, 97, 99, 101, 115]"
    );
    let error = message("scanEdge", MessageType::Exception, 1, &exception());
    assert_eq!(handler.parse_response_bytes(&error).unwrap(), Some(error.len()));
}

#[test]
fn graph_handler_finds_the_end_of_a_reply() {
    let mut handler = GraphTransportResponseHandler;
    let json = message(
        "executeJson",
        MessageType::Reply,
        1,
        &ExecuteJsonExn::Success(b"{\"a\":1}".to_vec()),
    );
    assert_eq!(handler.parse_response_bytes(&json).unwrap(), Some(json.len()));
    assert_eq!(handler.parse_response_bytes(&json[..json.len() - 1]).unwrap(), None);

    let auth = message(
        "authenticate",
        MessageType::Reply,
        1,
        &AuthenticateExn::Success(AuthResponse { session_id: Some(5), ..Default::default() }),
    );
    assert_eq!(handler.parse_response_bytes(&auth).unwrap(), Some(auth.len()));

    let execute = message(
        "execute",
        MessageType::Reply,
        1,
        &ExecuteExn::Success(ExecutionResponse::default()),
    );
    let mut pipelined = execute.clone();
    pipelined.extend_from_slice(&auth);
    assert_eq!(handler.parse_response_bytes(&pipelined).unwrap(), Some(execute.len()));

    let oneway = message("execute", MessageType::Oneway, 1, &());
    assert_eq!(handler.parse_response_bytes(&oneway).unwrap(), Some(12 + 7));
    let unknown = message("listSpaces", MessageType::Reply, 1, &());
    assert_eq!(
        handler.parse_response_bytes(&unknown).unwrap_err().to_string(),
        "Unexpected name [108, 105, 115, 116, 83, 112, 97, 99, 101, 115]"
    );
}

#[test]
fn graph_handler_rejects_a_reply_to_signing_out() {
    let mut handler = GraphTransportResponseHandler;
    let reply = message("signout", MessageType::Reply, 1, &SignoutExn::Success(()));
    match handler.parse_response_bytes(&reply) {
        Ok(_) => panic!(),
        Err(err) => {
            assert_eq!(err.kind(), IoErrorKind::Other);
            assert_eq!(err.to_string(), "Unexpected name [115, 105, 103, 110, 111, 117, 116]");
        }
    }
}

#[test]
fn graph_handler_answers_signing_out_itself() {
    let mut handler = GraphTransportResponseHandler;
    let request = signout_request(0x01020304);
    let reply = handler
        .try_make_static_response_bytes(b"GraphService", b"GraphService.signout", &request)
        .unwrap()
        .unwrap();
    let mut expected = vec![0x80u8, 0x01, 0x00, 0x02, 0, 0, 0, 7];
    expected.extend_from_slice(b"signout");
    expected.extend_from_slice(&[1, 2, 3, 4]);
    expected.extend_from_slice(&[1, 0, 0, 0]);
    assert_eq!(reply, expected);
    assert_eq!(reply, message("signout", MessageType::Reply, 0x01020304, &SignoutExn::Success(())));
    assert_eq!(reply, signout_reply(0x01020304));

    let mut des = BinaryProtocolDeserializer::new(Cursor::new(&reply[..]));
    let (name, kind, seqid) = des.read_message_begin(|v| v.to_vec()).unwrap();
    assert_eq!(name, b"signout".to_vec());
    assert_eq!(kind, MessageType::Reply);
    assert_eq!(seqid, 0x01020304);
    assert!(matches!(SignoutExn::read(&mut des), Ok(SignoutExn::Success(()))));
    assert_eq!(des.into_inner().position() as usize, reply.len());
}

#[test]
fn graph_handler_rejects_a_bad_request_to_sign_out() {
    let mut handler = GraphTransportResponseHandler;
    let cases: Vec<(Vec<u8>, &str)> = vec![
        (
            message("signoff", MessageType::Call, 1, &()),
            "Unexpected name [115, 105, 103, 110, 111, 102, 102]",
        ),
        (message("signout", MessageType::Reply, 1, &()), "Unexpected message type Reply"),
        (message("signout", MessageType::Oneway, 1, &()), "Unexpected message type Oneway"),
        (
            message("signout", MessageType::Exception, 1, &()),
            "Unexpected message type Exception",
        ),
        (
            message("signout", MessageType::InvalidMessageType, 1, &()),
            "Unexpected message type InvalidMessageType",
        ),
        (b"FOO".to_vec(), "end of file reached"),
        (vec![0u8; 16], "bad thrift version specified"),
    ];
    for (request, text) in cases {
        match handler.try_make_static_response_bytes(
            b"GraphService",
            b"GraphService.signout",
            &request,
        ) {
            Ok(_) => panic!(),
            Err(err) => {
                assert_eq!(err.kind(), IoErrorKind::Other);
                assert_eq!(err.to_string(), text);
            }
        }
    }
}

#[test]
fn unknown_method_names_are_shown_lossily() {
    let mut handler = GraphTransportResponseHandler;
    match handler.try_make_static_response_bytes(b"GraphService", b"a\xffb", b"") {
        Ok(_) => panic!(),
        Err(err) => assert_eq!(err.to_string(), "Unknown method a\u{fffd}b"),
    }
    match handler.try_make_static_response_bytes(b"GraphService", b"", b"") {
        Ok(_) => panic!(),
        Err(err) => assert_eq!(err.to_string(), "Unknown method "),
    }
    match handler.try_make_static_response_bytes(b"GraphService", b"signout", b"") {
        Ok(_) => panic!(),
        Err(err) => assert_eq!(err.to_string(), "Unknown method signout"),
    }
}

#[test]
fn method_names_are_told_apart() {
    assert_eq!(GraphMethod::from_name(b"authenticate"), Some(GraphMethod::Authenticate));
    assert_eq!(GraphMethod::from_name(b"execute"), Some(GraphMethod::Execute));
    assert_eq!(GraphMethod::from_name(b"executeJson"), Some(GraphMethod::ExecuteJson));
    assert_eq!(GraphMethod::from_name(b"signout"), Some(GraphMethod::Signout));
    assert_eq!(GraphMethod::from_name(b"executeJso"), None);
    assert_eq!(GraphMethod::from_name(b"Execute"), None);
    assert_eq!(GraphMethod::from_name(b""), None);
    assert_eq!(
        GraphMethod::from_qualified_name(b"GraphService.signout"),
        Some(GraphMethod::Signout)
    );
    assert_eq!(GraphMethod::from_qualified_name(b"signout"), None);
    assert!(same_bytes(b"abc", b"abc"));
    assert!(!same_bytes(b"abc", b"abd"));
    assert!(!same_bytes(b"abc", b"ab"));
    assert!(same_bytes(b"", b""));
}

#[test]
fn session_handler_learns_the_method_from_the_request() {
    let mut handler = SessionHandler;
    for name in ["authenticate", "execute", "executeJson"] {
        let request = message(name, MessageType::Call, 1, &());
        assert_eq!(handler.try_make_static_response_bytes(&request).unwrap(), None);
    }
    let reply = handler.try_make_static_response_bytes(&signout_request(77)).unwrap();
    assert_eq!(reply, Some(message("signout", MessageType::Reply, 77, &SignoutExn::Success(()))));

    let cases: Vec<(Vec<u8>, &str)> = vec![
        (message("foo", MessageType::Call, 1, &()), "Unknown method [102, 111, 111]"),
        (message("signout", MessageType::Reply, 1, &()), "Unexpected message type Reply"),
        (b"FOO".to_vec(), "end of file reached"),
    ];
    for (request, text) in cases {
        match handler.try_make_static_response_bytes(&request) {
            Ok(_) => panic!(),
            Err(err) => {
                assert_eq!(err.kind(), IoErrorKind::Other);
                assert_eq!(err.to_string(), text);
            }
        }
    }
}

#[test]
fn session_handler_finds_the_end_of_a_reply() {
    let mut handler = SessionHandler;
    let json = message(
        "executeJson",
        MessageType::Reply,
        1,
        &ExecuteJsonExn::Success(b"[]".to_vec()),
    );
    assert_eq!(handler.parse_response_bytes(&json).unwrap(), Some(json.len()));
    assert_eq!(handler.parse_response_bytes(&json[..5]).unwrap(), None);
    let reply = message("signout", MessageType::Reply, 1, &SignoutExn::Success(()));
    assert!(handler.parse_response_bytes(&reply).is_err());
}

#[test]
fn envelopes_are_read_as_the_protocol_writes_them() {
    let bytes = message("execute", MessageType::Exception, 0xfffffffe, &exception());
    let envelope = answer_envelope(&bytes);
    assert_eq!(envelope, (b"execute".to_vec(), MessageKind::Exception, 0xfffffffe, 19));
    assert_eq!(MessageKind::Call.to_string(), "Call");
    assert_eq!(MessageKind::InvalidMessageType.to_string(), "InvalidMessageType");
}

fn answer_envelope(bytes: &[u8]) -> (Vec<u8>, MessageKind, u32, usize) {
    let mut des = BinaryProtocolDeserializer::new(Cursor::new(bytes));
    let (name, kind, seqid) = des.read_message_begin(|v| v.to_vec()).unwrap();
    let kind = match kind {
        MessageType::InvalidMessageType => MessageKind::InvalidMessageType,
        MessageType::Call => MessageKind::Call,
        MessageType::Reply => MessageKind::Reply,
        MessageType::Exception => MessageKind::Exception,
        MessageType::Oneway => MessageKind::Oneway,
    };
    (name, kind, seqid, des.into_inner().position() as usize)
}

#[test]
fn a_bound_handler_serves_one_method() {
    let mut signout =
        Bound::new(GraphTransportResponseHandler, b"GraphService", b"GraphService.signout");
    let reply = ResponseHandler::try_make_static_response_bytes(&mut signout, &signout_request(5));
    assert_eq!(reply.unwrap(), Some(signout_reply(5)));

    let mut execute = signout.bind(b"GraphService", b"GraphService.execute");
    let reply = ResponseHandler::try_make_static_response_bytes(&mut execute, &signout_request(5));
    assert_eq!(reply.unwrap(), None);

    let mut unknown = execute.bind(b"GraphService", b"GraphService.foo");
    match ResponseHandler::try_make_static_response_bytes(&mut unknown, b"FOO") {
        Ok(_) => panic!(),
        Err(err) => assert_eq!(err.to_string(), "Unknown method GraphService.foo"),
    }

    let json = message(
        "executeJson",
        MessageType::Reply,
        1,
        &ExecuteJsonExn::Success(b"[]".to_vec()),
    );
    assert_eq!(
        ResponseHandler::parse_response_bytes(&mut execute, &json).unwrap(),
        Some(json.len())
    );
    assert_eq!(ResponseHandler::parse_response_bytes(&mut execute, &json[..9]).unwrap(), None);
}

fn envelope(name: &str, kind: MessageKind, end: usize) -> Result<Envelope, Unread> {
    Ok(Envelope { name: name.as_bytes().to_vec(), kind, seqid: 4, end })
}

fn unread(fault: EnvelopeFault, text: &str) -> Result<Envelope, Unread> {
    Err(Unread { fault, text: text.to_owned() })
}

#[test]
fn what_follows_an_envelope_is_decided_by_name_and_type() {
    let bytes = [0u8; 0];
    assert_eq!(
        meta_body(&envelope("listTags", MessageKind::Reply, 20), &bytes).unwrap(),
        Body::Result(MetaMethod::ListTags, 20)
    );
    assert_eq!(
        meta_body(&envelope("getSpace", MessageKind::Exception, 20), &bytes).unwrap(),
        Body::Exception(20)
    );
    assert_eq!(
        meta_body(&envelope("listEdges", MessageKind::Call, 21), &bytes).unwrap(),
        Body::Nothing(21)
    );
    assert_eq!(
        meta_body(&envelope("listParts", MessageKind::Oneway, 21), &bytes).unwrap(),
        Body::Nothing(21)
    );
    assert_eq!(
        meta_body(&envelope("listSpaces", MessageKind::InvalidMessageType, 22), &bytes).unwrap(),
        Body::Nothing(22)
    );
    assert_eq!(
        meta_body(&envelope("scanEdge", MessageKind::Reply, 20), &bytes).unwrap_err().to_string(),
        "Unexpected name [115, 99, 97, 110, 69, 100, 103, 101]"
    );
    assert_eq!(
        meta_body(&envelope("", MessageKind::Reply, 12), &bytes).unwrap_err().to_string(),
        "Unexpected name []"
    );

    assert_eq!(
        storage_body(&envelope("scanEdge", MessageKind::Reply, 20), &bytes).unwrap(),
        Body::Result(StorageMethod::ScanEdge, 20)
    );
    assert_eq!(
        storage_body(&envelope("scanVertex", MessageKind::Reply, 22), &bytes).unwrap(),
        Body::Result(StorageMethod::ScanVertex, 22)
    );
    assert_eq!(
        storage_body(&envelope("scanVertex", MessageKind::Exception, 22), &bytes).unwrap(),
        Body::Exception(22)
    );
    assert!(storage_body(&envelope("listTags", MessageKind::Reply, 20), &bytes).is_err());

    assert_eq!(
        graph_body(&envelope("execute", MessageKind::Reply, 19), &bytes).unwrap(),
        Body::Result(GraphMethod::Execute, 19)
    );
    assert_eq!(
        graph_body(&envelope("authenticate", MessageKind::Exception, 24), &bytes).unwrap(),
        Body::Exception(24)
    );
    assert_eq!(
        graph_body(&envelope("executeJson", MessageKind::Call, 23), &bytes).unwrap(),
        Body::Nothing(23)
    );
    assert_eq!(
        graph_body(&envelope("listTags", MessageKind::Reply, 20), &bytes).unwrap_err().to_string(),
        "Unexpected name [108, 105, 115, 116, 84, 97, 103, 115]"
    );
    assert_eq!(
        graph_body(&envelope("signout", MessageKind::Reply, 19), &bytes).unwrap_err().to_string(),
        "Unexpected name [115, 105, 103, 110, 111, 117, 116]"
    );
}

#[test]
fn an_envelope_that_is_not_read_asks_for_more_or_ends_the_call() {
    let short = [0x80u8, 0x01, 0x00, 0x02, 0, 0, 0, 9, b'l'];
    let negative = [0x80u8, 0x01, 0x00, 0x02, 0xff, 0xff, 0xff, 0xff, b'l'];
    let incomplete = [
        unread(EnvelopeFault::EndOfBytes, "end of file reached"),
        unread(EnvelopeFault::BadLength, "Unknown or invalid data length"),
    ];
    for begin in incomplete.iter() {
        assert_eq!(meta_body(begin, &short).unwrap(), Body::Incomplete);
        assert_eq!(storage_body(begin, &short).unwrap(), Body::Incomplete);
        assert_eq!(graph_body(begin, &short).unwrap(), Body::Incomplete);
        assert_eq!(meta_body(begin, &short[..7]).unwrap(), Body::Incomplete);
        assert_eq!(meta_body(begin, &negative[..7]).unwrap(), Body::Incomplete);
    }
    assert_eq!(meta_body(&incomplete[0], &negative).unwrap(), Body::Incomplete);
    assert_eq!(
        meta_body(&incomplete[1], &negative).unwrap_err().to_string(),
        "Unknown or invalid data length"
    );
    let malformed = [
        unread(EnvelopeFault::BadVersion, "bad thrift version specified"),
        unread(EnvelopeFault::BadMessageType, "Unknown or invalid TMessage type 9"),
        unread(EnvelopeFault::Other, "something else"),
    ];
    for begin in malformed.iter() {
        let text = begin.as_ref().unwrap_err().text.clone();
        let error = meta_body(begin, &short).unwrap_err();
        assert_eq!(error.kind(), IoErrorKind::Other);
        assert_eq!(error.to_string(), text);
        assert_eq!(storage_body(begin, &short).unwrap_err().to_string(), text);
        assert_eq!(graph_body(begin, &short).unwrap_err().to_string(), text);
    }
    assert!(is_malformed(malformed[0].as_ref().unwrap_err(), &short));
    assert!(!is_malformed(incomplete[1].as_ref().unwrap_err(), &short));
}

#[test]
fn malformed_envelopes_end_the_call_and_short_ones_ask_for_more() {
    let mut meta = MetaTransportResponseHandler;
    let mut storage = StorageTransportResponseHandler;
    let mut graph = GraphTransportResponseHandler;
    let mut session = SessionHandler;
    let cases: Vec<(Vec<u8>, Option<&str>)> = vec![
        (vec![], None),
        (vec![0x80, 0x01, 0x00], None),
        (vec![0x80, 0x01, 0x00, 0x02], None),
        (vec![0x80, 0x01, 0x00, 0x02, 0, 0, 0], None),
        (vec![0x80, 0x01, 0x00, 0x02, 0, 0, 0, 9, b'l', b'i'], None),
        (vec![0x80, 0x01, 0x00, 0x02, 0x7f, 0xff, 0xff, 0xff, b'l'], None),
        (vec![0u8; 64], Some("bad thrift version specified")),
        (vec![0x80, 0x02, 0x00, 0x02], Some("bad thrift version specified")),
        (vec![0x80, 0x01, 0x00, 0x09], Some("Unknown or invalid TMessage type 9")),
        (vec![0x80, 0x01, 0x01, 0x02, 0, 0], Some("Unknown or invalid TMessage type 258")),
        (
            vec![0x80, 0x01, 0x00, 0x02, 0xff, 0xff, 0xff, 0xff],
            Some("Unknown or invalid data length"),
        ),
        (
            vec![0x80, 0x01, 0x00, 0x02, 0x80, 0, 0, 0, b'x'],
            Some("Unknown or invalid data length"),
        ),
    ];
    for (bytes, expected) in cases {
        let answers = [
            meta.parse_response_bytes(&bytes),
            storage.parse_response_bytes(&bytes),
            graph.parse_response_bytes(&bytes),
            ResponseHandler::parse_response_bytes(&mut session, &bytes),
        ];
        for answer in answers {
            match (answer, expected) {
                (Ok(found), None) => assert_eq!(found, None),
                (Err(error), Some(text)) => {
                    assert_eq!(error.kind(), IoErrorKind::Other);
                    assert_eq!(error.to_string(), text);
                }
                _ => panic!(),
            }
        }
    }
}

#[test]
fn envelopes_are_read_with_their_faults() {
    let bytes = message("execute", MessageType::Exception, 0xfffffffe, &exception());
    let envelope = read_envelope(&bytes).unwrap();
    assert_eq!(envelope.name, b"execute".to_vec());
    assert_eq!(envelope.kind, MessageKind::Exception);
    assert_eq!(envelope.seqid, 0xfffffffe);
    assert_eq!(envelope.end, 19);
    assert_eq!(&bytes[..4], &[0x80, 0x01, 0x00, 0x03]);
    assert_eq!(&bytes[4..8], &[0, 0, 0, 7]);
    assert_eq!(&bytes[15..19], &[0xff, 0xff, 0xff, 0xfe]);

    let fault = |bytes: &[u8]| {
        let unread = read_envelope(bytes).unwrap_err();
        (unread.fault, unread.text)
    };
    assert_eq!(fault(b""), (EnvelopeFault::EndOfBytes, "end of file reached".to_owned()));
    assert_eq!(fault(&bytes[..18]), (EnvelopeFault::EndOfBytes, "end of file reached".to_owned()));
    assert_eq!(
        fault(&bytes[..10]),
        (EnvelopeFault::BadLength, "Unknown or invalid data length".to_owned())
    );
    assert_eq!(
        fault(&[0u8; 4]),
        (EnvelopeFault::BadVersion, "bad thrift version specified".to_owned())
    );
    assert_eq!(
        fault(&[0x80, 0x01, 0x00, 0x05]),
        (EnvelopeFault::BadMessageType, "Unknown or invalid TMessage type 5".to_owned())
    );
}

#[test]
fn signing_out_is_answered_from_the_envelope_alone() {
    let reply = answer_signout(envelope("signout", MessageKind::Call, 19)).unwrap();
    assert_eq!(reply, Some(signout_reply(4)));
    let error = answer_signout(envelope("signout", MessageKind::Reply, 19)).unwrap_err();
    assert_eq!(error.to_string(), "Unexpected message type Reply");
    let error = answer_signout(envelope("execute", MessageKind::Call, 19)).unwrap_err();
    assert_eq!(error.to_string(), "Unexpected name [101, 120, 101, 99, 117, 116, 101]");
    let error = answer_signout(unread(EnvelopeFault::EndOfBytes, "no envelope")).unwrap_err();
    assert_eq!(error.to_string(), "no envelope");
    assert_eq!(error.kind(), IoErrorKind::Other);
}
