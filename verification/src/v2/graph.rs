//! The response handler of the graph service.

use crate::io_error::io_error_is_other;
use crate::io_error::io_error_text;
use crate::io_error::other_io_error;
use crate::response_handler::MethodResponseHandler;
use crate::thrift::application_exception_end;
use crate::thrift::body_matches;
use crate::thrift::envelope_is_malformed;
use crate::thrift::envelope_result_view;
use crate::thrift::is_malformed;
use crate::thrift::message_begin;
use crate::thrift::message_begin_bytes;
use crate::thrift::parse_answer_matches;
use crate::thrift::read_application_exception;
use crate::thrift::read_envelope;
use crate::thrift::read_message_end;
use crate::thrift::reject_name;
use crate::thrift::same_bytes;
use crate::thrift::unexpected_name_text;
use crate::thrift::utf8_lossy;
use crate::thrift::utf8_lossy_text;
use crate::thrift::write_message_begin;
use crate::thrift::write_message_end;
use crate::thrift::Body;
use crate::thrift::Envelope;
use crate::thrift::EnvelopeView;
use crate::thrift::Expected;
use crate::thrift::MessageKind;
use crate::thrift::Unread;
use crate::thrift::UnreadView;
use bytes::BytesMut;
use fbthrift_git::binary_protocol::BinaryProtocolDeserializer;
use fbthrift_git::binary_protocol::BinaryProtocolSerializer;
use fbthrift_git::Deserialize;
use fbthrift_git::ProtocolWriter;
use fbthrift_git::Serialize;
use nebula_fbthrift_graph_v2::services::graph_service::AuthenticateExn;
use nebula_fbthrift_graph_v2::services::graph_service::ExecuteExn;
use nebula_fbthrift_graph_v2::services::graph_service::ExecuteJsonExn;
use nebula_fbthrift_graph_v2::services::graph_service::SignoutExn;
use std::io::Cursor;
use vstd::prelude::*;
use vstd::string::StringExecFns;
use vstd::string::StringSliceAdditionalSpecFns;

verus! {

/// The offset at which the result of `authenticate` that begins at `start` in `bytes` ends,
/// where the binary protocol can read one there.
pub uninterp spec fn authenticate_result_end(bytes: Seq<u8>, start: usize) -> Option<usize>;

/// Calls fbthrift's `Deserialize::read` for `AuthenticateExn` on a cursor at `start`. Where
/// it succeeds the cursor's position is handed back, which has not moved back and,
/// for a start within `bytes`, lies within them. The call allocates as the sizes on
/// the wire ask and recurses as deep as values are nested there; both are taken to
/// succeed.
#[verifier::external_body]
fn read_authenticate_result(bytes: &[u8], start: usize) -> (end: Option<usize>)
    ensures
        end == authenticate_result_end(bytes@, start),
        end matches Some(offset) ==> start <= bytes@.len() ==> start <= offset <= bytes@.len(),
{
    let mut cursor = Cursor::new(bytes);
    cursor.set_position(start as u64);
    let mut des = BinaryProtocolDeserializer::new(cursor);
    match AuthenticateExn::read(&mut des) {
        Ok(_) => Some(des.into_inner().position() as usize),
        Err(_) => None,
    }
}

/// The offset at which the result of `execute` that begins at `start` in `bytes` ends,
/// where the binary protocol can read one there.
pub uninterp spec fn execute_result_end(bytes: Seq<u8>, start: usize) -> Option<usize>;

/// Calls fbthrift's `Deserialize::read` for `ExecuteExn` on a cursor at `start`. Where
/// it succeeds the cursor's position is handed back, which has not moved back and,
/// for a start within `bytes`, lies within them. The call allocates as the sizes on
/// the wire ask and recurses as deep as values are nested there; both are taken to
/// succeed.
#[verifier::external_body]
fn read_execute_result(bytes: &[u8], start: usize) -> (end: Option<usize>)
    ensures
        end == execute_result_end(bytes@, start),
        end matches Some(offset) ==> start <= bytes@.len() ==> start <= offset <= bytes@.len(),
{
    let mut cursor = Cursor::new(bytes);
    cursor.set_position(start as u64);
    let mut des = BinaryProtocolDeserializer::new(cursor);
    match ExecuteExn::read(&mut des) {
        Ok(_) => Some(des.into_inner().position() as usize),
        Err(_) => None,
    }
}

/// The offset at which the result of `executeJson` that begins at `start` in `bytes` ends,
/// where the binary protocol can read one there.
pub uninterp spec fn execute_json_result_end(bytes: Seq<u8>, start: usize) -> Option<usize>;

/// Calls fbthrift's `Deserialize::read` for `ExecuteJsonExn` on a cursor at `start`. Where
/// it succeeds the cursor's position is handed back, which has not moved back and,
/// for a start within `bytes`, lies within them. The call allocates as the sizes on
/// the wire ask and recurses as deep as values are nested there; both are taken to
/// succeed.
#[verifier::external_body]
fn read_execute_json_result(bytes: &[u8], start: usize) -> (end: Option<usize>)
    ensures
        end == execute_json_result_end(bytes@, start),
        end matches Some(offset) ==> start <= bytes@.len() ==> start <= offset <= bytes@.len(),
{
    let mut cursor = Cursor::new(bytes);
    cursor.set_position(start as u64);
    let mut des = BinaryProtocolDeserializer::new(cursor);
    match ExecuteJsonExn::read(&mut des) {
        Ok(_) => Some(des.into_inner().position() as usize),
        Err(_) => None,
    }
}

/// Calls fbthrift's `Serialize::write` for `SignoutExn::Success(())` on an empty
/// buffer of the binary protocol and hands back what it wrote: one field of type void
/// with id 0, and the stop that ends the struct.
#[verifier::external_body]
fn write_signout_success() -> (bytes: Vec<u8>)
    ensures
        bytes@ == seq![1u8, 0u8, 0u8, 0u8],
{
    let mut ser = BinaryProtocolSerializer::<BytesMut>::with_buffer(BytesMut::new());
    SignoutExn::Success(()).write(&mut ser);
    ser.finish().to_vec()
}

/// The methods of the graph service.
#[derive(Clone, Copy, Debug, PartialEq, Eq, Structural)]
pub enum GraphMethod {
    Authenticate,
    Execute,
    ExecuteJson,
    Signout,
}

impl GraphMethod {
    /// The method that a message of this name belongs to.
    pub open spec fn of_name(name: Seq<u8>) -> Option<GraphMethod> {
        if name == "authenticate".spec_bytes() {
            Some(GraphMethod::Authenticate)
        } else if name == "execute".spec_bytes() {
            Some(GraphMethod::Execute)
        } else if name == "executeJson".spec_bytes() {
            Some(GraphMethod::ExecuteJson)
        } else if name == "signout".spec_bytes() {
            Some(GraphMethod::Signout)
        } else {
            None
        }
    }

    /// The method that a request under this qualified name calls.
    pub open spec fn of_qualified_name(name: Seq<u8>) -> Option<GraphMethod> {
        if name == "GraphService.authenticate".spec_bytes() {
            Some(GraphMethod::Authenticate)
        } else if name == "GraphService.execute".spec_bytes() {
            Some(GraphMethod::Execute)
        } else if name == "GraphService.executeJson".spec_bytes() {
            Some(GraphMethod::ExecuteJson)
        } else if name == "GraphService.signout".spec_bytes() {
            Some(GraphMethod::Signout)
        } else {
            None
        }
    }

    /// The offset at which this method's result, beginning at `start`, ends. Signing
    /// out is answered without the server, so no result of it is ever read.
    pub open spec fn result_end(self, bytes: Seq<u8>, start: usize) -> Option<usize> {
        match self {
            GraphMethod::Authenticate => authenticate_result_end(bytes, start),
            GraphMethod::Execute => execute_result_end(bytes, start),
            GraphMethod::ExecuteJson => execute_json_result_end(bytes, start),
            GraphMethod::Signout => None,
        }
    }

    pub fn from_name(name: &[u8]) -> (method: Option<GraphMethod>)
        ensures
            method == Self::of_name(name@),
    {
        if same_bytes(name, "authenticate".as_bytes()) {
            Some(GraphMethod::Authenticate)
        } else if same_bytes(name, "execute".as_bytes()) {
            Some(GraphMethod::Execute)
        } else if same_bytes(name, "executeJson".as_bytes()) {
            Some(GraphMethod::ExecuteJson)
        } else if same_bytes(name, "signout".as_bytes()) {
            Some(GraphMethod::Signout)
        } else {
            None
        }
    }

    pub fn from_qualified_name(name: &[u8]) -> (method: Option<GraphMethod>)
        ensures
            method == Self::of_qualified_name(name@),
    {
        if same_bytes(name, "GraphService.authenticate".as_bytes()) {
            Some(GraphMethod::Authenticate)
        } else if same_bytes(name, "GraphService.execute".as_bytes()) {
            Some(GraphMethod::Execute)
        } else if same_bytes(name, "GraphService.executeJson".as_bytes()) {
            Some(GraphMethod::ExecuteJson)
        } else if same_bytes(name, "GraphService.signout".as_bytes()) {
            Some(GraphMethod::Signout)
        } else {
            None
        }
    }

    fn read_result(&self, bytes: &[u8], start: usize) -> (end: Option<usize>)
        ensures
            end == self.result_end(bytes@, start),
            end matches Some(offset) ==> start <= bytes@.len() ==> start <= offset
                <= bytes@.len(),
    {
        match self {
            GraphMethod::Authenticate => read_authenticate_result(bytes, start),
            GraphMethod::Execute => read_execute_result(bytes, start),
            GraphMethod::ExecuteJson => read_execute_json_result(bytes, start),
            GraphMethod::Signout => None,
        }
    }
}

/// The reply to signing out under sequence id `seqid`: an envelope of a reply named
/// `signout`, then a result that holds nothing.
pub open spec fn signout_reply_bytes(seqid: u32) -> Seq<u8> {
    message_begin_bytes("signout"@, MessageKind::Reply, seqid) + seq![1u8, 0u8, 0u8, 0u8]
}

/// The reply to signing out under sequence id `seqid`, made without the server.
pub fn signout_reply(seqid: u32) -> (bytes: Vec<u8>)
    ensures
        bytes@ == signout_reply_bytes(seqid),
{
    proof {
        reveal_strlit("signout");
        vstd::string::is_ascii_spec_bytes("signout");
    }
    let mut bytes = write_message_begin("signout", MessageKind::Reply, seqid);
    let mut end = write_message_end();
    bytes.append(&mut end);
    let mut result = write_signout_success();
    bytes.append(&mut result);
    bytes
}

/// The text with which a message of the wrong type is rejected.
pub open spec fn unexpected_kind_text(kind: MessageKind) -> Seq<char> {
    "Unexpected message type "@ + kind.name()
}

/// What is said of a request to sign out, given what reading its envelope gave: the
/// fabricated reply under the request's sequence id, unless the envelope cannot be
/// read, bears another name or is no call.
pub open spec fn signout_answer(begin: Result<EnvelopeView, UnreadView>) -> Expected<Seq<u8>> {
    match begin {
        Err(unread) => Err(unread.text),
        Ok(envelope) => if envelope.name != "signout".spec_bytes() {
            Err(unexpected_name_text(envelope.name))
        } else if envelope.kind != MessageKind::Call {
            Err(unexpected_kind_text(envelope.kind))
        } else {
            Ok(Some(signout_reply_bytes(envelope.seqid)))
        },
    }
}

/// What is said of a request: only signing out is answered without the server, and a
/// request for a method that the service does not have is rejected.
pub open spec fn static_answer(fn_name: Seq<u8>, request: Seq<u8>) -> Expected<Seq<u8>> {
    match GraphMethod::of_qualified_name(fn_name) {
        Some(GraphMethod::Signout) => signout_answer(message_begin(request)),
        Some(_) => Ok(None),
        None => Err("Unknown method "@ + utf8_lossy_text(fn_name)),
    }
}

/// Does `answer` say what `expected` asks for? An error is of the kind `Other` and
/// carries the expected text.
pub open spec fn static_answer_matches(
    answer: Result<Option<Vec<u8>>, std::io::Error>,
    expected: Expected<Seq<u8>>,
) -> bool {
    match expected {
        Ok(Some(bytes)) => answer matches Ok(Some(response)) && response@ == bytes,
        Ok(None) => answer matches Ok(None),
        Err(text) => answer matches Err(error) && io_error_is_other(error) && io_error_text(
            error,
        ) == text,
    }
}

/// What follows the envelope of a message, given what reading the envelope at the start
/// of `bytes` gave: for a reply under the name of a method of the service, the method's
/// result; for an exception under such a name, an application exception; under such a
/// name otherwise, nothing. A message under any other name is rejected, and so is one
/// named for signing out, to which the server never replies, and a malformed envelope;
/// bytes that end before the envelope does ask for more.
pub open spec fn body_of(begin: Result<EnvelopeView, UnreadView>, bytes: Seq<u8>) -> Result<
    Body<GraphMethod>,
    Seq<char>,
> {
    match begin {
        Err(unread) => if envelope_is_malformed(unread, bytes) {
            Err(unread.text)
        } else {
            Ok(Body::Incomplete)
        },
        Ok(envelope) => match GraphMethod::of_name(envelope.name) {
            None => Err(unexpected_name_text(envelope.name)),
            Some(GraphMethod::Signout) => Err(unexpected_name_text(envelope.name)),
            Some(method) => match envelope.kind {
                MessageKind::Reply => Ok(Body::Result(method, envelope.end)),
                MessageKind::Exception => Ok(Body::Exception(envelope.end)),
                _ => Ok(Body::Nothing(envelope.end)),
            },
        },
    }
}

/// What is said of response bytes: the length of the complete message at their start,
/// the envelope and what follows it; nothing yet where the bytes end before the message
/// does or what follows the envelope cannot be read; a rejection where the envelope is
/// malformed or names no method that the server replies to.
pub open spec fn message_answer(bytes: Seq<u8>) -> Expected<usize> {
    match body_of(message_begin(bytes), bytes) {
        Err(text) => Err(text),
        Ok(Body::Incomplete) => Ok(None),
        Ok(Body::Nothing(end)) => Ok(Some(end)),
        Ok(Body::Result(method, start)) => Ok(method.result_end(bytes, start)),
        Ok(Body::Exception(start)) => Ok(application_exception_end(bytes, start)),
    }
}

/// Rejects a message type with an error that shows it.
pub(crate) fn reject_kind(kind: MessageKind) -> (error: std::io::Error)
    ensures
        io_error_is_other(error),
        io_error_text(error) == unexpected_kind_text(kind),
{
    other_io_error(
        String::from_str("Unexpected message type ").concat(kind.to_string().as_str()),
    )
}

/// Decides what to say of a request to sign out from what reading its envelope gave.
pub fn answer_signout(begin: Result<Envelope, Unread>) -> (answer: Result<
    Option<Vec<u8>>,
    std::io::Error,
>)
    ensures
        static_answer_matches(answer, signout_answer(envelope_result_view(begin))),
{
    match begin {
        Err(unread) => Err(other_io_error(unread.text)),
        Ok(envelope) => {
            if !same_bytes(envelope.name.as_slice(), "signout".as_bytes()) {
                Err(reject_name(&envelope.name))
            } else if envelope.kind != MessageKind::Call {
                Err(reject_kind(envelope.kind))
            } else {
                Ok(Some(signout_reply(envelope.seqid)))
            }
        },
    }
}

/// Decides from what reading the envelope at the start of `bytes` gave what follows it.
pub fn body_after(begin: &Result<Envelope, Unread>, bytes: &[u8]) -> (body: Result<
    Body<GraphMethod>,
    std::io::Error,
>)
    ensures
        body_matches(body, body_of(envelope_result_view(*begin), bytes@)),
{
    match begin {
        Err(unread) => if is_malformed(unread, bytes) {
            Err(other_io_error(unread.text.clone()))
        } else {
            Ok(Body::Incomplete)
        },
        Ok(envelope) => match GraphMethod::from_name(envelope.name.as_slice()) {
            None => Err(reject_name(&envelope.name)),
            Some(GraphMethod::Signout) => Err(reject_name(&envelope.name)),
            Some(method) => match envelope.kind {
                MessageKind::Reply => Ok(Body::Result(method, envelope.end)),
                MessageKind::Exception => Ok(Body::Exception(envelope.end)),
                _ => Ok(Body::Nothing(envelope.end)),
            },
        },
    }
}

/// Finds the end of the message at the start of `bytes`.
pub(crate) fn message_end(bytes: &[u8]) -> (answer: Result<Option<usize>, std::io::Error>)
    ensures
        parse_answer_matches(answer, message_answer(bytes@)),
        answer matches Ok(Some(length)) ==> length <= bytes@.len(),
{
    let begin = read_envelope(bytes);
    let body_end = match body_after(&begin, bytes) {
        Err(error) => {
            return Err(error);
        },
        Ok(Body::Incomplete) => None,
        Ok(Body::Nothing(end)) => Some(end),
        Ok(Body::Result(method, start)) => method.read_result(bytes, start),
        Ok(Body::Exception(start)) => read_application_exception(bytes, start),
    };
    match body_end {
        Some(end) => Ok(read_message_end(bytes, end)),
        None => Ok(None),
    }
}

/// Recognises the responses of the graph service, and answers a request to sign out
/// itself.
#[derive(Clone)]
pub struct GraphTransportResponseHandler;

impl MethodResponseHandler for GraphTransportResponseHandler {
    /// Fabricates the reply to signing out; asks for a round trip for the other
    /// methods of the service; rejects every other method.
    fn try_make_static_response_bytes(
        &mut self,
        _service_name: &[u8],
        fn_name: &[u8],
        request_bytes: &[u8],
    ) -> (res: Result<Option<Vec<u8>>, std::io::Error>)
        ensures
            static_answer_matches(res, static_answer(fn_name@, request_bytes@)),
    {
        match GraphMethod::from_qualified_name(fn_name) {
            Some(GraphMethod::Signout) => answer_signout(read_envelope(request_bytes)),
            Some(_) => Ok(None),
            None => {
                let message = String::from_str("Unknown method ").concat(
                    utf8_lossy(fn_name).as_str(),
                );
                Err(other_io_error(message))
            },
        }
    }

    /// The length of the complete message at the start of `response_bytes`, or `None`
    /// where more bytes are needed or the message is none of this service.
    fn parse_response_bytes(&mut self, response_bytes: &[u8]) -> (res: Result<
        Option<usize>,
        std::io::Error,
    >)
        ensures
            parse_answer_matches(res, message_answer(response_bytes@)),
    {
        message_end(response_bytes)
    }
}

} // verus!
