//! The response handler of the meta service.

use crate::io_error::io_error_is_other;
use crate::io_error::io_error_text;
use crate::io_error::other_io_error;
use crate::response_handler::MethodResponseHandler;
use crate::thrift::application_exception_end;
use crate::thrift::body_matches;
use crate::thrift::envelope_is_malformed;
use crate::thrift::envelope_result_view;
use crate::thrift::is_malformed;
use crate::thrift::message_begin;
use crate::thrift::parse_answer_matches;
use crate::thrift::read_application_exception;
use crate::thrift::read_envelope;
use crate::thrift::read_message_end;
use crate::thrift::reject_name;
use crate::thrift::same_bytes;
use crate::thrift::unexpected_name_text;
use crate::thrift::utf8_lossy;
use crate::thrift::utf8_lossy_text;
use crate::thrift::Body;
use crate::thrift::Envelope;
use crate::thrift::EnvelopeView;
use crate::thrift::Expected;
use crate::thrift::MessageKind;
use crate::thrift::Unread;
use crate::thrift::UnreadView;
use fbthrift_git::binary_protocol::BinaryProtocolDeserializer;
use fbthrift_git::Deserialize;
use nebula_fbthrift_meta_v1::services::meta_service::GetSpaceExn;
use nebula_fbthrift_meta_v1::services::meta_service::ListEdgesExn;
use nebula_fbthrift_meta_v1::services::meta_service::ListPartsExn;
use nebula_fbthrift_meta_v1::services::meta_service::ListSpacesExn;
use nebula_fbthrift_meta_v1::services::meta_service::ListTagsExn;
use std::io::Cursor;
use vstd::prelude::*;
use vstd::string::StringExecFns;
use vstd::string::StringSliceAdditionalSpecFns;

verus! {

/// The offset at which the result of `listSpaces` that begins at `start` in `bytes` ends,
/// where the binary protocol can read one there.
pub uninterp spec fn list_spaces_result_end(bytes: Seq<u8>, start: usize) -> Option<usize>;

/// Calls fbthrift's `Deserialize::read` for `ListSpacesExn` on a cursor at `start`. Where
/// it succeeds the cursor's position is handed back, which has not moved back and,
/// for a start within `bytes`, lies within them. The call allocates as the sizes on
/// the wire ask and recurses as deep as values are nested there; both are taken to
/// succeed.
#[verifier::external_body]
fn read_list_spaces_result(bytes: &[u8], start: usize) -> (end: Option<usize>)
    ensures
        end == list_spaces_result_end(bytes@, start),
        end matches Some(offset) ==> start <= bytes@.len() ==> start <= offset <= bytes@.len(),
{
    let mut cursor = Cursor::new(bytes);
    cursor.set_position(start as u64);
    let mut des = BinaryProtocolDeserializer::new(cursor);
    match ListSpacesExn::read(&mut des) {
        Ok(_) => Some(des.into_inner().position() as usize),
        Err(_) => None,
    }
}

/// The offset at which the result of `getSpace` that begins at `start` in `bytes` ends,
/// where the binary protocol can read one there.
pub uninterp spec fn get_space_result_end(bytes: Seq<u8>, start: usize) -> Option<usize>;

/// Calls fbthrift's `Deserialize::read` for `GetSpaceExn` on a cursor at `start`. Where
/// it succeeds the cursor's position is handed back, which has not moved back and,
/// for a start within `bytes`, lies within them. The call allocates as the sizes on
/// the wire ask and recurses as deep as values are nested there; both are taken to
/// succeed.
#[verifier::external_body]
fn read_get_space_result(bytes: &[u8], start: usize) -> (end: Option<usize>)
    ensures
        end == get_space_result_end(bytes@, start),
        end matches Some(offset) ==> start <= bytes@.len() ==> start <= offset <= bytes@.len(),
{
    let mut cursor = Cursor::new(bytes);
    cursor.set_position(start as u64);
    let mut des = BinaryProtocolDeserializer::new(cursor);
    match GetSpaceExn::read(&mut des) {
        Ok(_) => Some(des.into_inner().position() as usize),
        Err(_) => None,
    }
}

/// The offset at which the result of `listParts` that begins at `start` in `bytes` ends,
/// where the binary protocol can read one there.
pub uninterp spec fn list_parts_result_end(bytes: Seq<u8>, start: usize) -> Option<usize>;

/// Calls fbthrift's `Deserialize::read` for `ListPartsExn` on a cursor at `start`. Where
/// it succeeds the cursor's position is handed back, which has not moved back and,
/// for a start within `bytes`, lies within them. The call allocates as the sizes on
/// the wire ask and recurses as deep as values are nested there; both are taken to
/// succeed.
#[verifier::external_body]
fn read_list_parts_result(bytes: &[u8], start: usize) -> (end: Option<usize>)
    ensures
        end == list_parts_result_end(bytes@, start),
        end matches Some(offset) ==> start <= bytes@.len() ==> start <= offset <= bytes@.len(),
{
    let mut cursor = Cursor::new(bytes);
    cursor.set_position(start as u64);
    let mut des = BinaryProtocolDeserializer::new(cursor);
    match ListPartsExn::read(&mut des) {
        Ok(_) => Some(des.into_inner().position() as usize),
        Err(_) => None,
    }
}

/// The offset at which the result of `listTags` that begins at `start` in `bytes` ends,
/// where the binary protocol can read one there.
pub uninterp spec fn list_tags_result_end(bytes: Seq<u8>, start: usize) -> Option<usize>;

/// Calls fbthrift's `Deserialize::read` for `ListTagsExn` on a cursor at `start`. Where
/// it succeeds the cursor's position is handed back, which has not moved back and,
/// for a start within `bytes`, lies within them. The call allocates as the sizes on
/// the wire ask and recurses as deep as values are nested there; both are taken to
/// succeed.
#[verifier::external_body]
fn read_list_tags_result(bytes: &[u8], start: usize) -> (end: Option<usize>)
    ensures
        end == list_tags_result_end(bytes@, start),
        end matches Some(offset) ==> start <= bytes@.len() ==> start <= offset <= bytes@.len(),
{
    let mut cursor = Cursor::new(bytes);
    cursor.set_position(start as u64);
    let mut des = BinaryProtocolDeserializer::new(cursor);
    match ListTagsExn::read(&mut des) {
        Ok(_) => Some(des.into_inner().position() as usize),
        Err(_) => None,
    }
}

/// The offset at which the result of `listEdges` that begins at `start` in `bytes` ends,
/// where the binary protocol can read one there.
pub uninterp spec fn list_edges_result_end(bytes: Seq<u8>, start: usize) -> Option<usize>;

/// Calls fbthrift's `Deserialize::read` for `ListEdgesExn` on a cursor at `start`. Where
/// it succeeds the cursor's position is handed back, which has not moved back and,
/// for a start within `bytes`, lies within them. The call allocates as the sizes on
/// the wire ask and recurses as deep as values are nested there; both are taken to
/// succeed.
#[verifier::external_body]
fn read_list_edges_result(bytes: &[u8], start: usize) -> (end: Option<usize>)
    ensures
        end == list_edges_result_end(bytes@, start),
        end matches Some(offset) ==> start <= bytes@.len() ==> start <= offset <= bytes@.len(),
{
    let mut cursor = Cursor::new(bytes);
    cursor.set_position(start as u64);
    let mut des = BinaryProtocolDeserializer::new(cursor);
    match ListEdgesExn::read(&mut des) {
        Ok(_) => Some(des.into_inner().position() as usize),
        Err(_) => None,
    }
}

/// The methods of the meta service whose responses this handler recognises.
#[derive(Clone, Copy, Debug, PartialEq, Eq, Structural)]
pub enum MetaMethod {
    ListSpaces,
    GetSpace,
    ListParts,
    ListTags,
    ListEdges,
}

impl MetaMethod {
    /// The method that a message of this name belongs to.
    pub open spec fn of_name(name: Seq<u8>) -> Option<MetaMethod> {
        if name == "listSpaces".spec_bytes() {
            Some(MetaMethod::ListSpaces)
        } else         if name == "getSpace".spec_bytes() {
            Some(MetaMethod::GetSpace)
        } else         if name == "listParts".spec_bytes() {
            Some(MetaMethod::ListParts)
        } else         if name == "listTags".spec_bytes() {
            Some(MetaMethod::ListTags)
        } else         if name == "listEdges".spec_bytes() {
            Some(MetaMethod::ListEdges)
        } else {
            None
        }
    }

    /// The method that a request under this qualified name calls.
    pub open spec fn of_qualified_name(name: Seq<u8>) -> Option<MetaMethod> {
        if name == "MetaService.listSpaces".spec_bytes() {
            Some(MetaMethod::ListSpaces)
        } else         if name == "MetaService.getSpace".spec_bytes() {
            Some(MetaMethod::GetSpace)
        } else         if name == "MetaService.listParts".spec_bytes() {
            Some(MetaMethod::ListParts)
        } else         if name == "MetaService.listTags".spec_bytes() {
            Some(MetaMethod::ListTags)
        } else         if name == "MetaService.listEdges".spec_bytes() {
            Some(MetaMethod::ListEdges)
        } else {
            None
        }
    }

    /// The offset at which this method's result, beginning at `start`, ends.
    pub open spec fn result_end(self, bytes: Seq<u8>, start: usize) -> Option<usize> {
        match self {
            MetaMethod::ListSpaces => list_spaces_result_end(bytes, start),
            MetaMethod::GetSpace => get_space_result_end(bytes, start),
            MetaMethod::ListParts => list_parts_result_end(bytes, start),
            MetaMethod::ListTags => list_tags_result_end(bytes, start),
            MetaMethod::ListEdges => list_edges_result_end(bytes, start),
        }
    }

    pub fn from_name(name: &[u8]) -> (method: Option<MetaMethod>)
        ensures
            method == Self::of_name(name@),
    {
        if same_bytes(name, "listSpaces".as_bytes()) {
            Some(MetaMethod::ListSpaces)
        } else         if same_bytes(name, "getSpace".as_bytes()) {
            Some(MetaMethod::GetSpace)
        } else         if same_bytes(name, "listParts".as_bytes()) {
            Some(MetaMethod::ListParts)
        } else         if same_bytes(name, "listTags".as_bytes()) {
            Some(MetaMethod::ListTags)
        } else         if same_bytes(name, "listEdges".as_bytes()) {
            Some(MetaMethod::ListEdges)
        } else {
            None
        }
    }

    pub fn from_qualified_name(name: &[u8]) -> (method: Option<MetaMethod>)
        ensures
            method == Self::of_qualified_name(name@),
    {
        if same_bytes(name, "MetaService.listSpaces".as_bytes()) {
            Some(MetaMethod::ListSpaces)
        } else         if same_bytes(name, "MetaService.getSpace".as_bytes()) {
            Some(MetaMethod::GetSpace)
        } else         if same_bytes(name, "MetaService.listParts".as_bytes()) {
            Some(MetaMethod::ListParts)
        } else         if same_bytes(name, "MetaService.listTags".as_bytes()) {
            Some(MetaMethod::ListTags)
        } else         if same_bytes(name, "MetaService.listEdges".as_bytes()) {
            Some(MetaMethod::ListEdges)
        } else {
            None
        }
    }

    fn read_result(&self, bytes: &[u8], start: usize) -> (end: Option<usize>)
        ensures
            end == self.result_end(bytes@, start),
            end matches Some(offset) ==> start <= bytes@.len() ==> start <= offset
                <= bytes@.len(),
    {
        match self {
            MetaMethod::ListSpaces => read_list_spaces_result(bytes, start),
            MetaMethod::GetSpace => read_get_space_result(bytes, start),
            MetaMethod::ListParts => read_list_parts_result(bytes, start),
            MetaMethod::ListTags => read_list_tags_result(bytes, start),
            MetaMethod::ListEdges => read_list_edges_result(bytes, start),
        }
    }
}

/// What follows the envelope of a message, given what reading the envelope at the start
/// of `bytes` gave: for a reply under the name of a method of the service, the method's
/// result; for an exception under such a name, an application exception; under such a
/// name otherwise, nothing. A message under any other name is rejected, and so is a
/// malformed envelope; bytes that end before the envelope does ask for more.
pub open spec fn body_of(begin: Result<EnvelopeView, UnreadView>, bytes: Seq<u8>) -> Result<
    Body<MetaMethod>,
    Seq<char>,
> {
    match begin {
        Err(unread) => if envelope_is_malformed(unread, bytes) {
            Err(unread.text)
        } else {
            Ok(Body::Incomplete)
        },
        Ok(envelope) => match MetaMethod::of_name(envelope.name) {
            None => Err(unexpected_name_text(envelope.name)),
            Some(method) => match envelope.kind {
                MessageKind::Reply => Ok(Body::Result(method, envelope.end)),
                MessageKind::Exception => Ok(Body::Exception(envelope.end)),
                _ => Ok(Body::Nothing(envelope.end)),
            },
        },
    }
}

/// Decides from what reading the envelope at the start of `bytes` gave what follows it.
pub fn body_after(begin: &Result<Envelope, Unread>, bytes: &[u8]) -> (body: Result<
    Body<MetaMethod>,
    std::io::Error,
>)
    ensures
        body_matches(body, body_of(envelope_result_view(*begin), bytes@)),
{
    match begin {
        Err(unread) => if is_malformed(unread, bytes) {
            Err(other_io_error(unread.text.clone()))
        } else {
            Ok(Body::Incomplete)
        },
        Ok(envelope) => match MetaMethod::from_name(envelope.name.as_slice()) {
            None => Err(reject_name(&envelope.name)),
            Some(method) => match envelope.kind {
                MessageKind::Reply => Ok(Body::Result(method, envelope.end)),
                MessageKind::Exception => Ok(Body::Exception(envelope.end)),
                _ => Ok(Body::Nothing(envelope.end)),
            },
        },
    }
}

/// What is said of response bytes: the length of the complete message at their start,
/// the envelope and what follows it; nothing yet where the bytes end before the message
/// does or what follows the envelope cannot be read; a rejection where the envelope is
/// malformed or names no method of the service.
pub open spec fn message_answer(bytes: Seq<u8>) -> Expected<usize> {
    match body_of(message_begin(bytes), bytes) {
        Err(text) => Err(text),
        Ok(Body::Incomplete) => Ok(None),
        Ok(Body::Nothing(end)) => Ok(Some(end)),
        Ok(Body::Result(method, start)) => Ok(method.result_end(bytes, start)),
        Ok(Body::Exception(start)) => Ok(application_exception_end(bytes, start)),
    }
}

/// Recognises the responses of the meta service. None of its methods has a response
/// that can be made without a round trip.
#[derive(Clone)]
pub struct MetaTransportResponseHandler;

impl MethodResponseHandler for MetaTransportResponseHandler {
    /// No response is fabricated for a method of the service; a request for any other
    /// method is rejected with an error that names it.
    fn try_make_static_response_bytes(
        &mut self,
        _service_name: &[u8],
        fn_name: &[u8],
        _request_bytes: &[u8],
    ) -> (res: Result<Option<Vec<u8>>, std::io::Error>)
        ensures
            MetaMethod::of_qualified_name(fn_name@) is Some ==> res == Ok::<
                Option<Vec<u8>>,
                std::io::Error,
            >(None),
            MetaMethod::of_qualified_name(fn_name@) is None ==> (res matches Err(error)
                && io_error_is_other(error) && io_error_text(error) == "Unknown method "@
                + utf8_lossy_text(fn_name@)),
    {
        match MetaMethod::from_qualified_name(fn_name) {
            Some(_) => Ok(None),
            None => {
                let message = String::from_str("Unknown method ").concat(
                    utf8_lossy(fn_name).as_str(),
                );
                Err(other_io_error(message))
            },
        }
    }

    /// The length of the complete message at the start of `response_bytes`; `None`
    /// where more bytes are needed; an error where the envelope is malformed or the
    /// message is none of this service.
    fn parse_response_bytes(&mut self, response_bytes: &[u8]) -> (res: Result<
        Option<usize>,
        std::io::Error,
    >)
        ensures
            parse_answer_matches(res, message_answer(response_bytes@)),
    {
        let begin = read_envelope(response_bytes);
        let body_end = match body_after(&begin, response_bytes) {
            Err(error) => {
                return Err(error);
            },
            Ok(Body::Incomplete) => None,
            Ok(Body::Nothing(end)) => Some(end),
            Ok(Body::Result(method, start)) => method.read_result(response_bytes, start),
            Ok(Body::Exception(start)) => read_application_exception(response_bytes, start),
        };
        match body_end {
            Some(end) => Ok(read_message_end(response_bytes, end)),
            None => Ok(None),
        }
    }
}

} // verus!
