//! The response handler of a graph connection that learns the method from the request
//! itself.

use crate::io_error::other_io_error;
use crate::response_handler::ResponseHandler;
use crate::thrift::bytes_debug;
use crate::thrift::bytes_debug_text;
use crate::thrift::envelope_result_view;
use crate::thrift::message_begin;
use crate::thrift::parse_answer_matches;
use crate::thrift::read_envelope;
use crate::thrift::Expected;
use crate::thrift::Unread;
use crate::thrift::UnreadView;
use crate::thrift::Envelope;
use crate::thrift::EnvelopeView;
use crate::thrift::MessageKind;
use crate::v2::graph::message_end;
use crate::v2::graph::message_answer;
use crate::v2::graph::reject_kind;
use crate::v2::graph::signout_reply;
use crate::v2::graph::signout_reply_bytes;
use crate::v2::graph::static_answer_matches;
use crate::v2::graph::unexpected_kind_text;
use crate::v2::graph::GraphMethod;
use vstd::prelude::*;
use vstd::string::StringExecFns;

verus! {

/// The text with which a request for a method that the service does not have is
/// rejected.
pub open spec fn unknown_method_text(name: Seq<u8>) -> Seq<char> {
    "Unknown method "@ + bytes_debug_text(name)
}

/// What is said of a request, given what reading its envelope gave. Only signing out
/// is answered without the server, with a reply under the request's sequence id; a
/// request that cannot be read, or for a method that the service does not have, is
/// rejected.
pub open spec fn request_answer(begin: Result<EnvelopeView, UnreadView>) -> Expected<Seq<u8>> {
    match begin {
        Err(unread) => Err(unread.text),
        Ok(envelope) => match GraphMethod::of_name(envelope.name) {
            Some(GraphMethod::Signout) => if envelope.kind != MessageKind::Call {
                Err(unexpected_kind_text(envelope.kind))
            } else {
                Ok(Some(signout_reply_bytes(envelope.seqid)))
            },
            Some(_) => Ok(None),
            None => Err(unknown_method_text(envelope.name)),
        },
    }
}

/// Decides what to say of a request from what reading its envelope gave.
pub fn answer_request(begin: Result<Envelope, Unread>) -> (answer: Result<
    Option<Vec<u8>>,
    std::io::Error,
>)
    ensures
        static_answer_matches(answer, request_answer(envelope_result_view(begin))),
{
    match begin {
        Err(unread) => Err(other_io_error(unread.text)),
        Ok(envelope) => match GraphMethod::from_name(envelope.name.as_slice()) {
            Some(GraphMethod::Signout) => {
                if envelope.kind != MessageKind::Call {
                    Err(reject_kind(envelope.kind))
                } else {
                    Ok(Some(signout_reply(envelope.seqid)))
                }
            },
            Some(_) => Ok(None),
            None => Err(
                other_io_error(
                    String::from_str("Unknown method ").concat(
                        bytes_debug(&envelope.name).as_str(),
                    ),
                ),
            ),
        },
    }
}

/// Recognises the responses of the graph service, and answers a request to sign out
/// itself.
#[derive(Clone)]
pub struct GraphTransportResponseHandler;

impl ResponseHandler for GraphTransportResponseHandler {
    fn try_make_static_response_bytes(&mut self, request_bytes: &[u8]) -> (res: Result<
        Option<Vec<u8>>,
        std::io::Error,
    >)
        ensures
            static_answer_matches(res, request_answer(message_begin(request_bytes@))),
    {
        answer_request(read_envelope(request_bytes))
    }

    fn parse_response_bytes(&mut self, response_bytes: &[u8]) -> (res: Result<
        Option<usize>,
        std::io::Error,
    >)
        ensures
            parse_answer_matches(res, message_answer(response_bytes@)),
    {
        message_end(response_bytes)
    }
}

} // verus!
