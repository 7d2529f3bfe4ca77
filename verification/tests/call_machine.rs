use std::io;
use std::time::Duration;

use nebula_transport::call::{Call, CallState, CallStep};
use nebula_transport::configuration::AsyncTransportConfiguration;
use nebula_transport::error::TransportError;
use nebula_transport::response_handler::{DefaultResponseHandler, ResponseHandler};

/// Finds a message complete at the first full stop and rejects a question mark.
#[derive(Clone)]
pub struct SentenceHandler;

impl ResponseHandler for SentenceHandler {
    fn try_make_static_response_bytes(
        &mut self,
        request_bytes: &[u8],
    ) -> io::Result<Option<Vec<u8>>> {
        if request_bytes == b"ping" {
            Ok(Some(b"pong".to_vec()))
        } else if request_bytes == b"bad" {
            Err(io::Error::new(io::ErrorKind::InvalidInput, "bad request"))
        } else {
            Ok(None)
        }
    }

    fn parse_response_bytes(&mut self, response_bytes: &[u8]) -> io::Result<Option<usize>> {
        if response_bytes.contains(&b'?') {
            return Err(io::Error::new(io::ErrorKind::InvalidData, "a question"));
        }
        Ok(response_bytes.iter().position(|byte| *byte == b'.').map(|at| at + 1))
    }
}

fn started(req: &[u8], c: AsyncTransportConfiguration<SentenceHandler>) -> Call<SentenceHandler> {
    let mut call = Call::new(req.to_vec(), c);
    assert!(matches!(call.written(), CallStep::Read));
    call
}

#[test]
fn a_new_call_has_done_nothing() {
    let mut c = AsyncTransportConfiguration::new(SentenceHandler);
    c.set_buf_size(16);
    c.set_read_timeout(250);
    let call = Call::new(b"hello".to_vec(), c);
    assert_eq!(call.state(), CallState::Pending);
    assert_eq!(call.request_bytes(), b"hello");
    assert_eq!(call.accumulated(), b"");
    assert_eq!(call.attempts(), 0);
    assert_eq!(call.read_size(), 16);
    assert_eq!(call.read_timeout(), Duration::from_millis(250));
}

#[test]
fn writing_comes_first_and_asks_the_handler_once() {
    let c = AsyncTransportConfiguration::new(SentenceHandler);
    let mut call = Call::new(b"hello".to_vec(), c.clone());
    assert!(matches!(call.written(), CallStep::Read));
    assert_eq!(call.state(), CallState::Written);
    assert_eq!(call.accumulated(), b"");
    assert_eq!(call.attempts(), 0);

    let mut call = Call::new(b"ping".to_vec(), c.clone());
    match call.written() {
        CallStep::Complete(bytes) => assert_eq!(bytes, b"pong".to_vec()),
        _ => panic!(),
    }
    assert_eq!(call.state(), CallState::Complete);
    assert_eq!(call.accumulated(), b"");

    let mut call = Call::new(b"bad".to_vec(), c);
    match call.written() {
        CallStep::Failed(TransportError::ParseStructuralError(err)) => {
            assert_eq!(err.kind(), io::ErrorKind::InvalidInput);
            assert_eq!(err.to_string(), "bad request");
        }
        _ => panic!(),
    }
    assert_eq!(call.state(), CallState::Failed);
}

#[test]
fn bytes_are_accumulated_until_the_handler_finds_the_end() {
    let mut c = AsyncTransportConfiguration::new(SentenceHandler);
    c.set_max_parse_response_bytes_count(9);
    let mut call = started(b"hello", c);
    assert!(matches!(call.received(b"one"), CallStep::Read));
    assert_eq!(call.accumulated(), b"one");
    assert_eq!(call.attempts(), 1);
    assert!(matches!(call.received(b""), CallStep::Read));
    assert_eq!(call.accumulated(), b"one");
    assert_eq!(call.attempts(), 2);
    assert!(matches!(call.received(b" two"), CallStep::Read));
    assert_eq!(call.attempts(), 3);
    match call.received(b" three. four") {
        CallStep::Complete(bytes) => assert_eq!(bytes, b"one two three.".to_vec()),
        _ => panic!(),
    }
    assert_eq!(call.state(), CallState::Complete);
    assert_eq!(call.accumulated(), b"one two three. four");
    assert_eq!(call.attempts(), 3);
}

#[test]
fn a_rejection_by_the_handler_ends_the_call() {
    let c = AsyncTransportConfiguration::new(SentenceHandler);
    let mut call = started(b"hello", c);
    assert!(matches!(call.received(b"what"), CallStep::Read));
    match call.received(b"?.") {
        CallStep::Failed(TransportError::ParseStructuralError(err)) => {
            assert_eq!(err.kind(), io::ErrorKind::InvalidData);
            assert_eq!(err.to_string(), "a question");
        }
        _ => panic!(),
    }
    assert_eq!(call.state(), CallState::Failed);
    assert_eq!(call.attempts(), 1);
}

#[test]
fn a_full_buffer_is_no_overflow_but_one_byte_more_is() {
    let mut c = AsyncTransportConfiguration::new(SentenceHandler);
    c.set_buf_size(4);
    c.set_max_buf_size(8);
    c.set_max_parse_response_bytes_count(9);
    let mut call = started(b"hello", c);
    assert!(matches!(call.received(b"1234"), CallStep::Read));
    assert!(matches!(call.received(b"5678"), CallStep::Read));
    assert_eq!(call.accumulated().len(), 8);
    assert_eq!(call.attempts(), 2);
    match call.received(b"9") {
        CallStep::Failed(TransportError::ExceededMaxBufferSize) => {}
        _ => panic!(),
    }
    assert_eq!(call.state(), CallState::Failed);
    assert_eq!(call.attempts(), 2);
    assert_eq!(call.accumulated(), b"123456789");
}

#[test]
fn a_complete_message_is_handed_out_even_past_the_buffer_limit() {
    let mut c = AsyncTransportConfiguration::new(SentenceHandler);
    c.set_buf_size(2);
    c.set_max_buf_size(2);
    let mut call = started(b"hello", c);
    match call.received(b"abc. and more") {
        CallStep::Complete(bytes) => assert_eq!(bytes, b"abc.".to_vec()),
        _ => panic!(),
    }
}

#[test]
fn the_buffer_limit_is_held_before_the_rounds_are_counted() {
    let mut c = AsyncTransportConfiguration::new(SentenceHandler);
    c.set_buf_size(1);
    c.set_max_buf_size(1);
    c.set_max_parse_response_bytes_count(1);
    let mut call = started(b"hello", c.clone());
    assert!(matches!(call.received(b"a"), CallStep::Read));
    assert_eq!(call.attempts(), 1);
    match call.received(b"b") {
        CallStep::Failed(TransportError::ExceededMaxBufferSize) => {}
        _ => panic!(),
    }

    let mut call = started(b"hello", c);
    assert!(matches!(call.received(b"a"), CallStep::Read));
    match call.received(b"") {
        CallStep::Failed(TransportError::ExceededMaxParseAttempts) => {}
        _ => panic!(),
    }
    assert_eq!(call.attempts(), 2);
}

#[test]
fn the_rounds_are_counted_up_to_the_widest_limit() {
    let mut c = AsyncTransportConfiguration::new(SentenceHandler);
    c.set_max_parse_response_bytes_count(255);
    let mut call = started(b"hello", c);
    for round in 1..=255u16 {
        assert!(matches!(call.received(b""), CallStep::Read));
        assert_eq!(call.attempts(), round);
    }
    match call.received(b"") {
        CallStep::Failed(TransportError::ExceededMaxParseAttempts) => {}
        _ => panic!(),
    }
    assert_eq!(call.attempts(), 256);
    assert_eq!(call.state(), CallState::Failed);
}

#[test]
fn decisions_can_be_made_on_answers_handed_in() {
    let mut c = AsyncTransportConfiguration::new(DefaultResponseHandler);
    c.set_max_buf_size(2048);
    let mut call = Call::new(b"q".to_vec(), c.clone());
    assert!(matches!(call.written(), CallStep::Read));
    assert!(matches!(call.settle_static(Ok(None)), CallStep::Read));
    match call.settle_static(Ok(Some(b"made up".to_vec()))) {
        CallStep::Complete(bytes) => assert_eq!(bytes, b"made up".to_vec()),
        _ => panic!(),
    }
    assert_eq!(call.state(), CallState::Complete);

    let mut call = Call::new(b"q".to_vec(), c.clone());
    assert!(matches!(call.written(), CallStep::Read));
    match call.settle_static(Err(io::Error::new(io::ErrorKind::Other, "no"))) {
        CallStep::Failed(TransportError::ParseStructuralError(err)) => {
            assert_eq!(err.to_string(), "no")
        }
        _ => panic!(),
    }

    let mut call = Call::new(b"q".to_vec(), c.clone());
    assert!(matches!(call.written(), CallStep::Read));
    assert!(matches!(call.settle_parse(Ok(None)), CallStep::Read));
    assert!(matches!(call.settle_parse(Ok(None)), CallStep::Read));
    assert!(matches!(call.settle_parse(Ok(None)), CallStep::Read));
    assert_eq!(call.attempts(), 3);
    match call.settle_parse(Ok(Some(0))) {
        CallStep::Complete(bytes) => assert_eq!(bytes, Vec::<u8>::new()),
        _ => panic!(),
    }

    let mut call = Call::new(b"q".to_vec(), c);
    assert!(matches!(call.written(), CallStep::Read));
    match call.settle_parse(Err(io::Error::new(io::ErrorKind::Other, "broken"))) {
        CallStep::Failed(TransportError::ParseStructuralError(err)) => {
            assert_eq!(err.to_string(), "broken")
        }
        _ => panic!(),
    }
    assert_eq!(call.state(), CallState::Failed);
}

#[test]
fn the_default_handler_takes_every_read_for_a_whole_response() {
    let c = AsyncTransportConfiguration::new(DefaultResponseHandler);
    let mut call = Call::new(b"q".to_vec(), c);
    assert!(matches!(call.written(), CallStep::Read));
    match call.received(b"abcde") {
        CallStep::Complete(bytes) => assert_eq!(bytes, b"abcde".to_vec()),
        _ => panic!(),
    }
}

#[test]
fn errors_have_their_messages() {
    assert_eq!(TransportError::ExceededMaxBufferSize.to_string(), "Reach max buffer size");
    assert_eq!(
        TransportError::ExceededMaxParseAttempts.to_string(),
        "Reach max parse response bytes count"
    );
    assert_eq!(
        TransportError::IoError(io::Error::new(io::ErrorKind::TimedOut, "too slow")).to_string(),
        "too slow"
    );
    assert_eq!(
        TransportError::ParseStructuralError(io::Error::new(io::ErrorKind::Other, "odd"))
            .to_string(),
        "odd"
    );
}

#[test]
fn a_failure_of_the_stream_ends_the_call() {
    let c = AsyncTransportConfiguration::new(SentenceHandler);
    let mut call = Call::new(b"hello".to_vec(), c.clone());
    match call.io_failed(io::Error::new(io::ErrorKind::BrokenPipe, "gone")) {
        TransportError::IoError(err) => {
            assert_eq!(err.kind(), io::ErrorKind::BrokenPipe);
            assert_eq!(err.to_string(), "gone");
        }
        _ => panic!(),
    }
    assert_eq!(call.state(), CallState::Failed);

    let mut call = started(b"hello", c);
    assert!(matches!(call.received(b"half"), CallStep::Read));
    let failure = call.io_failed(io::Error::new(io::ErrorKind::TimedOut, "read timeout"));
    assert_eq!(failure.to_string(), "read timeout");
    assert_eq!(call.state(), CallState::Failed);
    assert_eq!(call.accumulated(), b"half");
    assert_eq!(call.attempts(), 1);
}
