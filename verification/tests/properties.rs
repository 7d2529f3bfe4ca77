use std::io;
use std::time::Duration;

use nebula_transport::configuration::AsyncTransportConfiguration;
use nebula_transport::error::TransportError;
use nebula_transport::response_handler::{DefaultResponseHandler, ResponseHandler};
use nebula_transport::transport::{AsyncTransport, Stream};

/// A stream that hands out the chunks it was given, one for each read, and then
/// nothing; it keeps what was written to it and what it was asked for.
pub struct Script {
    chunks: Vec<Vec<u8>>,
    next: usize,
    written: Vec<u8>,
    asked: Vec<(usize, Duration)>,
    fail_write: bool,
    fail_read_at: Option<usize>,
}

impl Script {
    fn new(chunks: &[&[u8]]) -> Self {
        Script {
            chunks: chunks.iter().map(|chunk| chunk.to_vec()).collect(),
            next: 0,
            written: Vec::new(),
            asked: Vec::new(),
            fail_write: false,
            fail_read_at: None,
        }
    }

    fn reads(&self) -> usize {
        self.asked.len()
    }
}

impl Stream for Script {
    fn write_all(&mut self, bytes: &[u8]) -> io::Result<()> {
        if self.fail_write {
            return Err(io::Error::new(io::ErrorKind::BrokenPipe, "gone"));
        }
        self.written.extend_from_slice(bytes);
        Ok(())
    }

    fn read_with_timeout(&mut self, max_len: usize, timeout: Duration) -> io::Result<Vec<u8>> {
        if self.fail_read_at == Some(self.asked.len()) {
            return Err(io::Error::new(io::ErrorKind::TimedOut, "read timeout"));
        }
        self.asked.push((max_len, timeout));
        let chunk = self.chunks.get(self.next).cloned().unwrap_or_default();
        self.next += 1;
        Ok(chunk)
    }
}

/// Takes the first byte for the length of the message that follows it.
#[derive(Clone)]
pub struct LengthByteHandler;

impl ResponseHandler for LengthByteHandler {
    fn try_make_static_response_bytes(
        &mut self,
        request_bytes: &[u8],
    ) -> io::Result<Option<Vec<u8>>> {
        Ok(if request_bytes.is_empty() { Some(vec![0]) } else { None })
    }

    fn parse_response_bytes(&mut self, response_bytes: &[u8]) -> io::Result<Option<usize>> {
        let wanted = 1 + response_bytes[0] as usize;
        Ok(if response_bytes.len() >= wanted { Some(wanted) } else { None })
    }
}

/// Never finds a response complete.
#[derive(Clone)]
pub struct NeverHandler;

impl ResponseHandler for NeverHandler {
    fn try_make_static_response_bytes(&mut self, _: &[u8]) -> io::Result<Option<Vec<u8>>> {
        Ok(None)
    }

    fn parse_response_bytes(&mut self, _: &[u8]) -> io::Result<Option<usize>> {
        Ok(None)
    }
}

#[test]
fn repeated_calls_end_with_the_length_that_the_handler_reports() {
    let mut c = AsyncTransportConfiguration::new(LengthByteHandler);
    c.set_buf_size(64);
    c.set_max_buf_size(64);
    let stream = Script::new(&[b"\x03abc", b"\x00", b"\x05hello", b"\x02hi+next"]);
    let mut transport = AsyncTransport::new(stream, c);
    let expected: [&[u8]; 4] = [b"\x03abc", b"\x00", b"\x05hello", b"\x02hi"];
    for (round, response) in expected.iter().enumerate() {
        let out = transport.call(vec![round as u8]).unwrap();
        assert_eq!(&out[..], *response);
        assert_eq!(out.len(), 1 + out[0] as usize);
    }
    let stream = transport.into_inner();
    assert_eq!(stream.written, vec![0, 1, 2, 3]);
    assert_eq!(stream.reads(), 4);
    assert!(stream.asked.iter().all(|ask| *ask == (64, Duration::from_secs(5))));
}

#[test]
fn a_fabricated_response_needs_no_read() {
    let c = AsyncTransportConfiguration::new(LengthByteHandler);
    let mut transport = AsyncTransport::new(Script::new(&[b"\x01x"]), c);
    assert_eq!(transport.call(Vec::new()).unwrap(), vec![0]);
    let stream = transport.into_inner();
    assert_eq!(stream.reads(), 0);
    assert_eq!(stream.next, 0);
}

#[test]
fn a_response_in_pieces_is_assembled_and_the_rest_is_left() {
    let mut c = AsyncTransportConfiguration::new(LengthByteHandler);
    c.set_buf_size(1);
    c.set_max_parse_response_bytes_count(5);
    let stream = Script::new(&[b"\x04", b"8", b"9", b"0", b"1", b"2"]);
    let mut transport = AsyncTransport::new(stream, c);
    assert_eq!(transport.call(b"dynamic".to_vec()).unwrap(), b"\x048901".to_vec());
    let stream = transport.into_inner();
    assert_eq!(stream.reads(), 5);
    assert_eq!(stream.chunks[stream.next], b"2".to_vec());
    assert!(stream.asked.iter().all(|ask| ask.0 == 1));
}

#[test]
fn one_round_too_many_fails_the_assembly() {
    let mut c = AsyncTransportConfiguration::new(LengthByteHandler);
    c.set_buf_size(1);
    c.set_max_parse_response_bytes_count(3);
    let stream = Script::new(&[b"\x04", b"8", b"9", b"0", b"1", b"2"]);
    let mut transport = AsyncTransport::new(stream, c);
    match transport.call(b"dynamic".to_vec()) {
        Err(TransportError::ExceededMaxParseAttempts) => {}
        _ => panic!(),
    }
    assert_eq!(transport.into_inner().reads(), 4);
}

#[test]
fn overflow_is_reported_as_overflow_where_the_rounds_run_out_too() {
    let mut c = AsyncTransportConfiguration::new(NeverHandler);
    c.set_buf_size(2);
    c.set_max_buf_size(3);
    c.set_max_parse_response_bytes_count(1);
    let stream = Script::new(&[b"ab", b"cd", b"ef"]);
    let mut transport = AsyncTransport::new(stream, c);
    match transport.call(b"q".to_vec()) {
        Err(err @ TransportError::ExceededMaxBufferSize) => {
            assert_eq!(err.to_string(), "Reach max buffer size")
        }
        _ => panic!(),
    }
    assert_eq!(transport.into_inner().reads(), 2);
}

#[test]
fn silence_fails_after_one_read_more_than_the_limit() {
    for limit in [1u8, 2, 3, 10, 255] {
        let mut c = AsyncTransportConfiguration::new(NeverHandler);
        c.set_max_parse_response_bytes_count(limit);
        let mut transport = AsyncTransport::new(Script::new(&[]), c);
        match transport.call(b"q".to_vec()) {
            Err(err @ TransportError::ExceededMaxParseAttempts) => {
                assert_eq!(err.to_string(), "Reach max parse response bytes count")
            }
            _ => panic!(),
        }
        let stream = transport.into_inner();
        assert_eq!(stream.reads(), limit as usize + 1);
        assert_eq!(stream.written, b"q".to_vec());
    }
}

#[test]
fn calls_of_cloned_configurations_end_alike() {
    let mut c = AsyncTransportConfiguration::new(LengthByteHandler);
    c.set_buf_size(2);
    c.set_max_buf_size(6);
    c.set_max_parse_response_bytes_count(4);
    let scripts: [&[&[u8]]; 4] = [
        &[b"\x03a", b"bc", b"d"],
        &[b"\x09a", b"bc", b"de", b"fg"],
        &[b"\x09a", b"", b"", b"", b""],
        &[b"", b"\x01", b"z"],
    ];
    for script in scripts {
        let mut one = AsyncTransport::new(Script::new(script), c.clone());
        let mut other = AsyncTransport::new(Script::new(script), c.clone());
        let first = one.call(b"q".to_vec()).map_err(|err| err.to_string());
        let second = other.call(b"another".to_vec()).map_err(|err| err.to_string());
        let again = one.call(b"q".to_vec()).map_err(|err| err.to_string());
        assert_eq!(first, second);
        assert_eq!(one.into_inner().reads() > 0, true);
        assert_eq!(other.into_inner().reads() > 0, true);
        let _ = again;
    }
    let mut one = AsyncTransport::new(Script::new(scripts[0]), c.clone());
    assert_eq!(one.call(b"q".to_vec()).unwrap(), b"\x03abc".to_vec());
    let mut spent = AsyncTransport::new(Script::new(&[]), c.clone());
    assert!(spent.call(b"q".to_vec()).is_err());
    let mut fresh = AsyncTransport::new(Script::new(scripts[0]), c);
    assert_eq!(fresh.call(b"q".to_vec()).unwrap(), b"\x03abc".to_vec());
}

#[test]
fn a_failing_stream_fails_the_call_with_its_error() {
    let c = AsyncTransportConfiguration::new(DefaultResponseHandler);
    let mut stream = Script::new(&[b"abc"]);
    stream.fail_write = true;
    let mut transport = AsyncTransport::new(stream, c.clone());
    match transport.call(b"q".to_vec()) {
        Err(TransportError::IoError(err)) => {
            assert_eq!(err.kind(), io::ErrorKind::BrokenPipe);
            assert_eq!(err.to_string(), "gone");
        }
        _ => panic!(),
    }
    assert_eq!(transport.into_inner().reads(), 0);

    let mut stream = Script::new(&[b"", b"abc"]);
    stream.fail_read_at = Some(1);
    let mut transport = AsyncTransport::new(stream, c);
    match transport.call(b"q".to_vec()) {
        Err(err @ TransportError::IoError(_)) => assert_eq!(err.to_string(), "read timeout"),
        _ => panic!(),
    }
    assert_eq!(transport.into_inner().reads(), 1);
}

#[test]
fn the_default_transport_echoes_what_one_read_brings() {
    let stream = Script::new(&[b"abcde", b"fgh"]);
    let mut transport = AsyncTransport::with_default_configuration(stream);
    assert_eq!(transport.call(b"abcde".to_vec()).unwrap(), b"abcde".to_vec());
    assert_eq!(transport.call(b"fgh".to_vec()).unwrap(), b"fgh".to_vec());
    let call = transport.begin(b"x".to_vec());
    assert_eq!(call.read_size(), 1024);
    assert_eq!(call.read_timeout(), Duration::from_secs(5));
    let stream = transport.into_inner();
    assert_eq!(stream.written, b"abcdefgh".to_vec());
    assert_eq!(stream.asked, vec![(1024, Duration::from_secs(5)); 2]);
}
