use std::io;
use std::time::Duration;

use nebula_transport::configuration::AsyncTransportConfiguration;
use nebula_transport::error::TransportError;
use nebula_transport::response_handler::{Bound, ResponseHandler};
use nebula_transport::transport::{AsyncTransport, Stream};
use nebula_transport::v1::meta::MetaTransportResponseHandler;

/// A stream over a byte vector that is written and read at one position.
pub struct Cursor {
    buf: Vec<u8>,
    pos: usize,
    reads: usize,
}

impl Cursor {
    fn new(buf: Vec<u8>) -> Self {
        Cursor { buf, pos: 0, reads: 0 }
    }

    fn get_ref(&self) -> &Vec<u8> {
        &self.buf
    }
}

impl Stream for Cursor {
    fn write_all(&mut self, bytes: &[u8]) -> io::Result<()> {
        for byte in bytes {
            if self.pos < self.buf.len() {
                self.buf[self.pos] = *byte;
            } else {
                self.buf.push(*byte);
            }
            self.pos += 1;
        }
        Ok(())
    }

    fn read_with_timeout(&mut self, max_len: usize, _timeout: Duration) -> io::Result<Vec<u8>> {
        self.reads += 1;
        let end = usize::min(self.buf.len(), self.pos + max_len);
        let chunk = self.buf[self.pos..end].to_vec();
        self.pos = end;
        Ok(chunk)
    }
}

fn call<H: ResponseHandler>(
    stream: Cursor,
    req: &str,
    c: AsyncTransportConfiguration<H>,
) -> (Result<Vec<u8>, TransportError>, Cursor) {
    let mut transport = AsyncTransport::new(stream, c);
    let out = transport.call(req.as_bytes().to_vec());
    (out, transport.into_inner())
}

#[test]
fn call_with_static_res() -> io::Result<()> {
    #[derive(Clone)]
    pub struct FooResponseHandler;

    impl ResponseHandler for FooResponseHandler {
        fn try_make_static_response_bytes(
            &mut self,
            request_bytes: &[u8],
        ) -> io::Result<Option<Vec<u8>>> {
            Ok(if request_bytes == b"static" {
                Some(b"bar".to_vec())
            } else {
                None
            })
        }

        fn parse_response_bytes(&mut self, _response_bytes: &[u8]) -> io::Result<Option<usize>> {
            unreachable!()
        }
    }

    let stream = Cursor::new(b"1234567890".to_vec());
    let c = AsyncTransportConfiguration::new(FooResponseHandler);

    let (out, stream) = call(stream, "static", c.clone());
    let out = out.map_err(|err| err.to_string()).expect("");
    assert_eq!(out, b"bar".to_vec());

    assert_eq!(stream.get_ref(), &b"static7890");
    assert_eq!(stream.reads, 0);
    assert_eq!(stream.pos, 6);

    Ok(())
}

#[test]
fn call_with_dynamic_res() -> io::Result<()> {
    #[derive(Clone)]
    pub struct FooResponseHandler;

    impl ResponseHandler for FooResponseHandler {
        fn try_make_static_response_bytes(
            &mut self,
            request_bytes: &[u8],
        ) -> io::Result<Option<Vec<u8>>> {
            Ok(if request_bytes == b"dynamic" {
                None
            } else {
                unreachable!()
            })
        }

        fn parse_response_bytes(&mut self, response_bytes: &[u8]) -> io::Result<Option<usize>> {
            if response_bytes == b"89012" {
                Ok(Some(2))
            } else {
                unreachable!()
            }
        }
    }

    let stream = Cursor::new(b"123456789012".to_vec());
    let c = AsyncTransportConfiguration::new(FooResponseHandler);

    let (out, stream) = call(stream, "dynamic", c.clone());
    let out = out.map_err(|err| err.to_string()).expect("");
    assert_eq!(out, b"89".to_vec());

    assert_eq!(stream.get_ref(), &b"dynamic89012");

    Ok(())
}

#[derive(Clone)]
pub struct FiveBytesResponseHandler;

impl ResponseHandler for FiveBytesResponseHandler {
    fn try_make_static_response_bytes(
        &mut self,
        request_bytes: &[u8],
    ) -> io::Result<Option<Vec<u8>>> {
        Ok(if request_bytes == b"dynamic" {
            None
        } else {
            unreachable!()
        })
    }

    fn parse_response_bytes(&mut self, response_bytes: &[u8]) -> io::Result<Option<usize>> {
        if response_bytes == b"8" {
            Ok(None)
        } else if response_bytes == b"89" {
            Ok(None)
        } else if response_bytes == b"890" {
            Ok(None)
        } else if response_bytes == b"8901" {
            Ok(None)
        } else if response_bytes == b"89012" {
            Ok(Some(4))
        } else {
            unreachable!()
        }
    }
}

#[test]
fn call_with_dynamic_res_and_less_buf_size() -> io::Result<()> {
    let stream = Cursor::new(b"123456789012".to_vec());
    let mut c = AsyncTransportConfiguration::new(FiveBytesResponseHandler);
    c.set_buf_size(1);
    c.set_max_parse_response_bytes_count(99);

    let (out, stream) = call(stream, "dynamic", c.clone());
    let out = out.map_err(|err| err.to_string()).expect("");
    assert_eq!(out, b"8901".to_vec());

    assert_eq!(stream.get_ref(), &b"dynamic89012");
    assert_eq!(stream.reads, 5);

    Ok(())
}

#[test]
fn call_with_dynamic_res_and_less_max_buf_size() -> io::Result<()> {
    let stream = Cursor::new(b"123456789012".to_vec());
    let mut c = AsyncTransportConfiguration::new(FiveBytesResponseHandler);
    c.set_buf_size(1);
    c.set_max_buf_size(3);

    let (out, stream) = call(stream, "dynamic", c.clone());
    match out {
        Ok(_) => assert!(false),
        Err(err) => {
            assert!(err.to_string() == "Reach max buffer size");
        }
    }

    assert_eq!(stream.get_ref(), &b"dynamic89012");

    Ok(())
}

#[test]
fn call_with_dynamic_res_and_too_many_read() -> io::Result<()> {
    #[derive(Clone)]
    pub struct FooResponseHandler;

    impl ResponseHandler for FooResponseHandler {
        fn try_make_static_response_bytes(
            &mut self,
            request_bytes: &[u8],
        ) -> io::Result<Option<Vec<u8>>> {
            Ok(if request_bytes == b"dynamic" {
                None
            } else {
                unreachable!()
            })
        }

        fn parse_response_bytes(&mut self, response_bytes: &[u8]) -> io::Result<Option<usize>> {
            if response_bytes == b"" {
                Ok(None)
            } else {
                unreachable!()
            }
        }
    }

    let stream = Cursor::new(b"".to_vec());
    let c = AsyncTransportConfiguration::new(FooResponseHandler);

    let (out, stream) = call(stream, "dynamic", c.clone());
    match out {
        Ok(_) => assert!(false),
        Err(err) => {
            assert!(err.to_string() == "Reach max parse response bytes count");
        }
    }

    assert_eq!(stream.get_ref(), &b"dynamic");
    assert_eq!(stream.reads, 4);

    Ok(())
}

#[test]
fn call_through_a_service_handler() {
    let reply: Vec<u8> = {
        let mut bytes = vec![0x80u8, 0x01, 0x00, 0x01, 0, 0, 0, 9];
        bytes.extend_from_slice(b"listParts");
        bytes.extend_from_slice(&[0, 0, 0, 1]);
        bytes
    };
    let mut on_the_wire = b"???".to_vec();
    on_the_wire.extend_from_slice(&reply);
    on_the_wire.extend_from_slice(b"rest");

    let handler = Bound::new(MetaTransportResponseHandler, b"MetaService", b"MetaService.listParts");
    let mut c = AsyncTransportConfiguration::new(handler);
    c.set_buf_size(4);
    c.set_max_buf_size(64);
    c.set_max_parse_response_bytes_count(10);
    let (out, stream) = call(Cursor::new(on_the_wire.clone()), "ask", c.clone());
    assert_eq!(out.map_err(|err| err.to_string()).unwrap(), reply);
    assert_eq!(stream.reads, 6);

    let other =
        c.with_response_handler(c.response_handler().bind(b"MetaService", b"MetaService.foo"));
    let (out, stream) = call(Cursor::new(on_the_wire), "ask", other);
    match out {
        Err(err @ TransportError::ParseStructuralError(_)) => {
            assert_eq!(err.to_string(), "Unknown method MetaService.foo")
        }
        _ => panic!(),
    }
    assert_eq!(stream.reads, 0);
}

/// A peer that sends back whatever it is sent.
pub struct Echo {
    pending: Vec<u8>,
}

impl Stream for Echo {
    fn write_all(&mut self, bytes: &[u8]) -> io::Result<()> {
        self.pending.extend_from_slice(bytes);
        Ok(())
    }

    fn read_with_timeout(&mut self, max_len: usize, _timeout: Duration) -> io::Result<Vec<u8>> {
        let n = usize::min(max_len, self.pending.len());
        Ok(self.pending.drain(..n).collect())
    }
}

#[test]
fn transport_tokio_io_simple() -> io::Result<()> {
    let stream = Echo { pending: Vec::new() };

    let mut transport = AsyncTransport::with_default_configuration(stream);

    for n in 0..10_usize {
        let out = transport
            .call(b"abcde".to_vec())
            .map_err(|err| io::Error::new(io::ErrorKind::Other, err.to_string()))?;

        println!("transport.call {} {:?}", n, out);
        assert_eq!(out, b"abcde".to_vec());
    }

    Ok(())
}

#[test]
fn transport_futures_io_simple() -> io::Result<()> {
    let stream = Echo { pending: Vec::new() };

    let mut transport = AsyncTransport::with_default_configuration(stream);

    for n in 0..10_usize {
        let out = transport
            .call(b"abcde".to_vec())
            .map_err(|err| io::Error::new(io::ErrorKind::Other, err.to_string()))?;

        println!("transport.call {} {:?}", n, out);
        assert_eq!(out, b"abcde".to_vec());
    }

    assert!(transport.into_inner().pending.is_empty());

    Ok(())
}
