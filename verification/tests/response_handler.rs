use std::io;

use nebula_transport::response_handler::{DefaultResponseHandler, ResponseHandler};

#[test]
fn with_default_response_handler() -> io::Result<()> {
    let mut h = DefaultResponseHandler;

    assert_eq!(h.try_make_static_response_bytes(&b""[..])?, None);

    assert_eq!(h.parse_response_bytes(&b"foo"[..])?, Some(3));

    Ok(())
}

#[derive(Clone)]
pub struct FooResponseHandler;

impl ResponseHandler for FooResponseHandler {
    fn try_make_static_response_bytes(
        &mut self,
        request_bytes: &[u8],
    ) -> io::Result<Option<Vec<u8>>> {
        Ok(if request_bytes == b"static" {
            Some(b"bar".to_vec())
        } else {
            None
        })
    }

    fn parse_response_bytes(&mut self, _response_bytes: &[u8]) -> io::Result<Option<usize>> {
        Ok(None)
    }
}

#[test]
fn handler_defined_outside_the_library() -> io::Result<()> {
    let mut h = FooResponseHandler;
    assert_eq!(h.try_make_static_response_bytes(b"static")?, Some(b"bar".to_vec()));
    assert_eq!(h.try_make_static_response_bytes(b"dynamic")?, None);
    assert_eq!(h.parse_response_bytes(b"abc")?, None);
    Ok(())
}
