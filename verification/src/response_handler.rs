//! The capability a transport needs to find the end of a response in a byte stream
//! that carries no length prefix.

use vstd::prelude::*;

verus! {

/// Does `length` fit inside a buffer that holds `available` bytes?
pub open spec fn fits(length: usize, available: nat) -> bool {
    length <= available
}

/// Pluggable per-service logic that recognises a complete response and may answer a
/// request without any I/O.
pub trait ResponseHandler: Clone {
    /// Fabricates the complete response to `request_bytes` where the reply is known
    /// without a round trip. `Ok(None)` asks for real I/O.
    fn try_make_static_response_bytes(&mut self, request_bytes: &[u8]) -> (res: Result<
        Option<Vec<u8>>,
        std::io::Error,
    >);

    /// Looks for one complete message at the start of `response_bytes`. `Ok(Some(n))`
    /// gives its exact length, which never exceeds what was handed in; `Ok(None)` asks
    /// for more bytes.
    fn parse_response_bytes(&mut self, response_bytes: &[u8]) -> (res: Result<
        Option<usize>,
        std::io::Error,
    >)
        ensures
            res matches Ok(Some(n)) ==> fits(n, response_bytes@.len()),
    ;
}

/// Handler for streams in which every read delivers exactly one whole response.
#[derive(Clone)]
pub struct DefaultResponseHandler;

impl ResponseHandler for DefaultResponseHandler {
    fn try_make_static_response_bytes(&mut self, _request_bytes: &[u8]) -> (res: Result<
        Option<Vec<u8>>,
        std::io::Error,
    >)
        ensures
            res == Ok::<Option<Vec<u8>>, std::io::Error>(None),
    {
        Ok(None)
    }

    fn parse_response_bytes(&mut self, response_bytes: &[u8]) -> (res: Result<
        Option<usize>,
        std::io::Error,
    >)
        ensures
            res == Ok::<Option<usize>, std::io::Error>(Some(response_bytes@.len() as usize)),
    {
        Ok(Some(response_bytes.len()))
    }
}

/// Pluggable per-service logic for transports that tell the handler which service and
/// method a request belongs to.
pub trait MethodResponseHandler: Clone {
    /// Fabricates the complete response to `request_bytes`, a request for the method
    /// `fn_name` of the service `service_name`, where the reply is known without a
    /// round trip. `Ok(None)` asks for real I/O.
    fn try_make_static_response_bytes(
        &mut self,
        service_name: &[u8],
        fn_name: &[u8],
        request_bytes: &[u8],
    ) -> (res: Result<Option<Vec<u8>>, std::io::Error>);

    /// Looks for one complete message at the start of `response_bytes`. `Ok(Some(n))`
    /// gives its exact length, which never exceeds what was handed in; `Ok(None)` asks
    /// for more bytes.
    fn parse_response_bytes(&mut self, response_bytes: &[u8]) -> (res: Result<
        Option<usize>,
        std::io::Error,
    >)
        ensures
            res matches Ok(Some(n)) ==> fits(n, response_bytes@.len()),
    ;
}

/// A handler together with the service and the method of the call that it serves.
#[derive(Clone)]
pub struct Bound<H: MethodResponseHandler> {
    handler: H,
    service_name: Vec<u8>,
    fn_name: Vec<u8>,
}

impl<H: MethodResponseHandler> Bound<H> {
    /// The handler inside.
    pub closed spec fn handler(self) -> H {
        self.handler
    }

    /// The name of the service that the handler is bound to.
    pub closed spec fn service_name(self) -> Seq<u8> {
        self.service_name@
    }

    /// The name of the method that the handler is bound to.
    pub closed spec fn fn_name(self) -> Seq<u8> {
        self.fn_name@
    }

    /// Binds `handler` to a method of a service.
    pub fn new(handler: H, service_name: &[u8], fn_name: &[u8]) -> (bound: Self)
        ensures
            bound.handler() == handler,
            bound.service_name() == service_name@,
            bound.fn_name() == fn_name@,
    {
        Bound {
            handler,
            service_name: vstd::slice::slice_to_vec(service_name),
            fn_name: vstd::slice::slice_to_vec(fn_name),
        }
    }

    /// Binds a clone of the handler inside to another method.
    pub fn bind(&self, service_name: &[u8], fn_name: &[u8]) -> (bound: Self)
        ensures
            bound.service_name() == service_name@,
            bound.fn_name() == fn_name@,
            cloned(self.handler(), bound.handler()),
    {
        Bound::new(self.handler.clone(), service_name, fn_name)
    }
}

impl<H: MethodResponseHandler> ResponseHandler for Bound<H> {
    /// Asks the handler inside, for the method that it is bound to. The answer, and what
    /// becomes of the handler inside, are what the contract of the handler's own method
    /// allows for the request under the names that it is bound to; the names stay as
    /// they are.
    fn try_make_static_response_bytes(&mut self, request_bytes: &[u8]) -> (res: Result<
        Option<Vec<u8>>,
        std::io::Error,
    >)
        ensures
            final(self).service_name() == old(self).service_name(),
            final(self).fn_name() == old(self).fn_name(),
            exists|handler: &mut H, service: &[u8], method: &[u8]|
                mut_ref_current(handler) == old(self).handler() && mut_ref_future(handler)
                    == final(self).handler() && service@ == old(self).service_name()
                    && method@ == old(self).fn_name() && #[trigger] call_ensures(
                    H::try_make_static_response_bytes,
                    (handler, service, method, request_bytes),
                    res,
                ),
    {
        self.handler.try_make_static_response_bytes(
            self.service_name.as_slice(),
            self.fn_name.as_slice(),
            request_bytes,
        )
    }

    /// Asks the handler inside. The answer, and what becomes of the handler inside, are
    /// what the contract of the handler's own method allows for the same bytes; the
    /// names stay as they are.
    fn parse_response_bytes(&mut self, response_bytes: &[u8]) -> (res: Result<
        Option<usize>,
        std::io::Error,
    >)
        ensures
            final(self).service_name() == old(self).service_name(),
            final(self).fn_name() == old(self).fn_name(),
            exists|handler: &mut H|
                mut_ref_current(handler) == old(self).handler() && mut_ref_future(handler)
                    == final(self).handler() && #[trigger] call_ensures(
                    H::parse_response_bytes,
                    (handler, response_bytes),
                    res,
                ),
    {
        self.handler.parse_response_bytes(response_bytes)
    }
}

} // verus!
