//! Limits that bound one call: how much to read at once, how much to keep, how long
//! to wait, and how many rounds without progress are tolerated.

use crate::response_handler::DefaultResponseHandler;
use crate::response_handler::ResponseHandler;
use std::time::Duration;
use vstd::prelude::*;

verus! {

/// The duration that `Duration::from_millis` makes of a number of milliseconds.
pub uninterp spec fn duration_of_millis(millis: u64) -> Duration;

/// Calls `Duration::from_millis`.
#[verifier::external_body]
pub(crate) fn duration_from_millis(millis: u64) -> (duration: Duration)
    ensures
        duration == duration_of_millis(millis),
{
    Duration::from_millis(millis)
}

/// The numbers of a configuration, as contracts speak of them.
pub struct Limits {
    /// Largest number of bytes asked of the stream in one read.
    pub buf_size: nat,
    /// Largest number of bytes a call may hold while no response is complete.
    pub max_buf_size: nat,
    /// Bound on a single read, in milliseconds.
    pub read_timeout_millis: nat,
    /// Number of rounds without a complete response that a call tolerates.
    pub max_parse_attempts: nat,
}

impl Limits {
    /// What every configuration satisfies.
    pub open spec fn valid(self) -> bool {
        &&& self.buf_size <= self.max_buf_size
        &&& self.buf_size <= usize::MAX
        &&& self.max_buf_size <= usize::MAX
        &&& 0 < self.read_timeout_millis <= u64::MAX
        &&& 0 < self.max_parse_attempts <= u8::MAX
    }

    /// The limits of a configuration that nobody has changed.
    pub open spec fn initial() -> Limits {
        Limits {
            buf_size: 1024,
            max_buf_size: 4096,
            read_timeout_millis: 5000,
            max_parse_attempts: 3,
        }
    }
}

/// The numbers of a configuration, kept within their invariant.
#[derive(Clone, Copy)]
pub(crate) struct Bounds {
    buf_size: usize,
    max_buf_size: usize,
    read_timeout_millis: u64,
    max_parse_response_bytes_count: u8,
}

impl Bounds {
    #[verifier::type_invariant]
    spec fn well_formed(self) -> bool {
        &&& self.buf_size <= self.max_buf_size
        &&& self.read_timeout_millis > 0
        &&& self.max_parse_response_bytes_count > 0
    }

    pub closed spec fn limits(self) -> Limits {
        Limits {
            buf_size: self.buf_size as nat,
            max_buf_size: self.max_buf_size as nat,
            read_timeout_millis: self.read_timeout_millis as nat,
            max_parse_attempts: self.max_parse_response_bytes_count as nat,
        }
    }

    fn initial() -> (bounds: Self)
        ensures
            bounds.limits() == Limits::initial(),
    {
        Bounds {
            buf_size: 1024,
            max_buf_size: 4096,
            read_timeout_millis: 5000,
            max_parse_response_bytes_count: 3,
        }
    }

    pub(crate) fn buf_size(&self) -> (size: usize)
        ensures
            size == self.limits().buf_size,
            self.limits().valid(),
    {
        proof {
            use_type_invariant(self);
        }
        self.buf_size
    }

    pub(crate) fn max_buf_size(&self) -> (size: usize)
        ensures
            size == self.limits().max_buf_size,
            self.limits().valid(),
    {
        proof {
            use_type_invariant(self);
        }
        self.max_buf_size
    }

    pub(crate) fn read_timeout_millis(&self) -> (millis: u64)
        ensures
            millis == self.limits().read_timeout_millis,
            self.limits().valid(),
    {
        proof {
            use_type_invariant(self);
        }
        self.read_timeout_millis
    }

    pub(crate) fn max_parse_attempts(&self) -> (count: u8)
        ensures
            count == self.limits().max_parse_attempts,
            self.limits().valid(),
    {
        proof {
            use_type_invariant(self);
        }
        self.max_parse_response_bytes_count
    }
}

/// Limits of a transport, together with the handler that recognises its responses.
pub struct AsyncTransportConfiguration<H: ResponseHandler> {
    bounds: Bounds,
    response_handler: H,
}

pub type DefaultAsyncTransportConfiguration = AsyncTransportConfiguration<DefaultResponseHandler>;

impl<H: ResponseHandler> AsyncTransportConfiguration<H> {
    /// The limits that this configuration holds.
    pub closed spec fn limits(self) -> Limits {
        self.bounds.limits()
    }

    /// The handler that this configuration holds.
    pub closed spec fn handler(self) -> H {
        self.response_handler
    }

    /// A configuration with the initial limits around `response_handler`.
    pub fn new(response_handler: H) -> (configuration: Self)
        ensures
            configuration.limits() == Limits::initial(),
            configuration.handler() == response_handler,
    {
        Self { bounds: Bounds::initial(), response_handler }
    }

    /// Sets the size of one read. It may not exceed the largest buffer size.
    pub fn set_buf_size(&mut self, size: usize)
        requires
            size <= old(self).limits().max_buf_size,
        ensures
            final(self).limits() == (Limits { buf_size: size as nat, ..old(self).limits() }),
            final(self).handler() == old(self).handler(),
    {
        let bounds = self.bounds;
        proof {
            use_type_invariant(&bounds);
        }
        self.bounds = Bounds { buf_size: size, ..bounds };
    }

    pub fn get_buf_size(&self) -> (size: usize)
        ensures
            size == self.limits().buf_size,
            self.limits().valid(),
    {
        self.bounds.buf_size()
    }

    /// Sets the largest buffer size. It may not fall below the size of one read.
    pub fn set_max_buf_size(&mut self, size: usize)
        requires
            size >= old(self).limits().buf_size,
        ensures
            final(self).limits() == (Limits { max_buf_size: size as nat, ..old(self).limits() }),
            final(self).handler() == old(self).handler(),
    {
        let bounds = self.bounds;
        proof {
            use_type_invariant(&bounds);
        }
        self.bounds = Bounds { max_buf_size: size, ..bounds };
    }

    pub fn get_max_buf_size(&self) -> (size: usize)
        ensures
            size == self.limits().max_buf_size,
            self.limits().valid(),
    {
        self.bounds.max_buf_size()
    }

    /// Sets the bound on a single read to `timeout_ms` milliseconds, which is positive.
    pub fn set_read_timeout(&mut self, timeout_ms: u32)
        requires
            timeout_ms > 0,
        ensures
            final(self).limits() == (Limits {
                read_timeout_millis: timeout_ms as nat,
                ..old(self).limits()
            }),
            final(self).handler() == old(self).handler(),
    {
        let bounds = self.bounds;
        proof {
            use_type_invariant(&bounds);
        }
        self.bounds = Bounds { read_timeout_millis: timeout_ms as u64, ..bounds };
    }

    /// The bound on a single read.
    pub fn get_read_timeout(&self) -> (timeout: Duration)
        ensures
            timeout == duration_of_millis(self.limits().read_timeout_millis as u64),
            self.limits().valid(),
    {
        duration_from_millis(self.bounds.read_timeout_millis())
    }

    /// Sets the number of rounds without a complete response that a call tolerates,
    /// which is positive.
    pub fn set_max_parse_response_bytes_count(&mut self, size: u8)
        requires
            size > 0,
        ensures
            final(self).limits() == (Limits {
                max_parse_attempts: size as nat,
                ..old(self).limits()
            }),
            final(self).handler() == old(self).handler(),
    {
        let bounds = self.bounds;
        proof {
            use_type_invariant(&bounds);
        }
        self.bounds = Bounds { max_parse_response_bytes_count: size, ..bounds };
    }

    pub fn get_max_parse_response_bytes_count(&self) -> (count: u8)
        ensures
            count == self.limits().max_parse_attempts,
            self.limits().valid(),
    {
        self.bounds.max_parse_attempts()
    }

    /// The handler that this configuration holds.
    pub fn response_handler(&self) -> (handler: &H)
        ensures
            *handler == self.handler(),
    {
        &self.response_handler
    }

    /// A configuration with the limits of this one around another handler.
    pub fn with_response_handler<G: ResponseHandler>(&self, response_handler: G) -> (configuration:
        AsyncTransportConfiguration<G>)
        ensures
            configuration.limits() == self.limits(),
            configuration.handler() == response_handler,
    {
        AsyncTransportConfiguration { bounds: self.bounds, response_handler }
    }

    /// The numbers and the handler, each on its own.
    pub(crate) fn into_parts(self) -> (parts: (Bounds, H))
        ensures
            parts.0.limits() == self.limits(),
            parts.1 == self.handler(),
    {
        (self.bounds, self.response_handler)
    }
}

impl<H: ResponseHandler> Clone for AsyncTransportConfiguration<H> {
    /// The clone has the same limits, around a clone of the handler.
    fn clone(&self) -> (copy: Self)
        ensures
            copy.limits() == self.limits(),
            cloned(self.handler(), copy.handler()),
    {
        Self { bounds: self.bounds, response_handler: self.response_handler.clone() }
    }
}

impl Default for DefaultAsyncTransportConfiguration {
    fn default() -> (configuration: Self)
        ensures
            configuration.limits() == Limits::initial(),
    {
        Self::new(DefaultResponseHandler)
    }
}

} // verus!
