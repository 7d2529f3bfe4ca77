//! One request/response exchange as a state machine that performs no I/O itself.
//!
//! Whoever owns the stream writes the request, reports that with [`Call::written`],
//! and from then on performs one read for every [`CallStep::Read`] and hands what
//! arrived to [`Call::received`], until a step says that the call is over.

use crate::configuration::AsyncTransportConfiguration;
use crate::configuration::Bounds;
use crate::configuration::Limits;
use crate::configuration::duration_of_millis;
use crate::configuration::duration_from_millis;
use crate::error::TransportError;
use crate::response_handler::ResponseHandler;
use crate::response_handler::fits;
use std::time::Duration;
use vstd::prelude::*;
use vstd::slice::slice_subrange;
use vstd::slice::slice_to_vec;

verus! {

/// Where a call stands.
#[derive(Clone, Copy, Debug, PartialEq, Eq, Structural)]
pub enum CallState {
    /// The request has not been written yet.
    Pending,
    /// The request is on the wire and the response is awaited.
    Written,
    /// The response was handed out.
    Complete,
    /// The call was abandoned.
    Failed,
}

/// What a handler said of a request: a fabricated response, none, or a rejection.
pub type StaticAnswer = Result<Option<Seq<u8>>, std::io::Error>;

/// What a handler said of the accumulated bytes: the length of the complete message
/// at their start, that more are needed, or a rejection.
pub type ParseAnswer = Result<Option<usize>, std::io::Error>;

/// What the owner of the stream does next, as contracts speak of it.
pub enum StepView {
    Read,
    Complete(Seq<u8>),
    Failed(TransportError),
}

/// What the owner of the stream does next.
#[derive(Debug)]
pub enum CallStep {
    /// Read once, at most as many bytes as the configured read size, within the read
    /// timeout, and report what arrived.
    Read,
    /// The call is over: this is the response.
    Complete(Vec<u8>),
    /// The call is over: it was abandoned for this reason.
    Failed(TransportError),
}

impl View for CallStep {
    type V = StepView;

    open spec fn view(&self) -> StepView {
        match self {
            CallStep::Read => StepView::Read,
            CallStep::Complete(bytes) => StepView::Complete(bytes@),
            CallStep::Failed(error) => StepView::Failed(*error),
        }
    }
}

/// A call as contracts speak of it.
pub struct CallView {
    pub state: CallState,
    /// The request, which never changes.
    pub request: Seq<u8>,
    pub limits: Limits,
    /// The response bytes accumulated so far.
    pub buffer: Seq<u8>,
    /// Rounds so far that brought no complete response: reads of nothing, and reads
    /// after which the handler asked for more.
    pub attempts: nat,
}

impl CallView {
    /// A call of which nothing has happened yet.
    pub open spec fn initial(request: Seq<u8>, limits: Limits) -> CallView {
        CallView { state: CallState::Pending, request, limits, buffer: Seq::empty(), attempts: 0 }
    }

    /// The call in another state, all else unchanged.
    pub open spec fn moved_to(self, state: CallState) -> CallView {
        CallView { state, ..self }
    }

    /// The call after one more round without a complete response, and what follows:
    /// abandoned once the rounds exceed the limit, another read until then.
    pub open spec fn after_attempt(self) -> (CallView, StepView) {
        let counted = CallView { attempts: self.attempts + 1, ..self };
        if counted.attempts > self.limits.max_parse_attempts {
            (
                counted.moved_to(CallState::Failed),
                StepView::Failed(TransportError::ExceededMaxParseAttempts),
            )
        } else {
            (counted, StepView::Read)
        }
    }

    /// The call once the handler has spoken of the request. A fabricated response ends
    /// it at once, with exactly those bytes and without a read.
    pub open spec fn after_static(self, answer: StaticAnswer) -> (CallView, StepView) {
        match answer {
            Ok(Some(bytes)) => (self.moved_to(CallState::Complete), StepView::Complete(bytes)),
            Ok(None) => (self, StepView::Read),
            Err(error) => (
                self.moved_to(CallState::Failed),
                StepView::Failed(TransportError::ParseStructuralError(error)),
            ),
        }
    }

    /// The call with `bytes` added to what it accumulated.
    pub open spec fn appended(self, bytes: Seq<u8>) -> CallView {
        CallView { buffer: self.buffer + bytes, ..self }
    }

    /// The call once the handler has spoken of the accumulated bytes. A length ends it
    /// with exactly that many bytes from the start. Where more bytes are needed, the
    /// size of the buffer is held against its limit first and the rounds are counted
    /// second.
    pub open spec fn after_parse(self, answer: ParseAnswer) -> (CallView, StepView) {
        match answer {
            Ok(Some(length)) => (
                self.moved_to(CallState::Complete),
                StepView::Complete(self.buffer.take(length as int)),
            ),
            Ok(None) => if self.buffer.len() > self.limits.max_buf_size {
                (
                    self.moved_to(CallState::Failed),
                    StepView::Failed(TransportError::ExceededMaxBufferSize),
                )
            } else {
                self.after_attempt()
            },
            Err(error) => (
                self.moved_to(CallState::Failed),
                StepView::Failed(TransportError::ParseStructuralError(error)),
            ),
        }
    }

    /// The call after one read that brought `bytes`, of which the handler, if it was
    /// asked, said `answer`. A read of nothing is a round without progress and the
    /// handler is not asked.
    pub open spec fn after_read(self, bytes: Seq<u8>, answer: ParseAnswer) -> (
        CallView,
        StepView,
    ) {
        if bytes.len() == 0 {
            self.after_attempt()
        } else {
            self.appended(bytes).after_parse(answer)
        }
    }
}

/// Can `answer` be what a handler says of `bytes`? A length lies within them.
pub open spec fn answer_fits(answer: ParseAnswer, bytes: Seq<u8>) -> bool {
    answer matches Ok(Some(length)) ==> fits(length, bytes.len())
}

/// What a handler said of a request, as contracts speak of it.
pub open spec fn static_answer_view(answer: Result<Option<Vec<u8>>, std::io::Error>)
    -> StaticAnswer {
    match answer {
        Ok(Some(bytes)) => Ok(Some(bytes@)),
        Ok(None) => Ok(None),
        Err(error) => Err(error),
    }
}

/// The part of a call that decides: its limits, its state and what it accumulated.
struct Progress {
    bounds: Bounds,
    state: CallState,
    buf_storage: Vec<u8>,
    parsed_response_bytes_count: u16,
}

impl Progress {
    #[verifier::type_invariant]
    spec fn well_formed(self) -> bool {
        &&& self.bounds.limits().valid()
        &&& self.parsed_response_bytes_count <= self.bounds.limits().max_parse_attempts + 1
        &&& self.state == CallState::Pending ==> self.buf_storage@.len() == 0
            && self.parsed_response_bytes_count == 0
        &&& (self.state == CallState::Pending || self.state == CallState::Written)
            ==> self.parsed_response_bytes_count <= self.bounds.limits().max_parse_attempts
        &&& self.state == CallState::Written ==> self.buf_storage@.len()
            <= self.bounds.limits().max_buf_size
    }

    closed spec fn view_with(self, request: Seq<u8>) -> CallView {
        CallView {
            state: self.state,
            request,
            limits: self.bounds.limits(),
            buffer: self.buf_storage@,
            attempts: self.parsed_response_bytes_count as nat,
        }
    }

    fn new(bounds: Bounds, Ghost(request): Ghost<Seq<u8>>) -> (progress: Self)
        ensures
            progress.view_with(request) == CallView::initial(request, bounds.limits()),
    {
        let max_buf_size = bounds.max_buf_size();
        let mut buf_storage: Vec<u8> = Vec::new();
        let _ = buf_storage.try_reserve(max_buf_size);
        Progress { bounds, state: CallState::Pending, buf_storage, parsed_response_bytes_count: 0 }
    }

    fn mark_written(&mut self, Ghost(request): Ghost<Seq<u8>>)
        requires
            old(self).view_with(request).state == CallState::Pending,
        ensures
            final(self).view_with(request) == old(self).view_with(request).moved_to(
                CallState::Written,
            ),
            final(self).view_with(request).buffer.len() == 0,
    {
        proof {
            use_type_invariant(&*self);
        }
        self.state = CallState::Written;
    }

    fn count_attempt(&mut self, Ghost(request): Ghost<Seq<u8>>) -> (step: CallStep)
        requires
            old(self).view_with(request).state == CallState::Written,
        ensures
            (final(self).view_with(request), step@) == old(self).view_with(
                request,
            ).after_attempt(),
    {
        proof {
            use_type_invariant(&*self);
        }
        let count: u16 = self.parsed_response_bytes_count + 1;
        if count > self.bounds.max_parse_attempts() as u16 {
            self.state = CallState::Failed;
            self.parsed_response_bytes_count = count;
            CallStep::Failed(TransportError::ExceededMaxParseAttempts)
        } else {
            self.parsed_response_bytes_count = count;
            CallStep::Read
        }
    }

    fn settle_static(
        &mut self,
        answer: Result<Option<Vec<u8>>, std::io::Error>,
        Ghost(request): Ghost<Seq<u8>>,
    ) -> (step: CallStep)
        requires
            old(self).view_with(request).state == CallState::Written,
        ensures
            (final(self).view_with(request), step@) == old(self).view_with(request).after_static(
                static_answer_view(answer),
            ),
    {
        proof {
            use_type_invariant(&*self);
        }
        match answer {
            Ok(Some(bytes)) => {
                self.state = CallState::Complete;
                CallStep::Complete(bytes)
            },
            Ok(None) => CallStep::Read,
            Err(error) => {
                self.state = CallState::Failed;
                CallStep::Failed(TransportError::ParseStructuralError(error))
            },
        }
    }

    fn fail(&mut self, Ghost(request): Ghost<Seq<u8>>)
        ensures
            final(self).view_with(request) == old(self).view_with(request).moved_to(
                CallState::Failed,
            ),
    {
        proof {
            use_type_invariant(&*self);
        }
        self.state = CallState::Failed;
    }

    /// Hands out what was accumulated, to have it back with what the next read brought.
    fn take_buffer(&mut self, Ghost(request): Ghost<Seq<u8>>) -> (storage: Vec<u8>)
        requires
            old(self).view_with(request).state == CallState::Written,
        ensures
            storage@ == old(self).view_with(request).buffer,
            storage@.len() <= old(self).view_with(request).limits.max_buf_size,
            old(self).view_with(request).attempts <= old(self).view_with(
                request,
            ).limits.max_parse_attempts,
            final(self).view_with(request) == (CallView {
                buffer: Seq::empty(),
                ..old(self).view_with(request)
            }),
    {
        proof {
            use_type_invariant(&*self);
        }
        let mut storage: Vec<u8> = Vec::new();
        std::mem::swap(&mut storage, &mut self.buf_storage);
        storage
    }

    /// Takes `storage` for what is accumulated and decides what follows from what the
    /// handler said of it.
    fn settle_parse(
        &mut self,
        storage: Vec<u8>,
        answer: Result<Option<usize>, std::io::Error>,
        Ghost(request): Ghost<Seq<u8>>,
    ) -> (step: CallStep)
        requires
            old(self).view_with(request).state == CallState::Written,
            answer_fits(answer, storage@),
        ensures
            (final(self).view_with(request), step@) == (CallView {
                buffer: storage@,
                ..old(self).view_with(request)
            }).after_parse(answer),
    {
        proof {
            use_type_invariant(&*self);
        }
        match answer {
            Ok(Some(length)) => {
                let bytes = slice_to_vec(slice_subrange(storage.as_slice(), 0, length));
                self.state = CallState::Complete;
                self.buf_storage = storage;
                CallStep::Complete(bytes)
            },
            Ok(None) => {
                if storage.len() > self.bounds.max_buf_size() {
                    self.state = CallState::Failed;
                    self.buf_storage = storage;
                    CallStep::Failed(TransportError::ExceededMaxBufferSize)
                } else {
                    self.buf_storage = storage;
                    self.count_attempt(Ghost(request))
                }
            },
            Err(error) => {
                self.state = CallState::Failed;
                self.buf_storage = storage;
                CallStep::Failed(TransportError::ParseStructuralError(error))
            },
        }
    }
}

/// One request/response exchange.
pub struct Call<H: ResponseHandler> {
    req: Vec<u8>,
    response_handler: H,
    progress: Progress,
}

impl<H: ResponseHandler> Call<H> {
    pub closed spec fn view(&self) -> CallView {
        self.progress.view_with(self.req@)
    }

    /// The handler that this call asks.
    pub closed spec fn handler(&self) -> H {
        self.response_handler
    }

    /// A call that is about to send `req` under the limits of `configuration`, with the
    /// handler of `configuration`. Nothing is accumulated and no round is counted,
    /// whatever other calls did before.
    pub fn new(req: Vec<u8>, configuration: AsyncTransportConfiguration<H>) -> (call: Self)
        ensures
            call@ == CallView::initial(req@, configuration.limits()),
            call.handler() == configuration.handler(),
    {
        let (bounds, response_handler) = configuration.into_parts();
        let progress = Progress::new(bounds, Ghost(req@));
        Self { req, response_handler, progress }
    }

    pub fn state(&self) -> (state: CallState)
        ensures
            state == self@.state,
    {
        self.progress.state
    }

    /// The bytes to write to the stream before anything is read.
    pub fn request_bytes(&self) -> (bytes: &[u8])
        ensures
            bytes@ == self@.request,
    {
        self.req.as_slice()
    }

    /// The largest number of bytes to ask of the stream in one read.
    pub fn read_size(&self) -> (size: usize)
        ensures
            size == self@.limits.buf_size,
            self@.limits.valid(),
    {
        self.progress.bounds.buf_size()
    }

    /// The bound on one read.
    pub fn read_timeout(&self) -> (timeout: Duration)
        ensures
            timeout == duration_of_millis(self@.limits.read_timeout_millis as u64),
    {
        duration_from_millis(self.progress.bounds.read_timeout_millis())
    }

    /// The response bytes accumulated so far.
    pub fn accumulated(&self) -> (bytes: &[u8])
        ensures
            bytes@ == self@.buffer,
            self@.state == CallState::Written ==> bytes@.len() <= self@.limits.max_buf_size,
            self@.state == CallState::Pending ==> bytes@.len() == 0,
    {
        proof {
            use_type_invariant(&self.progress);
        }
        self.progress.buf_storage.as_slice()
    }

    /// The rounds counted so far.
    pub fn attempts(&self) -> (count: u16)
        ensures
            count == self@.attempts,
    {
        self.progress.parsed_response_bytes_count
    }

    /// Decides what follows from what the handler said of the request. This happens
    /// once, after the write and before any read, while nothing is accumulated.
    pub fn settle_static(&mut self, answer: Result<Option<Vec<u8>>, std::io::Error>) -> (step:
        CallStep)
        requires
            old(self)@.state == CallState::Written,
            old(self)@.buffer.len() == 0,
        ensures
            (final(self)@, step@) == old(self)@.after_static(static_answer_view(answer)),
            final(self).handler() == old(self).handler(),
    {
        self.progress.settle_static(answer, Ghost(self.req@))
    }

    /// Decides what follows from what the handler said of the accumulated bytes.
    pub fn settle_parse(&mut self, answer: Result<Option<usize>, std::io::Error>) -> (step:
        CallStep)
        requires
            old(self)@.state == CallState::Written,
            answer_fits(answer, old(self)@.buffer),
        ensures
            (final(self)@, step@) == old(self)@.after_parse(answer),
            final(self).handler() == old(self).handler(),
    {
        let storage = self.progress.take_buffer(Ghost(self.req@));
        self.progress.settle_parse(storage, answer, Ghost(self.req@))
    }

    /// To be called when writing the request, or a read, has failed: the call is
    /// abandoned, and the stream's error is the reason.
    pub fn io_failed(&mut self, error: std::io::Error) -> (failure: TransportError)
        ensures
            final(self)@ == old(self)@.moved_to(CallState::Failed),
            final(self).handler() == old(self).handler(),
            failure == TransportError::IoError(error),
    {
        self.progress.fail(Ghost(self.req@));
        TransportError::IoError(error)
    }

    /// To be called when the whole request is on the wire. Asks the handler whether
    /// the response can be fabricated; if so the call completes with it and nothing is
    /// read. A rejection by the handler ends the call. The answer that decides, and what
    /// becomes of the handler, are what the contract of the handler's own method allows
    /// for the request.
    pub fn written(&mut self) -> (step: CallStep)
        requires
            old(self)@.state == CallState::Pending,
        ensures
            exists|answer: Result<Option<Vec<u8>>, std::io::Error>, handler: &mut H, bytes: &[u8]|
                mut_ref_current(handler) == old(self).handler() && mut_ref_future(handler)
                    == final(self).handler() && bytes@ == old(self)@.request
                    && #[trigger] call_ensures(
                    H::try_make_static_response_bytes,
                    (handler, bytes),
                    answer,
                ) && old(self)@.moved_to(CallState::Written).after_static(
                    static_answer_view(answer),
                ) == (final(self)@, step@),
            final(self)@.request == old(self)@.request,
            final(self)@.limits == old(self)@.limits,
            final(self)@.buffer.len() == 0,
            final(self)@.attempts == 0,
            step@ is Read ==> final(self)@.state == CallState::Written,
            step@ is Complete ==> final(self)@.state == CallState::Complete,
            step@ matches StepView::Failed(error) ==> final(self)@.state == CallState::Failed
                && error is ParseStructuralError,
    {
        proof {
            use_type_invariant(&self.progress);
        }
        self.progress.mark_written(Ghost(self.req@));
        let answer = self.response_handler.try_make_static_response_bytes(self.req.as_slice());
        let ghost before = self@;
        let step = self.progress.settle_static(answer, Ghost(self.req@));
        assert(before.after_static(static_answer_view(answer)) == (self@, step@));
        step
    }

    /// To be called with what one read brought. A read of nothing counts as a round
    /// without progress, and the handler is not asked. Anything else is added to the
    /// accumulated bytes, which the handler is then shown in full: the answer that
    /// decides, and what becomes of the handler, are what the contract of the handler's
    /// own method allows for those bytes.
    pub fn received(&mut self, chunk: &[u8]) -> (step: CallStep)
        requires
            old(self)@.state == CallState::Written,
        ensures
            chunk@.len() == 0 ==> (final(self)@, step@) == old(self)@.after_attempt(),
            chunk@.len() == 0 ==> final(self).handler() == old(self).handler(),
            chunk@.len() > 0 ==> exists|answer: ParseAnswer, handler: &mut H, bytes: &[u8]|
                mut_ref_current(handler) == old(self).handler() && mut_ref_future(handler)
                    == final(self).handler() && bytes@ == old(self)@.buffer + chunk@
                    && #[trigger] call_ensures(H::parse_response_bytes, (handler, bytes), answer)
                    && answer_fits(answer, old(self)@.buffer + chunk@) && old(self)@.after_read(
                    chunk@,
                    answer,
                ) == (final(self)@, step@),
            final(self)@.request == old(self)@.request,
            final(self)@.limits == old(self)@.limits,
            step@ is Read ==> {
                &&& final(self)@.state == CallState::Written
                &&& final(self)@.buffer == old(self)@.buffer + chunk@
                &&& final(self)@.attempts == old(self)@.attempts + 1
                &&& final(self)@.attempts <= old(self)@.limits.max_parse_attempts
                &&& final(self)@.buffer.len() <= old(self)@.limits.max_buf_size
            },
            step@ matches StepView::Complete(response) ==> {
                &&& final(self)@.state == CallState::Complete
                &&& response.len() <= old(self)@.buffer.len() + chunk@.len()
                &&& response == (old(self)@.buffer + chunk@).take(response.len() as int)
            },
            step@ matches StepView::Failed(error) ==> {
                &&& final(self)@.state == CallState::Failed
                &&& error is ExceededMaxBufferSize ==> old(self)@.buffer.len() + chunk@.len()
                    > old(self)@.limits.max_buf_size
                &&& error is ExceededMaxParseAttempts ==> old(self)@.attempts
                    == old(self)@.limits.max_parse_attempts
                &&& !(error is IoError)
            },
    {
        if chunk.len() == 0 {
            proof {
                use_type_invariant(&self.progress);
                assert(old(self)@.buffer + chunk@ =~= old(self)@.buffer);
            }
            return self.progress.count_attempt(Ghost(self.req@));
        }
        let mut storage = self.progress.take_buffer(Ghost(self.req@));
        storage.extend_from_slice(chunk);
        assert(storage@ =~= old(self)@.buffer + chunk@);
        let answer = self.response_handler.parse_response_bytes(storage.as_slice());
        let step = self.progress.settle_parse(storage, answer, Ghost(self.req@));
        assert(old(self)@.after_read(chunk@, answer) == (self@, step@));
        step
    }
}

} // verus!
