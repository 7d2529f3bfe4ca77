//! The transport: one stream, one configuration, and a fresh state machine for every
//! call.

use crate::call::Call;
use crate::call::CallState;
use crate::call::CallStep;
use crate::call::CallView;
use crate::call::ParseAnswer;
use crate::call::StaticAnswer;
use crate::call::StepView;
use crate::call::answer_fits;
use crate::call::static_answer_view;
use crate::configuration::duration_of_millis;
use crate::configuration::AsyncTransportConfiguration;
use crate::configuration::DefaultAsyncTransportConfiguration;
use crate::configuration::Limits;
use crate::error::TransportError;
use crate::exchange::Round;
use crate::exchange::Run;
use crate::exchange::answers_fit;
use crate::exchange::bytes_of;
use crate::exchange::exchange;
use crate::exchange::round_fits;
use crate::response_handler::DefaultResponseHandler;
use crate::response_handler::ResponseHandler;
use std::time::Duration;
use vstd::prelude::*;

verus! {

/// A byte stream on which a call can be driven to its end in one go, each operation
/// returning when it is done.
pub trait Stream {
    /// Writes all of `bytes`.
    fn write_all(&mut self, bytes: &[u8]) -> Result<(), std::io::Error>;

    /// Reads once, for at most `timeout`, and hands back what arrived: at most
    /// `max_len` bytes, none where the stream has nothing to give.
    fn read_with_timeout(&mut self, max_len: usize, timeout: Duration) -> (res: Result<
        Vec<u8>,
        std::io::Error,
    >)
        ensures
            res matches Ok(bytes) ==> bytes@.len() <= max_len,
    ;
}

/// How a call ended, as a step.
pub open spec fn outcome_step(outcome: Result<Vec<u8>, TransportError>) -> StepView {
    match outcome {
        Ok(response) => StepView::Complete(response@),
        Err(error) => StepView::Failed(error),
    }
}

/// Did `run` end with `outcome`, after exactly `reads` reads?
pub open spec fn ended_as(run: Run, outcome: Result<Vec<u8>, TransportError>, reads: nat)
    -> bool {
    run.step == outcome_step(outcome) && run.reads == reads
}

/// Owns the stream and the configuration that every call on it starts from.
///
/// On a stream whose operations return when they are done, [`AsyncTransport::call`]
/// performs a whole exchange. A driver that suspends instead takes a fresh state
/// machine from [`AsyncTransport::begin`] and runs its steps itself.
pub struct AsyncTransport<S, H: ResponseHandler> {
    stream: S,
    configuration: AsyncTransportConfiguration<H>,
}

impl<S, H: ResponseHandler> AsyncTransport<S, H> {
    /// The limits under which every call of this transport runs.
    pub closed spec fn limits(self) -> Limits {
        self.configuration.limits()
    }

    /// The handler of which every call of this transport asks a clone.
    pub closed spec fn handler(self) -> H {
        self.configuration.handler()
    }

    /// The stream of this transport.
    pub closed spec fn stream(self) -> S {
        self.stream
    }

    pub fn new(stream: S, configuration: AsyncTransportConfiguration<H>) -> (transport: Self)
        ensures
            transport.limits() == configuration.limits(),
            transport.handler() == configuration.handler(),
            transport.stream() == stream,
    {
        Self { stream, configuration }
    }

    /// A fresh call for `req`, with a configuration of its own: the limits of this
    /// transport and a clone of its handler.
    pub fn begin(&self, req: Vec<u8>) -> (call: Call<H>)
        ensures
            call@ == CallView::initial(req@, self.limits()),
            cloned(self.handler(), call.handler()),
    {
        Call::new(req, self.configuration.clone())
    }

    /// Gives the stream back.
    pub fn into_inner(self) -> (stream: S)
        ensures
            stream == self.stream(),
    {
        self.stream
    }
}

impl<S> AsyncTransport<S, DefaultResponseHandler> {
    pub fn with_default_configuration(stream: S) -> (transport: Self)
        ensures
            transport.limits() == Limits::initial(),
            transport.handler() == DefaultResponseHandler,
            transport.stream() == stream,
    {
        Self { stream, configuration: DefaultAsyncTransportConfiguration::default() }
    }
}

/// One more read after reads that all asked for another.
proof fn lemma_one_more_round(call: CallView, rounds: Seq<Round>, round: Round)
    requires
        call.after_rounds(rounds).step is Read,
        call.after_rounds(rounds).reads == rounds.len(),
    ensures
        ({
            let before = call.after_rounds(rounds).call;
            let (next, step) = before.after_read(round.bytes, round.answer);
            call.after_rounds(rounds.push(round)) == Run {
                call: next,
                step,
                reads: rounds.len() + 1,
            }
        }),
    decreases rounds.len(),
{
    let longer = rounds.push(round);
    if rounds.len() == 0 {
        assert(longer.drop_first() =~= Seq::<Round>::empty());
        let (next, step) = call.after_read(round.bytes, round.answer);
        if step is Read {
            assert(next.after_rounds(longer.drop_first()).reads == 0);
        }
    } else {
        let (next, step) = call.after_read(rounds[0].bytes, rounds[0].answer);
        assert(longer[0] == rounds[0]);
        assert(longer.drop_first() =~= rounds.drop_first().push(round));
        assert(step is Read);
        lemma_one_more_round(next, rounds.drop_first(), round);
    }
}

impl<S: Stream, H: ResponseHandler> AsyncTransport<S, H> {
    /// Performs one exchange on the stream: writes `req`, then reads until the handler
    /// finds a complete response or a limit is passed. The stream is this call's alone
    /// until it returns, and the transport keeps its limits and its handler.
    ///
    /// Unless the stream itself fails, the call ends as the exchange does that is made
    /// of what the handler said and what the reads brought. The handler that is asked
    /// is a clone of the transport's; it is asked of the request first and then, after
    /// every read that brought bytes, of all the bytes read so far, and each answer is
    /// what the contract of its own method allows. The stream is written the request
    /// once and then read from, at most as many bytes at a time as the limits say,
    /// and what each read brought is what the contract of its own method allows.
    pub fn call(&mut self, req: Vec<u8>) -> (outcome: Result<Vec<u8>, TransportError>)
        ensures
            final(self).limits() == old(self).limits(),
            final(self).handler() == old(self).handler(),
            outcome matches Err(TransportError::IoError(error)) ==> (exists|
                stream: &mut S,
                bytes: &[u8],
                wrote: Result<(), std::io::Error>,
            |
                wrote == Err::<(), std::io::Error>(error) && bytes@ == req@ && #[trigger] call_ensures(
                    S::write_all,
                    (stream, bytes),
                    wrote,
                )) || (exists|
                stream: &mut S,
                size: usize,
                timeout: Duration,
                brought: Result<Vec<u8>, std::io::Error>,
            |
                brought == Err::<Vec<u8>, std::io::Error>(error) && size == old(
                    self,
                ).limits().buf_size && #[trigger] call_ensures(
                    S::read_with_timeout,
                    (stream, size, timeout),
                    brought,
                )),
            outcome matches Err(TransportError::IoError(_)) || exists|
                answer: Result<Option<Vec<u8>>, std::io::Error>,
                rounds: Seq<Round>,
                handlers: Seq<H>,
                streams: Seq<S>,
            |
                #![trigger
                    ended_as(
                        exchange(old(self).limits(), req@, static_answer_view(answer), rounds),
                        outcome,
                        rounds.len(),
                    ),
                    handlers.len(),
                    streams.len(),
                ]
                {
                    &&& handlers.len() == rounds.len() + 2
                    &&& streams.len() == rounds.len() + 2
                    &&& cloned(old(self).handler(), handlers[0])
                    &&& streams[0] == old(self).stream()
                    &&& streams.last() == final(self).stream()
                    &&& exists|stream: &mut S, bytes: &[u8], wrote: Result<(), std::io::Error>|
                        mut_ref_current(stream) == streams[0] && mut_ref_future(stream)
                            == streams[1] && bytes@ == req@ && wrote is Ok
                            && #[trigger] call_ensures(S::write_all, (stream, bytes), wrote)
                    &&& exists|handler: &mut H, bytes: &[u8]|
                        mut_ref_current(handler) == handlers[0] && mut_ref_future(handler)
                            == handlers[1] && bytes@ == req@ && #[trigger] call_ensures(
                            H::try_make_static_response_bytes,
                            (handler, bytes),
                            answer,
                        )
                    &&& forall|i: int|
                        0 <= i < rounds.len() ==> exists|stream: &mut S, brought: Vec<u8>|
                            mut_ref_current(stream) == streams[i + 1] && mut_ref_future(stream)
                                == streams[i + 2] && brought@ == (#[trigger] rounds[i]).bytes
                                && call_ensures(
                                S::read_with_timeout,
                                (
                                    stream,
                                    #[verifier::truncate] (old(self).limits().buf_size as usize),
                                    duration_of_millis(
                                        #[verifier::truncate] (old(self).limits().read_timeout_millis as u64),
                                    ),
                                ),
                                Ok::<Vec<u8>, std::io::Error>(brought),
                            )
                    &&& forall|i: int|
                        0 <= i < rounds.len() ==> if (#[trigger] rounds[i]).bytes.len() == 0 {
                            handlers[i + 2] == handlers[i + 1]
                        } else {
                            exists|handler: &mut H, bytes: &[u8]|
                                mut_ref_current(handler) == handlers[i + 1] && mut_ref_future(
                                    handler,
                                ) == handlers[i + 2] && bytes@ == bytes_of(
                                    rounds,
                                    (i + 1) as nat,
                                ) && call_ensures(
                                    H::parse_response_bytes,
                                    (handler, bytes),
                                    rounds[i].answer,
                                )
                        }
                    &&& answers_fit(Seq::empty(), rounds)
                    &&& ended_as(
                        exchange(old(self).limits(), req@, static_answer_view(answer), rounds),
                        outcome,
                        rounds.len(),
                    )
                },
    {
        let ghost limits = self.limits();
        let ghost request = req@;
        let ghost stream_before = self.stream;
        let mut call = self.begin(req);
        let ghost handler_before = call.handler();
        let wrote = self.stream.write_all(call.request_bytes());
        let ghost stream_written = self.stream;
        assert(exists|stream: &mut S, bytes: &[u8]|
            bytes@ == request && #[trigger] call_ensures(S::write_all, (stream, bytes), wrote));
        match wrote {
            Ok(()) => {},
            Err(error) => {
                return Err(call.io_failed(error));
            },
        }
        assert(exists|stream: &mut S, bytes: &[u8], wrote: Result<(), std::io::Error>|
            mut_ref_current(stream) == stream_before && mut_ref_future(stream) == stream_written
                && bytes@ == request && wrote is Ok && #[trigger] call_ensures(
                S::write_all,
                (stream, bytes),
                wrote,
            ));
        let ghost written = call@.moved_to(CallState::Written);
        let first = call.written();
        let ghost asked = choose|
            answer: Result<Option<Vec<u8>>, std::io::Error>,
            handler: &mut H,
            bytes: &[u8],
        |
            mut_ref_current(handler) == handler_before && mut_ref_future(handler)
                == call.handler() && bytes@ == request && #[trigger] call_ensures(
                H::try_make_static_response_bytes,
                (handler, bytes),
                answer,
            ) && written.after_static(static_answer_view(answer)) == (call@, first@);
        let ghost answer = asked.0;
        let ghost start = call@;
        let ghost mut rounds: Seq<Round> = Seq::empty();
        let ghost mut handlers: Seq<H> = seq![handler_before, call.handler()];
        let ghost mut streams: Seq<S> = seq![stream_before, self.stream];
        match first {
            CallStep::Complete(response) => {
                proof {
                    assert(handlers.len() == rounds.len() + 2);
                    assert(streams.len() == rounds.len() + 2);
                    assert(cloned(old(self).handler(), handlers[0]));
                    assert(streams[0] == old(self).stream());
                    assert(streams.last() == self.stream());
                    assert(exists|stream: &mut S, bytes: &[u8], wrote: Result<(), std::io::Error>|
                        mut_ref_current(stream) == streams[0] && mut_ref_future(stream) == streams[1]
                            && bytes@ == req@ && wrote is Ok && #[trigger] call_ensures(
                            S::write_all,
                            (stream, bytes),
                            wrote,
                        ));
                    assert(exists|handler: &mut H, bytes: &[u8]|
                        mut_ref_current(handler) == handlers[0] && mut_ref_future(handler) == handlers[1]
                            && bytes@ == req@ && #[trigger] call_ensures(
                            H::try_make_static_response_bytes,
                            (handler, bytes),
                            answer,
                        ));
                    assert(answers_fit(Seq::empty(), rounds));
                    assert(ended_as(
                        exchange(old(self).limits(), req@, static_answer_view(answer), rounds),
                        Ok(response),
                        rounds.len(),
                    ));
                }

                return Ok(response);
            },
            CallStep::Failed(error) => {
                proof {
                    assert(handlers.len() == rounds.len() + 2);
                    assert(streams.len() == rounds.len() + 2);
                    assert(cloned(old(self).handler(), handlers[0]));
                    assert(streams[0] == old(self).stream());
                    assert(streams.last() == self.stream());
                    assert(exists|stream: &mut S, bytes: &[u8], wrote: Result<(), std::io::Error>|
                        mut_ref_current(stream) == streams[0] && mut_ref_future(stream) == streams[1]
                            && bytes@ == req@ && wrote is Ok && #[trigger] call_ensures(
                            S::write_all,
                            (stream, bytes),
                            wrote,
                        ));
                    assert(exists|handler: &mut H, bytes: &[u8]|
                        mut_ref_current(handler) == handlers[0] && mut_ref_future(handler) == handlers[1]
                            && bytes@ == req@ && #[trigger] call_ensures(
                            H::try_make_static_response_bytes,
                            (handler, bytes),
                            answer,
                        ));
                    assert(answers_fit(Seq::empty(), rounds));
                    assert(ended_as(
                        exchange(old(self).limits(), req@, static_answer_view(answer), rounds),
                        Err(error),
                        rounds.len(),
                    ));
                }

                return Err(error);
            },
            CallStep::Read => {},
        }
        assert(bytes_of(rounds, 0) =~= start.buffer);
        loop
            invariant
                self.limits() == limits,
                self.handler() == old(self).handler(),
                limits == old(self).limits(),
                request == req@,
                limits == start.limits,
                start == written,
                written == CallView::initial(request, limits).moved_to(CallState::Written),
                written.after_static(static_answer_view(answer)) == (start, StepView::Read),
                call@.state == CallState::Written,
                call@.limits == limits,
                call@.attempts <= limits.max_parse_attempts,
                answers_fit(Seq::empty(), rounds),
                call@.buffer == bytes_of(rounds, rounds.len()),
                start.after_rounds(rounds) == (Run {
                    call: call@,
                    step: StepView::Read,
                    reads: rounds.len(),
                }),
                handlers.len() == rounds.len() + 2,
                streams.len() == rounds.len() + 2,
                cloned(old(self).handler(), handlers[0]),
                streams[0] == old(self).stream(),
                streams.last() == self.stream(),
                handlers.last() == call.handler(),
                exists|stream: &mut S, bytes: &[u8], wrote: Result<(), std::io::Error>|
                    mut_ref_current(stream) == streams[0] && mut_ref_future(stream) == streams[1]
                        && bytes@ == req@ && wrote is Ok && #[trigger] call_ensures(
                        S::write_all,
                        (stream, bytes),
                        wrote,
                    ),
                exists|handler: &mut H, bytes: &[u8]|
                    mut_ref_current(handler) == handlers[0] && mut_ref_future(handler)
                        == handlers[1] && bytes@ == req@ && #[trigger] call_ensures(
                        H::try_make_static_response_bytes,
                        (handler, bytes),
                        answer,
                    ),
                forall|i: int|
                    0 <= i < rounds.len() ==> exists|stream: &mut S, brought: Vec<u8>|
                        mut_ref_current(stream) == streams[i + 1] && mut_ref_future(stream)
                            == streams[i + 2] && brought@ == (#[trigger] rounds[i]).bytes
                            && call_ensures(
                            S::read_with_timeout,
                            (
                                stream,
                                #[verifier::truncate] (limits.buf_size as usize),
                                duration_of_millis(
                                    #[verifier::truncate] (limits.read_timeout_millis as u64),
                                ),
                            ),
                            Ok::<Vec<u8>, std::io::Error>(brought),
                        ),
                forall|i: int|
                    0 <= i < rounds.len() ==> if (#[trigger] rounds[i]).bytes.len() == 0 {
                        handlers[i + 2] == handlers[i + 1]
                    } else {
                        exists|handler: &mut H, bytes: &[u8]|
                            mut_ref_current(handler) == handlers[i + 1] && mut_ref_future(handler)
                                == handlers[i + 2] && bytes@ == bytes_of(rounds, (i + 1) as nat)
                                && call_ensures(
                                H::parse_response_bytes,
                                (handler, bytes),
                                rounds[i].answer,
                            )
                    },
            decreases limits.max_parse_attempts - call@.attempts,
        {
            let ghost stream_then = self.stream;
            let ghost handler_then = call.handler();
            let size = call.read_size();
            let timeout = call.read_timeout();
            let brought = self.stream.read_with_timeout(size, timeout);
            assert(exists|stream: &mut S| #[trigger]
                call_ensures(S::read_with_timeout, (stream, size, timeout), brought));
            let chunk = match brought {
                Ok(chunk) => chunk,
                Err(error) => {
                    return Err(call.io_failed(error));
                },
            };
            let ghost before = call@;
            let step = call.received(chunk.as_slice());
            let ghost said: ParseAnswer = if chunk@.len() == 0 {
                Ok(None)
            } else {
                choose|said: ParseAnswer|
                    answer_fits(said, before.buffer + chunk@) && #[trigger] before.after_read(
                        chunk@,
                        said,
                    ) == (call@, step@)
            };
            let ghost round = Round { bytes: chunk@, answer: said };
            proof {
                assert(before.after_read(chunk@, said) == (call@, step@));
                if chunk@.len() > 0 {
                    assert forall|other: ParseAnswer|
                        answer_fits(other, before.buffer + chunk@) && #[trigger] before.after_read(
                            chunk@,
                            other,
                        ) == (call@, step@) implies other == said by {
                        lemma_answer_is_told_by_step(before.appended(chunk@), other, said);
                    }
                }
                lemma_one_more_round(start, rounds, round);
                let longer = rounds.push(round);
                let more_handlers = handlers.push(call.handler());
                let more_streams = streams.push(self.stream);
                assert(bytes_of(longer, longer.len()) == bytes_of(
                    longer,
                    (longer.len() - 1) as nat,
                ) + longer[longer.len() - 1].bytes);
                lemma_bytes_of_prefix(rounds, round, rounds.len());
                assert forall|i: int| 0 <= i < longer.len() implies #[trigger] round_fits(
                    Seq::empty(),
                    longer,
                    i,
                ) by {
                    lemma_bytes_of_prefix(rounds, round, (i + 1) as nat);
                    if i < rounds.len() {
                        assert(round_fits(Seq::empty(), rounds, i));
                        assert(longer[i] == rounds[i]);
                    } else {
                        assert(Seq::<u8>::empty() + bytes_of(longer, (i + 1) as nat)
                            =~= before.buffer + chunk@);
                    }
                }
                assert forall|i: int| 0 <= i < longer.len() implies exists|
                    stream: &mut S,
                    brought: Vec<u8>,
                |
                    mut_ref_current(stream) == more_streams[i + 1] && mut_ref_future(stream)
                        == more_streams[i + 2] && brought@ == (#[trigger] longer[i]).bytes
                        && call_ensures(
                        S::read_with_timeout,
                        (
                            stream,
                            #[verifier::truncate] (limits.buf_size as usize),
                            duration_of_millis(
                                    #[verifier::truncate] (limits.read_timeout_millis as u64),
                                ),
                        ),
                        Ok::<Vec<u8>, std::io::Error>(brought),
                    ) by {
                    if i < rounds.len() {
                        assert(longer[i] == rounds[i]);
                        assert(more_streams[i + 1] == streams[i + 1]);
                        assert(more_streams[i + 2] == streams[i + 2]);
                    } else {
                        assert(more_streams[i + 1] == stream_then);
                        assert(more_streams[i + 2] == self.stream);
                        assert(longer[i].bytes == chunk@);
                    }
                }
                assert forall|i: int| 0 <= i < longer.len() implies if (#[trigger] longer[i]).bytes.len()
                    == 0 {
                    more_handlers[i + 2] == more_handlers[i + 1]
                } else {
                    exists|handler: &mut H, bytes: &[u8]|
                        mut_ref_current(handler) == more_handlers[i + 1] && mut_ref_future(handler)
                            == more_handlers[i + 2] && bytes@ == bytes_of(longer, (i + 1) as nat)
                            && call_ensures(
                            H::parse_response_bytes,
                            (handler, bytes),
                            longer[i].answer,
                        )
                } by {
                    lemma_bytes_of_prefix(rounds, round, (i + 1) as nat);
                    if i < rounds.len() {
                        assert(longer[i] == rounds[i]);
                        assert(more_handlers[i + 1] == handlers[i + 1]);
                        assert(more_handlers[i + 2] == handlers[i + 2]);
                    } else {
                        assert(more_handlers[i + 1] == handler_then);
                        assert(more_handlers[i + 2] == call.handler());
                        assert(bytes_of(longer, (i + 1) as nat) =~= before.buffer + chunk@);
                    }
                }
                assert(more_handlers[0] == handlers[0]);
                assert(more_handlers[1] == handlers[1]);
                assert(more_streams[0] == streams[0]);
                assert(more_streams[1] == streams[1]);
                rounds = longer;
                handlers = more_handlers;
                streams = more_streams;
            }
            match step {
                CallStep::Complete(response) => {
                    proof {
                        assert(handlers.len() == rounds.len() + 2);
                        assert(streams.len() == rounds.len() + 2);
                        assert(cloned(old(self).handler(), handlers[0]));
                        assert(streams[0] == old(self).stream());
                        assert(streams.last() == self.stream());
                        assert(exists|stream: &mut S, bytes: &[u8], wrote: Result<(), std::io::Error>|
                            mut_ref_current(stream) == streams[0] && mut_ref_future(stream) == streams[1]
                                && bytes@ == req@ && wrote is Ok && #[trigger] call_ensures(
                                S::write_all,
                                (stream, bytes),
                                wrote,
                            ));
                        assert(exists|handler: &mut H, bytes: &[u8]|
                            mut_ref_current(handler) == handlers[0] && mut_ref_future(handler) == handlers[1]
                                && bytes@ == req@ && #[trigger] call_ensures(
                                H::try_make_static_response_bytes,
                                (handler, bytes),
                                answer,
                            ));
                        assert(answers_fit(Seq::empty(), rounds));
                        assert(ended_as(
                            exchange(old(self).limits(), req@, static_answer_view(answer), rounds),
                            Ok(response),
                            rounds.len(),
                        ));
                    }

                    return Ok(response);
                },
                CallStep::Failed(error) => {
                    proof {
                        assert(handlers.len() == rounds.len() + 2);
                        assert(streams.len() == rounds.len() + 2);
                        assert(cloned(old(self).handler(), handlers[0]));
                        assert(streams[0] == old(self).stream());
                        assert(streams.last() == self.stream());
                        assert(exists|stream: &mut S, bytes: &[u8], wrote: Result<(), std::io::Error>|
                            mut_ref_current(stream) == streams[0] && mut_ref_future(stream) == streams[1]
                                && bytes@ == req@ && wrote is Ok && #[trigger] call_ensures(
                                S::write_all,
                                (stream, bytes),
                                wrote,
                            ));
                        assert(exists|handler: &mut H, bytes: &[u8]|
                            mut_ref_current(handler) == handlers[0] && mut_ref_future(handler) == handlers[1]
                                && bytes@ == req@ && #[trigger] call_ensures(
                                H::try_make_static_response_bytes,
                                (handler, bytes),
                                answer,
                            ));
                        assert(answers_fit(Seq::empty(), rounds));
                        assert(ended_as(
                            exchange(old(self).limits(), req@, static_answer_view(answer), rounds),
                            Err(error),
                            rounds.len(),
                        ));
                    }

                    return Err(error);
                },
                CallStep::Read => {
                    assert(call@.buffer =~= bytes_of(rounds, rounds.len()));
                },
            }
        }
    }
}

/// What follows from an answer tells the answer: two answers that fit the accumulated
/// bytes and lead to the same step are the same.
proof fn lemma_answer_is_told_by_step(call: CallView, one: ParseAnswer, other: ParseAnswer)
    requires
        answer_fits(one, call.buffer),
        answer_fits(other, call.buffer),
        call.after_parse(one) == call.after_parse(other),
    ensures
        one == other,
{
    match (one, other) {
        (Ok(Some(first)), Ok(Some(second))) => {
            assert(call.buffer.take(first as int).len() == first);
            assert(call.buffer.take(second as int).len() == second);
        },
        _ => {},
    }
}

/// The bytes of the first rounds do not change when a round is added at the end.
proof fn lemma_bytes_of_prefix(rounds: Seq<Round>, round: Round, count: nat)
    requires
        count <= rounds.len() + 1,
    ensures
        count <= rounds.len() ==> bytes_of(rounds.push(round), count) == bytes_of(rounds, count),
        count == rounds.len() + 1 ==> bytes_of(rounds.push(round), count) == bytes_of(
            rounds,
            rounds.len(),
        ) + round.bytes,
    decreases count,
{
    if count > 0 {
        lemma_bytes_of_prefix(rounds, round, (count - 1) as nat);
        if count <= rounds.len() {
            assert(rounds.push(round)[count - 1] == rounds[count - 1]);
        }
    }
}

} // verus!
