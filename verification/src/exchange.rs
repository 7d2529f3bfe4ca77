//! Whole exchanges: what a call comes to when it is fed a sequence of reads, and what
//! holds of every such sequence.

use crate::call::CallState;
use crate::call::CallView;
use crate::call::ParseAnswer;
use crate::call::StaticAnswer;
use crate::call::StepView;
use crate::call::answer_fits;
use crate::configuration::Limits;
use crate::error::TransportError;
use vstd::prelude::*;

verus! {

/// One read: the bytes that it brought and, where it brought any, what the handler
/// said of everything accumulated by then.
pub struct Round {
    pub bytes: Seq<u8>,
    pub answer: ParseAnswer,
}

/// Where a call stands after a sequence of reads.
pub struct Run {
    pub call: CallView,
    /// The step that ended the call, or `Read` where the reads ran out first.
    pub step: StepView,
    /// How many of the reads were performed.
    pub reads: nat,
}

/// The bytes that the first `count` of `rounds` brought, in order.
pub open spec fn bytes_of(rounds: Seq<Round>, count: nat) -> Seq<u8>
    recommends
        count <= rounds.len(),
    decreases count,
{
    if count == 0 {
        Seq::empty()
    } else {
        bytes_of(rounds, (count - 1) as nat) + rounds[count - 1].bytes
    }
}

/// Is the answer in round `index` one that a handler can give of the bytes accumulated
/// by then, starting from `buffer`? Of a read that brought nothing the handler is not
/// asked.
pub open spec fn round_fits(buffer: Seq<u8>, rounds: Seq<Round>, index: int) -> bool {
    rounds[index].bytes.len() > 0 ==> answer_fits(
        rounds[index].answer,
        buffer + bytes_of(rounds, (index + 1) as nat),
    )
}

/// Does every round of `rounds` fit, starting from `buffer`?
pub open spec fn answers_fit(buffer: Seq<u8>, rounds: Seq<Round>) -> bool {
    forall|i: int| 0 <= i < rounds.len() ==> #[trigger] round_fits(buffer, rounds, i)
}

impl CallView {
    /// The call after the reads in `rounds`, performed one by one for as long as the
    /// call asks for another.
    pub open spec fn after_rounds(self, rounds: Seq<Round>) -> Run
        decreases rounds.len(),
    {
        if rounds.len() == 0 {
            Run { call: self, step: StepView::Read, reads: 0 }
        } else {
            let (next, step) = self.after_read(rounds[0].bytes, rounds[0].answer);
            if step is Read {
                let rest = next.after_rounds(rounds.drop_first());
                Run { reads: rest.reads + 1, ..rest }
            } else {
                Run { call: next, step, reads: 1 }
            }
        }
    }
}

/// A whole exchange: the request is written, the handler says `answer` of it and, where
/// that fabricates no response, the reads in `rounds` follow.
pub open spec fn exchange(
    limits: Limits,
    request: Seq<u8>,
    answer: StaticAnswer,
    rounds: Seq<Round>,
) -> Run {
    let written = CallView::initial(request, limits).moved_to(CallState::Written);
    let (call, step) = written.after_static(answer);
    if step is Read {
        call.after_rounds(rounds)
    } else {
        Run { call, step, reads: 0 }
    }
}

/// The bytes of the first round come first.
pub proof fn lemma_bytes_of_split(rounds: Seq<Round>, count: nat)
    requires
        1 <= count <= rounds.len(),
    ensures
        bytes_of(rounds, count) == rounds[0].bytes + bytes_of(
            rounds.drop_first(),
            (count - 1) as nat,
        ),
    decreases count,
{
    let rest = rounds.drop_first();
    if count == 1 {
        assert(bytes_of(rounds, 0) == Seq::<u8>::empty());
        assert(bytes_of(rest, 0) == Seq::<u8>::empty());
        assert(bytes_of(rounds, 1) == bytes_of(rounds, 0) + rounds[0].bytes);
        assert(bytes_of(rounds, 1) =~= rounds[0].bytes + bytes_of(rest, 0));
    } else {
        lemma_bytes_of_split(rounds, (count - 1) as nat);
        assert(rest[count - 2] == rounds[count - 1]);
        assert(bytes_of(rest, (count - 1) as nat) == bytes_of(rest, (count - 2) as nat)
            + rest[count - 2].bytes);
        assert(bytes_of(rounds, count) =~= rounds[0].bytes + bytes_of(
            rest,
            (count - 1) as nat,
        ));
    }
}

/// A fabricated response ends the exchange with exactly its bytes, and not one read is
/// performed.
pub proof fn lemma_static_response_needs_no_read(
    limits: Limits,
    request: Seq<u8>,
    response: Seq<u8>,
    rounds: Seq<Round>,
)
    ensures
        exchange(limits, request, Ok(Some(response)), rounds).step == StepView::Complete(
            response,
        ),
        exchange(limits, request, Ok(Some(response)), rounds).reads == 0,
        exchange(limits, request, Ok(Some(response)), rounds).call.buffer.len() == 0,
{
}

/// A call that completes hands out exactly as many bytes as the handler reported in
/// the last read performed, taken from the start of what was accumulated.
pub proof fn lemma_complete_has_reported_length(call: CallView, rounds: Seq<Round>)
    requires
        answers_fit(call.buffer, rounds),
    ensures
        call.after_rounds(rounds).reads <= rounds.len(),
        call.after_rounds(rounds).step matches StepView::Complete(response) ==> {
            let reads = call.after_rounds(rounds).reads;
            &&& reads >= 1
            &&& rounds[reads - 1].answer matches Ok(Some(length))
            &&& response.len() == length
            &&& response == (call.buffer + bytes_of(rounds, reads)).take(length as int)
        },
    decreases rounds.len(),
{
    if rounds.len() > 0 {
        let first = rounds[0];
        let rest = rounds.drop_first();
        let (next, step) = call.after_read(first.bytes, first.answer);
        assert(bytes_of(rounds, 0) == Seq::<u8>::empty());
        assert(bytes_of(rounds, 1) =~= first.bytes);
        if step is Read {
            assert(next.buffer =~= call.buffer + first.bytes);
            assert forall|i: int| 0 <= i < rest.len() implies #[trigger] round_fits(
                next.buffer,
                rest,
                i,
            ) by {
                lemma_bytes_of_split(rounds, (i + 2) as nat);
                assert(rest[i] == rounds[i + 1]);
                assert(round_fits(call.buffer, rounds, i + 1));
                assert(next.buffer + bytes_of(rest, (i + 1) as nat) =~= call.buffer + bytes_of(
                    rounds,
                    (i + 2) as nat,
                ));
            }
            lemma_complete_has_reported_length(next, rest);
            let run = next.after_rounds(rest);
            if run.step is Complete {
                let reads = run.reads;
                lemma_bytes_of_split(rounds, reads + 1);
                assert(rest[reads - 1] == rounds[reads as int]);
                assert(next.buffer + bytes_of(rest, reads) =~= call.buffer + bytes_of(
                    rounds,
                    reads + 1,
                ));
            }
        } else if step is Complete {
            assert(first.bytes.len() > 0);
            assert(round_fits(call.buffer, rounds, 0));
            assert(call.appended(first.bytes).buffer =~= call.buffer + bytes_of(rounds, 1));
        }
    }
}

/// A response that arrives in pieces is put together: while the handler asks for more
/// and neither limit is passed, the call keeps reading, and the read after which the
/// handler reports a length ends it with that many bytes from the start of all that
/// arrived. No later read is performed.
pub proof fn lemma_incremental_assembly(call: CallView, rounds: Seq<Round>, last: nat, length: usize)
    requires
        last < rounds.len(),
        forall|i: int| 0 <= i <= last ==> (#[trigger] rounds[i]).bytes.len() > 0,
        forall|i: int| 0 <= i < last ==> (#[trigger] rounds[i]).answer == Ok::<
            Option<usize>,
            std::io::Error,
        >(None),
        rounds[last as int].answer == Ok::<Option<usize>, std::io::Error>(Some(length)),
        length <= call.buffer.len() + bytes_of(rounds, last + 1).len(),
        call.attempts + last <= call.limits.max_parse_attempts,
        forall|i: nat|
            1 <= i <= last ==> call.buffer.len() + (#[trigger] bytes_of(rounds, i)).len()
                <= call.limits.max_buf_size,
    ensures
        call.after_rounds(rounds).step == StepView::Complete(
            (call.buffer + bytes_of(rounds, last + 1)).take(length as int),
        ),
        call.after_rounds(rounds).reads == last + 1,
    decreases last,
{
    let first = rounds[0];
    let rest = rounds.drop_first();
    assert(bytes_of(rounds, 0) == Seq::<u8>::empty());
    assert(bytes_of(rounds, 1) =~= first.bytes);
    if last == 0 {
        assert(call.appended(first.bytes).buffer =~= call.buffer + bytes_of(rounds, 1));
    } else {
        let (next, step) = call.after_read(first.bytes, first.answer);
        assert(call.buffer.len() + bytes_of(rounds, 1).len() <= call.limits.max_buf_size);
        assert(step is Read);
        assert(next.buffer =~= call.buffer + first.bytes);
        assert forall|i: int| 0 <= i <= last - 1 implies (#[trigger] rest[i]).bytes.len() > 0 by {
            assert(rest[i] == rounds[i + 1]);
        }
        assert forall|i: int| 0 <= i < last - 1 implies (#[trigger] rest[i]).answer == Ok::<
            Option<usize>,
            std::io::Error,
        >(None) by {
            assert(rest[i] == rounds[i + 1]);
        }
        assert(rest[last - 1] == rounds[last as int]);
        assert forall|i: nat| 1 <= i <= last - 1 implies next.buffer.len() + (#[trigger] bytes_of(
            rest,
            i,
        )).len() <= next.limits.max_buf_size by {
            lemma_bytes_of_split(rounds, i + 1);
            assert(bytes_of(rounds, i + 1).len() == first.bytes.len() + bytes_of(rest, i).len());
        }
        lemma_bytes_of_split(rounds, last + 1);
        lemma_incremental_assembly(next, rest, (last - 1) as nat, length);
        assert(next.buffer + bytes_of(rest, last) =~= call.buffer + bytes_of(rounds, last + 1));
    }
}

/// Where more bytes are needed and the accumulated bytes exceed the largest buffer
/// size, the call fails for that reason, also where the rounds would have been
/// exceeded in the same step.
pub proof fn lemma_buffer_limit_is_checked_first(call: CallView)
    requires
        call.buffer.len() > call.limits.max_buf_size,
    ensures
        call.after_parse(Ok(None)).1 == StepView::Failed(TransportError::ExceededMaxBufferSize),
        call.after_parse(Ok(None)).0 == call.moved_to(CallState::Failed),
{
}

/// Between reads a call is within its limits: whenever it asks for another read, it
/// holds no more bytes than the largest buffer size and has counted no more rounds than
/// the limit allows, and what it holds is what it held before and what the reads
/// brought since, in order.
pub proof fn lemma_within_limits_between_reads(call: CallView, rounds: Seq<Round>)
    requires
        call.state == CallState::Written,
        call.buffer.len() <= call.limits.max_buf_size,
        call.attempts <= call.limits.max_parse_attempts,
    ensures
        call.after_rounds(rounds).step is Read ==> {
            let after = call.after_rounds(rounds).call;
            &&& after.state == CallState::Written
            &&& after.buffer.len() <= call.limits.max_buf_size
            &&& after.attempts <= call.limits.max_parse_attempts
            &&& after.attempts == call.attempts + rounds.len()
            &&& after.buffer == call.buffer + bytes_of(rounds, rounds.len())
            &&& call.after_rounds(rounds).reads == rounds.len()
            &&& after.limits == call.limits
            &&& after.request == call.request
        },
    decreases rounds.len(),
{
    if rounds.len() == 0 {
        assert(call.buffer + bytes_of(rounds, 0) =~= call.buffer);
    } else {
        let (next, step) = call.after_read(rounds[0].bytes, rounds[0].answer);
        if step is Read {
            let rest = rounds.drop_first();
            lemma_within_limits_between_reads(next, rest);
            if next.after_rounds(rest).step is Read {
                lemma_bytes_of_split(rounds, rounds.len());
                assert(next.buffer =~= call.buffer + rounds[0].bytes);
                assert(next.buffer + bytes_of(rest, rest.len()) =~= call.buffer + bytes_of(
                    rounds,
                    rounds.len(),
                ));
            }
        }
    }
}

/// A stream that brings nothing exhausts the rounds: the call fails for that reason
/// with the read that takes the count past the limit, and performs no other. From a
/// count of zero that is the read after as many as the limit allows.
pub proof fn lemma_silence_exhausts_attempts(call: CallView, rounds: Seq<Round>)
    requires
        call.attempts <= call.limits.max_parse_attempts,
        forall|i: int| 0 <= i < rounds.len() ==> (#[trigger] rounds[i]).bytes.len() == 0,
        rounds.len() > call.limits.max_parse_attempts - call.attempts,
    ensures
        call.after_rounds(rounds).step == StepView::Failed(
            TransportError::ExceededMaxParseAttempts,
        ),
        call.after_rounds(rounds).reads == call.limits.max_parse_attempts + 1 - call.attempts,
        call.after_rounds(rounds).call.buffer == call.buffer,
    decreases rounds.len(),
{
    let rest = rounds.drop_first();
    let (next, step) = call.after_read(rounds[0].bytes, rounds[0].answer);
    if step is Read {
        assert forall|i: int| 0 <= i < rest.len() implies (#[trigger] rest[i]).bytes.len()
            == 0 by {
            assert(rest[i] == rounds[i + 1]);
        }
        lemma_silence_exhausts_attempts(next, rest);
    }
}

/// A whole exchange on a stream that brings nothing: it fails because the rounds are
/// exhausted, with exactly one read more than the limit allows rounds.
pub proof fn lemma_silent_exchange(limits: Limits, request: Seq<u8>, rounds: Seq<Round>)
    requires
        forall|i: int| 0 <= i < rounds.len() ==> (#[trigger] rounds[i]).bytes.len() == 0,
        rounds.len() > limits.max_parse_attempts,
    ensures
        exchange(limits, request, Ok(None), rounds).step == StepView::Failed(
            TransportError::ExceededMaxParseAttempts,
        ),
        exchange(limits, request, Ok(None), rounds).reads == limits.max_parse_attempts + 1,
{
    let written = CallView::initial(request, limits).moved_to(CallState::Written);
    lemma_silence_exhausts_attempts(written, rounds);
}

/// A whole exchange whose response arrives in pieces: where the handler asks for more
/// after each of the first reads and reports a length after the next, and the limits
/// allow that many rounds and bytes, the exchange completes with that many bytes from
/// the start of all that arrived, after exactly those reads.
pub proof fn lemma_assembled_exchange(
    limits: Limits,
    request: Seq<u8>,
    rounds: Seq<Round>,
    last: nat,
    length: usize,
)
    requires
        last < rounds.len(),
        forall|i: int| 0 <= i <= last ==> (#[trigger] rounds[i]).bytes.len() > 0,
        forall|i: int| 0 <= i < last ==> (#[trigger] rounds[i]).answer == Ok::<
            Option<usize>,
            std::io::Error,
        >(None),
        rounds[last as int].answer == Ok::<Option<usize>, std::io::Error>(Some(length)),
        length <= bytes_of(rounds, last + 1).len(),
        last <= limits.max_parse_attempts,
        forall|i: nat| 1 <= i <= last ==> (#[trigger] bytes_of(rounds, i)).len()
            <= limits.max_buf_size,
    ensures
        exchange(limits, request, Ok(None), rounds).step == StepView::Complete(
            bytes_of(rounds, last + 1).take(length as int),
        ),
        exchange(limits, request, Ok(None), rounds).reads == last + 1,
{
    let written = CallView::initial(request, limits).moved_to(CallState::Written);
    lemma_incremental_assembly(written, rounds, last, length);
    assert(written.buffer + bytes_of(rounds, last + 1) =~= bytes_of(rounds, last + 1));
}

/// Calls keep nothing from one another: what becomes of a call depends on its two
/// limits and on what the reads bring, so two calls made of configurations with the
/// same limits, fed the same reads and answers, end alike.
pub proof fn lemma_equal_limits_equal_outcome(one: CallView, other: CallView, rounds: Seq<Round>)
    requires
        one.limits.max_buf_size == other.limits.max_buf_size,
        one.limits.max_parse_attempts == other.limits.max_parse_attempts,
        one.buffer == other.buffer,
        one.attempts == other.attempts,
    ensures
        one.after_rounds(rounds).step == other.after_rounds(rounds).step,
        one.after_rounds(rounds).reads == other.after_rounds(rounds).reads,
        one.after_rounds(rounds).call.buffer == other.after_rounds(rounds).call.buffer,
        one.after_rounds(rounds).call.attempts == other.after_rounds(rounds).call.attempts,
    decreases rounds.len(),
{
    if rounds.len() > 0 {
        let (next_one, step_one) = one.after_read(rounds[0].bytes, rounds[0].answer);
        let (next_other, step_other) = other.after_read(rounds[0].bytes, rounds[0].answer);
        assert(step_one == step_other);
        if step_one is Read {
            lemma_equal_limits_equal_outcome(next_one, next_other, rounds.drop_first());
        }
    }
}

/// Two exchanges under the same limits, with the same answers and the same reads, end
/// alike, whatever else was exchanged before.
pub proof fn lemma_exchanges_are_independent(
    limits: Limits,
    one_request: Seq<u8>,
    other_request: Seq<u8>,
    answer: StaticAnswer,
    rounds: Seq<Round>,
)
    ensures
        exchange(limits, one_request, answer, rounds).step == exchange(
            limits,
            other_request,
            answer,
            rounds,
        ).step,
        exchange(limits, one_request, answer, rounds).reads == exchange(
            limits,
            other_request,
            answer,
            rounds,
        ).reads,
{
    let one = CallView::initial(one_request, limits).moved_to(CallState::Written);
    let other = CallView::initial(other_request, limits).moved_to(CallState::Written);
    if one.after_static(answer).1 is Read {
        lemma_equal_limits_equal_outcome(
            one.after_static(answer).0,
            other.after_static(answer).0,
            rounds,
        );
    }
}

} // verus!
