//! What holds of every request, proved from the transition functions of
//! the state machine.

use crate::error::{RequestError, TransportFault};
use crate::exchange::{
    lemma_run_concat, lemma_run_one, spec_advance, spec_polled, spec_run, spec_start, spec_written,
    EventView, ExchangeView, Stage, StepView, POLL_ATTEMPTS,
};
use crate::session::SessionView;
use crate::wire::{
    declared_sequence, spec_frame, trailing_body, well_framed, HEADER_LEN, MAX_BODY_LEN,
    RESET_SEQUENCE_ID,
};
use vstd::prelude::*;

verus! {

/// Every step that follows from a well-formed one is well formed, and so is
/// the first step of every request.
pub proof fn lemma_steps_stay_well_formed(
    session: SessionView,
    command: u32,
    body: Seq<u8>,
    ex: ExchangeView,
    sent: Result<(), TransportFault>,
    read: Result<Seq<u8>, TransportFault>,
)
    ensures
        spec_start(session, command, body).wf(),
        ex.wf() ==> spec_written(ex, sent).wf(),
        ex.wf() ==> spec_polled(ex, read).wf(),
{
}

/// A request ends in success only on a well-framed response that carries
/// the sequence number of the frame in flight, and the body handed to the
/// caller is the body of that response. Starting a request or sending a
/// frame never ends it in success.
pub proof fn lemma_success_only_on_match(
    session: SessionView,
    command: u32,
    body: Seq<u8>,
    ex: ExchangeView,
    sent: Result<(), TransportFault>,
    read: Result<Seq<u8>, TransportFault>,
)
    ensures
        !(spec_start(session, command, body) matches StepView::Done(_, Ok(_))),
        !(spec_written(ex, sent) matches StepView::Done(_, Ok(_))),
        spec_polled(ex, read) matches StepView::Done(_, Ok(delivered)) ==> {
            &&& read matches Ok(bytes)
            &&& well_framed(read.unwrap())
            &&& declared_sequence(read.unwrap()) == ex.sequence()
            &&& delivered == trailing_body(read.unwrap())
            &&& !ex.stage.spec_is_inserted_reset()
        },
{
}

/// A request that is over stays over, whatever is reported afterwards.
pub proof fn lemma_done_is_final(
    session: SessionView,
    result: Result<Seq<u8>, RequestError>,
    events: Seq<EventView>,
)
    ensures
        spec_run(StepView::Done(session, result), events) == StepView::Done(session, result),
    decreases events.len(),
{
    if events.len() > 0 {
        lemma_done_is_final(session, result, events.drop_first());
    }
}

/// `count` reports in a row that the device is not ready.
pub open spec fn not_ready(count: nat) -> Seq<EventView> {
    Seq::new(count, |i: int| EventView::Read(Err(TransportFault::Pipe)))
}

/// The request `ex` after `count` more polls found the device not ready.
pub open spec fn after_polls(ex: ExchangeView, count: nat) -> ExchangeView {
    ExchangeView {
        session: ex.session,
        command: ex.command,
        body: ex.body,
        stage: ex.stage,
        polls: ex.polls + count,
    }
}

/// While the poll limit is not reached, a device that is not ready is
/// polled again and nothing else changes.
pub proof fn lemma_not_ready_below_limit(ex: ExchangeView, count: nat)
    requires
        ex.polls + count < POLL_ATTEMPTS,
    ensures
        spec_run(StepView::Poll(ex), not_ready(count)) == StepView::Poll(after_polls(ex, count)),
    decreases count,
{
    if count == 0 {
        assert(after_polls(ex, 0) == ex);
    } else {
        let events = not_ready(count);
        assert(events.drop_first() =~= not_ready((count - 1) as nat));
        assert(spec_advance(StepView::Poll(ex), events[0]) == StepView::Poll(after_polls(ex, 1)));
        lemma_not_ready_below_limit(after_polls(ex, 1), (count - 1) as nat);
        assert(after_polls(after_polls(ex, 1), (count - 1) as nat) == after_polls(ex, count));
    }
}

/// A response after nineteen polls that found the device not ready is
/// handled as one that comes at once: the twentieth attempt still counts.
pub proof fn lemma_response_on_last_attempt(ex: ExchangeView, bytes: Seq<u8>)
    requires
        ex.polls == 0,
    ensures
        spec_run(StepView::Poll(ex), not_ready(19) + seq![EventView::Read(Ok(bytes))])
            == spec_polled(after_polls(ex, 19), Ok(bytes)),
        well_framed(bytes) && declared_sequence(bytes) == ex.sequence()
            && !ex.stage.spec_is_inserted_reset() ==> spec_run(
            StepView::Poll(ex),
            not_ready(19) + seq![EventView::Read(Ok(bytes))],
        ) == StepView::Done(ex.session, Ok(trailing_body(bytes))),
{
    let last = EventView::Read(Ok(bytes));
    lemma_run_concat(StepView::Poll(ex), not_ready(19), seq![last]);
    lemma_not_ready_below_limit(ex, 19);
    lemma_run_one(StepView::Poll(after_polls(ex, 19)), last);
}

/// Twenty polls in a row that find the device not ready end the request
/// with `ResponseTimeout`, and nothing that is reported afterwards is
/// looked at.
pub proof fn lemma_timeout_after_all_attempts(ex: ExchangeView, later: Seq<EventView>)
    requires
        ex.polls == 0,
    ensures
        spec_run(StepView::Poll(ex), not_ready(20) + later) == StepView::Done(
            ex.session,
            Err(RequestError::ResponseTimeout),
        ),
{
    let last = EventView::Read(Err(TransportFault::Pipe));
    assert(not_ready(20) =~= not_ready(19) + seq![last]);
    lemma_run_concat(StepView::Poll(ex), not_ready(20), later);
    lemma_run_concat(StepView::Poll(ex), not_ready(19), seq![last]);
    lemma_not_ready_below_limit(ex, 19);
    lemma_run_one(StepView::Poll(after_polls(ex, 19)), last);
    lemma_done_is_final(ex.session, Err(RequestError::ResponseTimeout), later);
}

/// The session `session` with its counter at `count`.
pub open spec fn with_count(session: SessionView, count: u16) -> SessionView {
    SessionView { product_id: session.product_id, command_count: count }
}

/// The reports of a leg whose frame is sent without failure and answered
/// at once with `answer`.
pub open spec fn answered(answer: Seq<u8>) -> Seq<EventView> {
    seq![EventView::Written(Ok(())), EventView::Read(Ok(answer))]
}

/// Running a leg that is sent without failure and answered at once is two
/// transitions.
pub proof fn lemma_run_answered(step: StepView, answer: Seq<u8>)
    ensures
        spec_run(step, answered(answer)) == spec_advance(
            spec_advance(step, EventView::Written(Ok(()))),
            EventView::Read(Ok(answer)),
        ),
{
    let sent = EventView::Written(Ok(()));
    let read = EventView::Read(Ok(answer));
    assert(answered(answer) =~= seq![sent] + seq![read]);
    lemma_run_concat(step, seq![sent], seq![read]);
    lemma_run_one(step, sent);
    lemma_run_one(spec_advance(step, sent), read);
}

/// One mismatch is recovered from. When the response to the first attempt
/// carries another sequence number, a sequence reset with number 0 goes
/// out; once that is answered the command goes out again with number 1;
/// and a matching response to it ends the request with that response's
/// body.
pub proof fn lemma_resync_recovers(
    ex: ExchangeView,
    stray: Seq<u8>,
    reset_answer: Seq<u8>,
    answer: Seq<u8>,
)
    requires
        ex.wf(),
        ex.stage is First,
        stray.len() >= HEADER_LEN,
        declared_sequence(stray) != ex.sequence(),
        well_framed(reset_answer),
        declared_sequence(reset_answer) == 0,
        well_framed(answer),
        declared_sequence(answer) == (if ex.command == RESET_SEQUENCE_ID {
            0int
        } else {
            1int
        }),
    ensures
        spec_polled(ex, Ok(stray)) matches StepView::Write(resync, bytes) && {
            &&& resync.stage is Resync
            &&& bytes == spec_frame(RESET_SEQUENCE_ID, 0, Seq::<u8>::empty())
        },
        spec_run(spec_polled(ex, Ok(stray)), answered(reset_answer)) matches StepView::Write(
            retry,
            bytes,
        ) && {
            &&& retry.stage is Retry
            &&& bytes == spec_frame(ex.command, declared_sequence(answer) as u16, ex.body)
        },
        spec_run(
            StepView::Poll(ex),
            seq![EventView::Read(Ok(stray))] + answered(reset_answer) + answered(answer),
        ) == StepView::Done(
            with_count(ex.session, declared_sequence(answer) as u16),
            Ok(trailing_body(answer)),
        ),
{
    let first = StepView::Poll(ex);
    let second = spec_polled(ex, Ok(stray));
    lemma_run_one(first, EventView::Read(Ok(stray)));
    lemma_run_answered(second, reset_answer);
    let third = spec_run(second, answered(reset_answer));
    lemma_run_answered(third, answer);
    lemma_run_concat(first, seq![EventView::Read(Ok(stray))], answered(reset_answer));
    lemma_run_concat(
        first,
        seq![EventView::Read(Ok(stray))] + answered(reset_answer),
        answered(answer),
    );
}

/// A second mismatch is final. When the response to the repeated command
/// carries another sequence number again, the request ends with
/// `ResyncExhausted`, and nothing that is reported afterwards is looked at:
/// there is no third attempt.
pub proof fn lemma_resync_is_tried_once(
    ex: ExchangeView,
    stray: Seq<u8>,
    reset_answer: Seq<u8>,
    second_stray: Seq<u8>,
    later: Seq<EventView>,
)
    requires
        ex.wf(),
        ex.stage is First,
        stray.len() >= HEADER_LEN,
        declared_sequence(stray) != ex.sequence(),
        well_framed(reset_answer),
        declared_sequence(reset_answer) == 0,
        second_stray.len() >= HEADER_LEN,
        declared_sequence(second_stray) != (if ex.command == RESET_SEQUENCE_ID {
            0int
        } else {
            1int
        }),
    ensures
        spec_run(
            StepView::Poll(ex),
            seq![EventView::Read(Ok(stray))] + answered(reset_answer) + answered(second_stray)
                + later,
        ) == StepView::Done(
            with_count(ex.session, if ex.command == RESET_SEQUENCE_ID {
                0u16
            } else {
                1u16
            }),
            Err(RequestError::ResyncExhausted),
        ),
{
    let first = StepView::Poll(ex);
    let second = spec_polled(ex, Ok(stray));
    let count = if ex.command == RESET_SEQUENCE_ID {
        0u16
    } else {
        1u16
    };
    lemma_run_one(first, EventView::Read(Ok(stray)));
    lemma_run_answered(second, reset_answer);
    let third = spec_run(second, answered(reset_answer));
    lemma_run_answered(third, second_stray);
    lemma_run_concat(first, seq![EventView::Read(Ok(stray))], answered(reset_answer));
    lemma_run_concat(
        first,
        seq![EventView::Read(Ok(stray))] + answered(reset_answer),
        answered(second_stray),
    );
    lemma_run_concat(
        first,
        seq![EventView::Read(Ok(stray))] + answered(reset_answer) + answered(second_stray),
        later,
    );
    lemma_done_is_final(
        with_count(ex.session, count),
        Err(RequestError::ResyncExhausted),
        later,
    );
}

/// In every leg but the first attempt a mismatch ends the request with
/// `ResyncExhausted`.
pub proof fn lemma_mismatch_outside_first_attempt(ex: ExchangeView, stray: Seq<u8>)
    requires
        !(ex.stage is First),
        stray.len() >= HEADER_LEN,
        declared_sequence(stray) != ex.sequence(),
    ensures
        spec_polled(ex, Ok(stray)) == StepView::Done(
            ex.session,
            Err(RequestError::ResyncExhausted),
        ),
{
}

/// The sequence number of the next command other than a sequence reset on
/// a session whose counter is at `count`: one more, or 1 when the counter
/// is at its maximum and a sequence reset goes first.
pub open spec fn next_sequence(count: u16) -> u16 {
    if count == u16::MAX {
        1u16
    } else {
        (count + 1) as u16
    }
}

/// The counter of a fresh session after `n` commands other than a sequence
/// reset, each answered with its own sequence number.
pub open spec fn nth_sequence(n: nat) -> u16
    decreases n,
{
    if n == 0 {
        0u16
    } else {
        next_sequence(nth_sequence((n - 1) as nat))
    }
}

/// A command other than a sequence reset carries the next sequence number.
/// Below the maximum the first frame of the request is the command's, with
/// the counter plus 1. At the maximum the first frame is a sequence reset
/// with number 0, and once that is answered the command goes out with
/// number 1. When the command is then answered with its own number, the
/// request ends in success and the session's counter is that number.
pub proof fn lemma_command_takes_next_sequence(
    session: SessionView,
    command: u32,
    body: Seq<u8>,
    reset_answer: Seq<u8>,
    answer: Seq<u8>,
)
    requires
        command != RESET_SEQUENCE_ID,
        body.len() <= MAX_BODY_LEN,
        well_framed(reset_answer),
        declared_sequence(reset_answer) == 0,
        well_framed(answer),
        declared_sequence(answer) == next_sequence(session.command_count),
    ensures
        session.command_count < u16::MAX ==> {
            &&& spec_start(session, command, body) matches StepView::Write(ex, bytes) && {
                &&& ex.stage is First
                &&& bytes == spec_frame(command, next_sequence(session.command_count), body)
            }
            &&& spec_run(spec_start(session, command, body), answered(answer)) == StepView::Done(
                with_count(session, next_sequence(session.command_count)),
                Ok(trailing_body(answer)),
            )
        },
        session.command_count == u16::MAX ==> {
            &&& spec_start(session, command, body) matches StepView::Write(ex, bytes) && {
                &&& ex.stage is Prelude
                &&& bytes == spec_frame(RESET_SEQUENCE_ID, 0, Seq::<u8>::empty())
            }
            &&& spec_run(spec_start(session, command, body), answered(reset_answer))
                matches StepView::Write(ex, bytes) && {
                &&& ex.stage is First
                &&& bytes == spec_frame(command, 1, body)
            }
            &&& spec_run(
                spec_start(session, command, body),
                answered(reset_answer) + answered(answer),
            ) == StepView::Done(with_count(session, 1), Ok(trailing_body(answer)))
        },
{
    let first = spec_start(session, command, body);
    if session.command_count < u16::MAX {
        lemma_run_answered(first, answer);
    } else {
        lemma_run_answered(first, reset_answer);
        let second = spec_run(first, answered(reset_answer));
        lemma_run_answered(second, answer);
        lemma_run_concat(first, answered(reset_answer), answered(answer));
    }
}

/// On a fresh session the commands other than a sequence reset are
/// numbered 1, 2, 3 and so on up to the maximum of the counter, and from
/// there again from 1: the `n`-th carries `(n - 1) % 65535 + 1`. So the
/// first 65535 numbers are the commands' positions, and no two of them are
/// equal.
pub proof fn lemma_sequence_numbers_count_up(n: nat)
    ensures
        n >= 1 ==> nth_sequence(n) == (n - 1) % 65535 + 1,
        1 <= n <= u16::MAX ==> nth_sequence(n) == n,
        n > u16::MAX ==> nth_sequence(n) == nth_sequence((n - 65535) as nat),
    decreases n,
{
    if n >= 1 {
        lemma_sequence_numbers_count_up((n - 1) as nat);
        assert(nth_sequence(0) == 0);
        if n > u16::MAX {
            lemma_sequence_numbers_count_up((n - 65535) as nat);
        }
    }
}

/// Among the first 65535 commands other than a sequence reset on a fresh
/// session, a later one carries a greater sequence number than an earlier
/// one.
pub proof fn lemma_sequence_numbers_do_not_repeat(i: nat, j: nat)
    requires
        1 <= i < j <= u16::MAX,
    ensures
        nth_sequence(i) < nth_sequence(j),
{
    lemma_sequence_numbers_count_up(i);
    lemma_sequence_numbers_count_up(j);
}

/// How many transfers a request may still ask for: each leg takes one
/// outbound transfer and at most twenty inbound ones.
pub open spec fn transfers_left(step: StepView) -> nat {
    match step {
        StepView::Write(ex, _) => legs_after(ex.stage) * 21 + 21,
        StepView::Poll(ex) => (legs_after(ex.stage) * 21 + 20 - ex.polls) as nat,
        StepView::Done(_, _) => 0,
    }
}

/// How many legs can follow leg `stage`.
pub open spec fn legs_after(stage: Stage) -> nat {
    match stage {
        Stage::Prelude => 3,
        Stage::First => 2,
        Stage::Resync => 1,
        Stage::Retry => 0,
    }
}

/// Nothing is retried without end: every report that a step asked for
/// brings the request closer to its end, and a request asks for at most 84
/// transfers in all.
pub proof fn lemma_every_report_makes_progress(
    session: SessionView,
    command: u32,
    body: Seq<u8>,
    ex: ExchangeView,
    bytes: Seq<u8>,
    sent: Result<(), TransportFault>,
    read: Result<Seq<u8>, TransportFault>,
)
    requires
        ex.wf(),
    ensures
        transfers_left(spec_start(session, command, body)) <= 84,
        ex.polls == 0 ==> transfers_left(spec_written(ex, sent)) < transfers_left(
            StepView::Write(ex, bytes),
        ),
        transfers_left(spec_polled(ex, read)) < transfers_left(StepView::Poll(ex)),
{
}

} // verus!
