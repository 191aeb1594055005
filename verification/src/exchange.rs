//! The request lifecycle as a state machine. The library decides; the
//! caller performs the transfers and reports what came of them.
//!
//! `start` takes the session and answers with the first step. A
//! `Step::Write` asks for the outbound transfer of a frame, whose outcome
//! goes to `Sending::written`. A `Step::Poll` asks the caller to wait for
//! the session's settle delay and then to make one inbound transfer, whose
//! outcome goes to `Polling::polled`. A `Step::Done` ends the request and
//! hands the session back with the result.

use crate::error::{RequestError, TransportFault};
use crate::session::{
    GoXLRUSB, SessionView, MAX_RESPONSE_LEN, REQUEST_COMMAND, REQUEST_RESPONSE,
    TRANSFER_TIMEOUT_MS,
};
use crate::wire::{
    declared_len, declared_sequence, decode_header, frame, spec_frame, trailing_body, CommandId,
    HEADER_LEN, MAX_BODY_LEN, RESET_SEQUENCE_ID,
};
use vstd::prelude::*;

verus! {

/// How often a frame's response is polled for before the request times out.
pub const POLL_ATTEMPTS: u8 = 20;

/// The legs of a request. Most requests have one, `First`.
#[derive(Clone, Copy, Debug, PartialEq, Eq, Structural)]
pub enum Stage {
    /// The counter was at its maximum: a sequence reset goes out before the
    /// command itself.
    Prelude,
    /// The command, for the first time.
    First,
    /// The response to the first attempt carried another sequence number: a
    /// sequence reset goes out before the command is repeated.
    Resync,
    /// The command, for the second and last time.
    Retry,
}

impl Stage {
    /// Whether the frame of this leg is a sequence reset that the library
    /// inserted.
    pub open spec fn spec_is_inserted_reset(self) -> bool {
        self is Prelude || self is Resync
    }

    /// Whether the frame of this leg is a sequence reset that the library
    /// inserted.
    #[verifier::when_used_as_spec(spec_is_inserted_reset)]
    pub fn is_inserted_reset(self) -> (b: bool)
        ensures
            b == self.spec_is_inserted_reset(),
    {
        match self {
            Stage::Prelude => true,
            Stage::Resync => true,
            Stage::First => false,
            Stage::Retry => false,
        }
    }
}

/// The command that goes on the wire in leg `stage` of a request for
/// `command`.
pub open spec fn wire_command(stage: Stage, command: u32) -> u32 {
    if stage.spec_is_inserted_reset() {
        RESET_SEQUENCE_ID
    } else {
        command
    }
}

/// The body that goes on the wire in leg `stage` of a request with `body`.
pub open spec fn wire_body(stage: Stage, body: Seq<u8>) -> Seq<u8> {
    if stage.spec_is_inserted_reset() {
        Seq::<u8>::empty()
    } else {
        body
    }
}

/// A request in flight, as plain values.
pub struct ExchangeView {
    /// The session, whose counter is the sequence number of the frame in
    /// flight.
    pub session: SessionView,
    /// The caller's command.
    pub command: u32,
    /// The caller's body.
    pub body: Seq<u8>,
    /// The leg that the request is in.
    pub stage: Stage,
    /// How many polls for the frame in flight found the device not ready.
    pub polls: nat,
}

impl ExchangeView {
    /// What holds of every request in flight: the body fits a frame, the
    /// poll limit is not yet reached, and the frame in flight carries
    /// sequence number 0 exactly if it is a sequence reset.
    pub open spec fn wf(self) -> bool {
        &&& self.body.len() <= MAX_BODY_LEN
        &&& self.polls < POLL_ATTEMPTS
        &&& (wire_command(self.stage, self.command) == RESET_SEQUENCE_ID) == (
        self.session.command_count == 0)
    }

    /// The sequence number of the frame in flight.
    pub open spec fn sequence(self) -> u16 {
        self.session.command_count
    }
}

/// What the state machine asks for next, as plain values.
pub enum StepView {
    /// Send this frame.
    Write(ExchangeView, Seq<u8>),
    /// Wait for the settle delay, then poll once.
    Poll(ExchangeView),
    /// The request is over.
    Done(SessionView, Result<Seq<u8>, RequestError>),
}

/// Leg `stage` begins: the sequence number is assigned and the frame built.
/// A sequence reset sets the counter to 0 and carries 0; any other command
/// raises the counter by 1 and carries the new value.
pub open spec fn spec_launch(
    session: SessionView,
    command: u32,
    body: Seq<u8>,
    stage: Stage,
) -> StepView
    recommends
        body.len() <= MAX_BODY_LEN,
        wire_command(stage, command) != RESET_SEQUENCE_ID ==> session.command_count < u16::MAX,
{
    let on_wire = wire_command(stage, command);
    let sequence: u16 = if on_wire == RESET_SEQUENCE_ID {
        0u16
    } else {
        (session.command_count + 1) as u16
    };
    StepView::Write(
        ExchangeView {
            session: SessionView { product_id: session.product_id, command_count: sequence },
            command,
            body,
            stage,
            polls: 0,
        },
        spec_frame(on_wire, sequence, wire_body(stage, body)),
    )
}

/// A request begins. A body that fits no frame ends it at once. With the
/// counter at its maximum a command other than the sequence reset is
/// preceded by one.
pub open spec fn spec_start(session: SessionView, command: u32, body: Seq<u8>) -> StepView {
    if body.len() > MAX_BODY_LEN {
        StepView::Done(session, Err(RequestError::BodyTooLarge))
    } else if command != RESET_SEQUENCE_ID && session.command_count == u16::MAX {
        spec_launch(session, command, body, Stage::Prelude)
    } else {
        spec_launch(session, command, body, Stage::First)
    }
}

/// The outbound transfer is over. A failure ends the request; after a
/// success the response is polled for.
pub open spec fn spec_written(ex: ExchangeView, outcome: Result<(), TransportFault>) -> StepView {
    match outcome {
        Err(fault) => StepView::Done(ex.session, Err(RequestError::TransportError(fault))),
        Ok(_) => StepView::Poll(ex),
    }
}

/// The device was not ready: poll again, unless this was the last attempt.
pub open spec fn spec_not_ready(ex: ExchangeView) -> StepView {
    if ex.polls + 1 < POLL_ATTEMPTS {
        StepView::Poll(
            ExchangeView {
                session: ex.session,
                command: ex.command,
                body: ex.body,
                stage: ex.stage,
                polls: ex.polls + 1,
            },
        )
    } else {
        StepView::Done(ex.session, Err(RequestError::ResponseTimeout))
    }
}

/// A response came with another sequence number than the frame in flight.
/// The first attempt at the command is followed by a sequence reset and a
/// second attempt; in every other leg the request ends.
pub open spec fn spec_mismatched(ex: ExchangeView) -> StepView {
    if ex.stage is First {
        spec_launch(ex.session, ex.command, ex.body, Stage::Resync)
    } else {
        StepView::Done(ex.session, Err(RequestError::ResyncExhausted))
    }
}

/// A well-formed response came with the sequence number of the frame in
/// flight. After an inserted sequence reset the command itself goes out;
/// otherwise the request ends with the response's body.
pub open spec fn spec_matched(ex: ExchangeView, body: Seq<u8>) -> StepView {
    match ex.stage {
        Stage::Prelude => spec_launch(ex.session, ex.command, ex.body, Stage::First),
        Stage::Resync => spec_launch(ex.session, ex.command, ex.body, Stage::Retry),
        Stage::First => StepView::Done(ex.session, Ok(body)),
        Stage::Retry => StepView::Done(ex.session, Ok(body)),
    }
}

/// An inbound transfer brought `bytes`.
pub open spec fn spec_received(ex: ExchangeView, bytes: Seq<u8>) -> StepView {
    if bytes.len() < HEADER_LEN {
        StepView::Done(ex.session, Err(RequestError::MalformedResponse))
    } else if declared_sequence(bytes) != ex.sequence() {
        spec_mismatched(ex)
    } else if declared_len(bytes) != bytes.len() - HEADER_LEN {
        StepView::Done(ex.session, Err(RequestError::MalformedResponse))
    } else {
        spec_matched(ex, trailing_body(bytes))
    }
}

/// The inbound transfer is over. A stalled endpoint means that the device
/// is not ready yet; any other failure ends the request.
pub open spec fn spec_polled(ex: ExchangeView, outcome: Result<Seq<u8>, TransportFault>) -> StepView {
    match outcome {
        Err(fault) => if fault == TransportFault::Pipe {
            spec_not_ready(ex)
        } else {
            StepView::Done(ex.session, Err(RequestError::TransportError(fault)))
        },
        Ok(bytes) => spec_received(ex, bytes),
    }
}

impl StepView {
    /// What holds of every step that the state machine hands out: a request
    /// in flight is well formed, and a frame to send is the frame of the
    /// leg, with the session's counter as its sequence number.
    pub open spec fn wf(self) -> bool {
        match self {
            StepView::Write(ex, bytes) => {
                &&& ex.wf()
                &&& ex.polls == 0
                &&& bytes == spec_frame(
                    wire_command(ex.stage, ex.command),
                    ex.sequence(),
                    wire_body(ex.stage, ex.body),
                )
            },
            StepView::Poll(ex) => ex.wf(),
            StepView::Done(_, _) => true,
        }
    }
}

/// What the caller reports, as plain values.
pub enum EventView {
    /// The outcome of an outbound transfer.
    Written(Result<(), TransportFault>),
    /// The outcome of an inbound transfer.
    Read(Result<Seq<u8>, TransportFault>),
}

/// One report reaches the state machine. A report that the step did not ask
/// for changes nothing.
pub open spec fn spec_advance(step: StepView, event: EventView) -> StepView {
    match (step, event) {
        (StepView::Write(ex, _), EventView::Written(outcome)) => spec_written(ex, outcome),
        (StepView::Poll(ex), EventView::Read(outcome)) => spec_polled(ex, outcome),
        _ => step,
    }
}

/// The reports of `events` reach the state machine one after the other.
pub open spec fn spec_run(step: StepView, events: Seq<EventView>) -> StepView
    decreases events.len(),
{
    if events.len() == 0 {
        step
    } else {
        spec_run(spec_advance(step, events[0]), events.drop_first())
    }
}

/// Running the reports of `first` and then those of `second` is running
/// `first + second`.
pub proof fn lemma_run_concat(step: StepView, first: Seq<EventView>, second: Seq<EventView>)
    ensures
        spec_run(step, first + second) == spec_run(spec_run(step, first), second),
    decreases first.len(),
{
    if first.len() == 0 {
        assert(first + second =~= second);
    } else {
        assert((first + second).drop_first() =~= first.drop_first() + second);
        lemma_run_concat(spec_advance(step, first[0]), first.drop_first(), second);
    }
}

/// Running a single report is one transition.
pub proof fn lemma_run_one(step: StepView, event: EventView)
    ensures
        spec_run(step, seq![event]) == spec_advance(step, event),
{
    let events = seq![event];
    assert(events.drop_first().len() == 0);
    assert(spec_run(spec_advance(step, event), events.drop_first()) == spec_advance(step, event));
}

/// A request in flight. It holds the session until the request ends.
#[derive(Debug)]
pub struct Exchange {
    session: GoXLRUSB,
    command: CommandId,
    body: Vec<u8>,
    stage: Stage,
    polls: u8,
}

impl Exchange {
    /// The request as plain values.
    pub closed spec fn view(&self) -> ExchangeView {
        ExchangeView {
            session: self.session@,
            command: self.command@,
            body: self.body@,
            stage: self.stage,
            polls: self.polls as nat,
        }
    }

    #[verifier::type_invariant]
    spec fn well_formed(&self) -> bool {
        self@.wf()
    }

    /// The leg that the request is in.
    pub fn stage(&self) -> (stage: Stage)
        ensures
            stage == self@.stage,
    {
        self.stage
    }

    /// The sequence number of the frame in flight.
    pub fn sequence(&self) -> (sequence: u16)
        ensures
            sequence == self@.sequence(),
    {
        self.session.command_count()
    }

    /// The caller's command.
    pub fn command(&self) -> (command: CommandId)
        ensures
            command@ == self@.command,
    {
        self.command
    }

    /// How many polls for the frame in flight found the device not ready:
    /// fewer than twenty.
    pub fn polls(&self) -> (polls: u8)
        ensures
            polls == self@.polls,
            polls < POLL_ATTEMPTS,
    {
        proof {
            use_type_invariant(self);
        }
        self.polls
    }

    /// The delay to keep before each poll, in milliseconds.
    pub fn settle_delay_ms(&self) -> (ms: u64)
        ensures
            ms == self@.session.settle_delay_ms(),
    {
        self.session.settle_delay_ms()
    }
}

/// The parameters of one control transfer. Every transfer is a vendor
/// request to the interface on endpoint 0.
#[derive(Clone, Copy, Debug, PartialEq, Eq, Structural)]
pub struct ControlSetup {
    /// The request code.
    pub request: u8,
    /// The value field.
    pub value: u16,
    /// The index field.
    pub index: u16,
    /// How long to wait for the transfer, in milliseconds.
    pub timeout_ms: u64,
}

/// A request whose frame waits to be sent.
#[derive(Debug)]
pub struct Sending {
    exchange: Exchange,
    frame: Vec<u8>,
}

/// A request whose frame was sent and whose response is polled for.
#[derive(Debug)]
pub struct Polling {
    exchange: Exchange,
}

/// What the caller does next.
#[derive(Debug)]
pub enum Step {
    /// Send the frame of this request in an outbound transfer, then report
    /// with `Sending::written`.
    Write(Sending),
    /// Wait for the settle delay, make one inbound transfer, then report
    /// with `Polling::polled`.
    Poll(Polling),
    /// The request is over: the session and the result.
    Done(GoXLRUSB, Result<Vec<u8>, RequestError>),
}

/// The result of a request as plain values.
pub open spec fn result_view(result: Result<Vec<u8>, RequestError>) -> Result<
    Seq<u8>,
    RequestError,
> {
    match result {
        Ok(body) => Ok(body@),
        Err(e) => Err(e),
    }
}

impl Step {
    /// The step as plain values.
    pub open spec fn view(&self) -> StepView {
        match *self {
            Step::Write(sending) => StepView::Write(sending@, sending.frame()),
            Step::Poll(polling) => StepView::Poll(polling@),
            Step::Done(session, result) => StepView::Done(session@, result_view(result)),
        }
    }
}

/// Assigns the sequence number of leg `stage` and builds its frame.
fn launch(session: GoXLRUSB, command: CommandId, body: Vec<u8>, stage: Stage) -> (step: Step)
    requires
        body@.len() <= MAX_BODY_LEN,
        wire_command(stage, command@) != RESET_SEQUENCE_ID ==> session@.command_count < u16::MAX,
    ensures
        step@ == spec_launch(session@, command@, body@, stage),
{
    let on_wire = if stage.is_inserted_reset() {
        CommandId::reset_sequence()
    } else {
        command
    };
    let sequence: u16 = if on_wire.is_reset() {
        0
    } else {
        session.command_count() + 1
    };
    let session = session.with_count(sequence);
    let framed = if stage.is_inserted_reset() {
        let empty: Vec<u8> = Vec::new();
        frame(on_wire, sequence, empty.as_slice())
    } else {
        frame(on_wire, sequence, body.as_slice())
    };
    match framed {
        Ok(bytes) => {
            assert(wire_body(stage, body@) =~= if stage.spec_is_inserted_reset() {
                Seq::<u8>::empty()
            } else {
                body@
            });
            Step::Write(
                Sending { exchange: Exchange { session, command, body, stage, polls: 0 }, frame: bytes },
            )
        },
        Err(e) => {
            assert(false);
            Step::Done(session, Err(e))
        },
    }
}

impl GoXLRUSB {
    /// Begins the request for `command` with `body`. The session goes into
    /// the request and comes back in `Step::Done`.
    pub fn start(self, command: CommandId, body: &[u8]) -> (step: Step)
        ensures
            step@ == spec_start(self@, command@, body@),
            step@.wf(),
    {
        if body.len() > MAX_BODY_LEN {
            return Step::Done(self, Err(RequestError::BodyTooLarge));
        }
        let mut owned: Vec<u8> = Vec::new();
        owned.extend_from_slice(body);
        assert(owned@ =~= body@);
        if !command.is_reset() && self.command_count() == u16::MAX {
            launch(self, command, owned, Stage::Prelude)
        } else {
            launch(self, command, owned, Stage::First)
        }
    }
}

impl Sending {
    /// The request as plain values.
    pub closed spec fn view(&self) -> ExchangeView {
        self.exchange@
    }

    /// The request in flight.
    pub fn request(&self) -> (request: &Exchange)
        ensures
            request@ == self@,
    {
        &self.exchange
    }

    /// The frame to send, as plain values.
    pub closed spec fn frame(&self) -> Seq<u8> {
        self.frame@
    }

    /// The frame to send.
    pub fn bytes(&self) -> (bytes: &Vec<u8>)
        ensures
            bytes@ == self.frame(),
    {
        &self.frame
    }

    /// The parameters of the outbound transfer: the request code for
    /// commands and the fixed timeout.
    pub fn setup(&self) -> (setup: ControlSetup)
        ensures
            setup == (ControlSetup {
                request: REQUEST_COMMAND,
                value: 0,
                index: 0,
                timeout_ms: TRANSFER_TIMEOUT_MS,
            }),
    {
        ControlSetup { request: REQUEST_COMMAND, value: 0, index: 0, timeout_ms: TRANSFER_TIMEOUT_MS }
    }

    /// Reports the outcome of the outbound transfer.
    pub fn written(self, outcome: Result<(), TransportFault>) -> (step: Step)
        ensures
            step@ == spec_written(self@, outcome),
            step@.wf(),
    {
        proof {
            use_type_invariant(&self.exchange);
        }
        match outcome {
            Err(fault) => Step::Done(self.exchange.session, Err(RequestError::TransportError(fault))),
            Ok(_) => Step::Poll(Polling { exchange: self.exchange }),
        }
    }
}

/// The outcome of an inbound transfer as plain values.
pub open spec fn read_view(outcome: Result<Vec<u8>, TransportFault>) -> Result<
    Seq<u8>,
    TransportFault,
> {
    match outcome {
        Ok(bytes) => Ok(bytes@),
        Err(fault) => Err(fault),
    }
}

impl Polling {
    /// The request as plain values.
    pub closed spec fn view(&self) -> ExchangeView {
        self.exchange@
    }

    /// The request in flight.
    pub fn request(&self) -> (request: &Exchange)
        ensures
            request@ == self@,
    {
        &self.exchange
    }

    /// The delay to keep before the poll, in milliseconds.
    pub fn settle_delay_ms(&self) -> (ms: u64)
        ensures
            ms == self@.session.settle_delay_ms(),
    {
        self.exchange.settle_delay_ms()
    }

    /// The parameters of the inbound transfer: the request code for
    /// responses and the fixed timeout.
    pub fn setup(&self) -> (setup: ControlSetup)
        ensures
            setup == (ControlSetup {
                request: REQUEST_RESPONSE,
                value: 0,
                index: 0,
                timeout_ms: TRANSFER_TIMEOUT_MS,
            }),
    {
        ControlSetup { request: REQUEST_RESPONSE, value: 0, index: 0, timeout_ms: TRANSFER_TIMEOUT_MS }
    }

    /// The most bytes that the inbound transfer asks for.
    pub fn max_len(&self) -> (len: usize)
        ensures
            len == MAX_RESPONSE_LEN,
    {
        MAX_RESPONSE_LEN
    }

    /// Reports the outcome of the inbound transfer.
    pub fn polled(self, outcome: Result<Vec<u8>, TransportFault>) -> (step: Step)
        ensures
            step@ == spec_polled(self@, read_view(outcome)),
            step@.wf(),
    {
        let ex = self.exchange;
        proof {
            use_type_invariant(&ex);
        }
        match outcome {
            Err(fault) => {
                if fault == TransportFault::Pipe {
                    if ex.polls + 1 < POLL_ATTEMPTS {
                        Step::Poll(
                            Polling {
                                exchange: Exchange {
                                    session: ex.session,
                                    command: ex.command,
                                    body: ex.body,
                                    stage: ex.stage,
                                    polls: ex.polls + 1,
                                },
                            },
                        )
                    } else {
                        Step::Done(ex.session, Err(RequestError::ResponseTimeout))
                    }
                } else {
                    Step::Done(ex.session, Err(RequestError::TransportError(fault)))
                }
            },
            Ok(bytes) => {
                let mut bytes = bytes;
                match decode_header(&bytes) {
                    None => Step::Done(ex.session, Err(RequestError::MalformedResponse)),
                    Some(header) => {
                        if header.sequence != ex.session.command_count() {
                            match ex.stage {
                                Stage::First => launch(
                                    ex.session,
                                    ex.command,
                                    ex.body,
                                    Stage::Resync,
                                ),
                                _ => Step::Done(ex.session, Err(RequestError::ResyncExhausted)),
                            }
                        } else {
                            let response = bytes.split_off(HEADER_LEN);
                            if response.len() != header.length as usize {
                                Step::Done(ex.session, Err(RequestError::MalformedResponse))
                            } else {
                                match ex.stage {
                                    Stage::Prelude => launch(
                                        ex.session,
                                        ex.command,
                                        ex.body,
                                        Stage::First,
                                    ),
                                    Stage::Resync => launch(
                                        ex.session,
                                        ex.command,
                                        ex.body,
                                        Stage::Retry,
                                    ),
                                    _ => Step::Done(ex.session, Ok(response)),
                                }
                            }
                        }
                    },
                }
            },
        }
    }
}

/// What the caller reports: the outcome of the transfer that the last step
/// asked for.
#[derive(Debug)]
pub enum Event {
    /// The outcome of an outbound transfer.
    Written(Result<(), TransportFault>),
    /// The outcome of an inbound transfer: the bytes read, or the failure.
    Read(Result<Vec<u8>, TransportFault>),
}

impl Event {
    /// The report as plain values.
    pub open spec fn view(&self) -> EventView {
        match *self {
            Event::Written(outcome) => EventView::Written(outcome),
            Event::Read(outcome) => EventView::Read(read_view(outcome)),
        }
    }
}

/// A list of reports as plain values.
pub open spec fn events_view(events: Seq<Event>) -> Seq<EventView> {
    events.map_values(|event: Event| event@)
}

impl Step {
    /// Whether the request is over.
    pub fn is_done(&self) -> (done: bool)
        ensures
            done == (self@ is Done),
    {
        match self {
            Step::Done(_, _) => true,
            _ => false,
        }
    }

    /// Hands the reports of `events` to the state machine, one after the
    /// other.
    pub fn run(self, events: Vec<Event>) -> (step: Step)
        ensures
            step@ == spec_run(self@, events_view(events@)),
            self@.wf() ==> step@.wf(),
    {
        let ghost start = self@;
        let ghost all = events_view(events@);
        let mut step = self;
        assert(all.subrange(0, 0) =~= Seq::<EventView>::empty());
        for event in it: events
            invariant
                all == events_view(events@),
                it.seq() == events@,
                step@ == spec_run(start, all.subrange(0, it.index() as int)),
                start.wf() ==> step@.wf(),
        {
            proof {
                let done = all.subrange(0, it.index() as int);
                assert(all.subrange(0, it.index() + 1) =~= done + seq![event@]);
                lemma_run_concat(start, done, seq![event@]);
                lemma_run_one(spec_run(start, done), event@);
            }
            step = step.advance(event);
        }
        assert(all.subrange(0, all.len() as int) =~= all);
        step
    }

    /// Hands one report to the state machine. A report that the step did
    /// not ask for changes nothing.
    pub fn advance(self, event: Event) -> (step: Step)
        ensures
            step@ == spec_advance(self@, event@),
            self@.wf() ==> step@.wf(),
    {
        match self {
            Step::Write(sending) => match event {
                Event::Written(outcome) => sending.written(outcome),
                Event::Read(_) => Step::Write(sending),
            },
            Step::Poll(polling) => match event {
                Event::Read(outcome) => polling.polled(outcome),
                Event::Written(_) => Step::Poll(polling),
            },
            Step::Done(session, result) => Step::Done(session, result),
        }
    }
}

} // verus!
