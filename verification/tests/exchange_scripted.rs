use goxlr_core::error::{RequestError, TransportFault};
use goxlr_core::exchange::{Event, Stage, Step, POLL_ATTEMPTS};
use goxlr_core::session::{GoXLRUSB, PID_GOXLR_FULL, PID_GOXLR_MINI};
use goxlr_core::wire::{frame, CommandId};

/// A transport that answers from a script and records what it was asked.
struct Script {
    write_outcomes: Vec<Result<(), TransportFault>>,
    read_outcomes: Vec<Result<Vec<u8>, TransportFault>>,
    written: Vec<Vec<u8>>,
    delays: Vec<u64>,
    polls: usize,
}

impl Script {
    fn reads(read_outcomes: Vec<Result<Vec<u8>, TransportFault>>) -> Script {
        Script { write_outcomes: Vec::new(), read_outcomes, written: Vec::new(), delays: Vec::new(), polls: 0 }
    }

    fn left(&self) -> usize {
        self.read_outcomes.len() - self.polls
    }
}

fn execute(
    session: GoXLRUSB,
    command: CommandId,
    body: &[u8],
    script: &mut Script,
) -> (GoXLRUSB, Result<Vec<u8>, RequestError>) {
    let mut step = session.start(command, body);
    loop {
        match step {
            Step::Write(sending) => {
                script.written.push(sending.bytes().clone());
                let outcome = if script.written.len() <= script.write_outcomes.len() {
                    script.write_outcomes[script.written.len() - 1]
                } else {
                    Ok(())
                };
                step = sending.written(outcome);
            }
            Step::Poll(polling) => {
                assert!(script.polls < script.read_outcomes.len(), "polled beyond the script");
                script.delays.push(polling.settle_delay_ms());
                let outcome = script.read_outcomes[script.polls].clone();
                script.polls += 1;
                step = polling.polled(outcome);
            }
            Step::Done(session, result) => return (session, result),
        }
    }
}

fn response(sequence: u16, body: &[u8]) -> Vec<u8> {
    frame(CommandId::from_id(0x0080_0001), sequence, body).unwrap()
}

fn not_ready(count: usize) -> Vec<Result<Vec<u8>, TransportFault>> {
    vec![Err(TransportFault::Pipe); count]
}

const COMMAND: u32 = 0x0080_4001;

#[test]
fn a_matching_response_is_returned() {
    let mut script = Script::reads(vec![Ok(response(1, &[1, 2, 3]))]);
    let session = GoXLRUSB::new(PID_GOXLR_FULL);
    let (session, result) = execute(session, CommandId::from_id(COMMAND), &[7, 7], &mut script);
    assert_eq!(result, Ok(vec![1, 2, 3]));
    assert_eq!(session.command_count(), 1);
    assert_eq!(script.written, vec![frame(CommandId::from_id(COMMAND), 1, &[7, 7]).unwrap()]);
    assert_eq!(script.polls, 1);
    assert_eq!(script.delays, vec![3]);
}

#[test]
fn sequence_numbers_count_up_from_one() {
    let mut session = GoXLRUSB::new(PID_GOXLR_FULL);
    for n in 1..=300u16 {
        let mut script = Script::reads(vec![Ok(response(n, &[]))]);
        let (next, result) = execute(session, CommandId::from_id(COMMAND), &[], &mut script);
        assert_eq!(result, Ok(Vec::new()));
        assert_eq!(script.written.len(), 1);
        assert_eq!(&script.written[0][6..8], &n.to_le_bytes());
        assert_eq!(next.command_count(), n);
        session = next;
    }
}

#[test]
fn a_reset_is_inserted_when_the_counter_is_at_its_maximum() {
    let mut session = GoXLRUSB::new(PID_GOXLR_FULL);
    for n in 1..=65535u16 {
        let mut script = Script::reads(vec![Ok(response(n, &[]))]);
        let (next, result) = execute(session, CommandId::from_id(COMMAND), &[], &mut script);
        assert!(result.is_ok());
        session = next;
    }
    assert_eq!(session.command_count(), 65535);
    let mut script = Script::reads(vec![Ok(response(0, &[])), Ok(response(1, &[42]))]);
    let (session, result) = execute(session, CommandId::from_id(COMMAND), &[5], &mut script);
    assert_eq!(result, Ok(vec![42]));
    assert_eq!(session.command_count(), 1);
    assert_eq!(
        script.written,
        vec![
            frame(CommandId::reset_sequence(), 0, &[]).unwrap(),
            frame(CommandId::from_id(COMMAND), 1, &[5]).unwrap(),
        ]
    );
    let mut script = Script::reads(vec![Ok(response(2, &[]))]);
    let (session, result) = execute(session, CommandId::from_id(COMMAND), &[], &mut script);
    assert!(result.is_ok());
    assert_eq!(session.command_count(), 2);
}

#[test]
fn a_mismatch_after_the_inserted_reset_is_final() {
    let mut session = GoXLRUSB::new(PID_GOXLR_FULL);
    for n in 1..=65535u16 {
        let mut script = Script::reads(vec![Ok(response(n, &[]))]);
        session = execute(session, CommandId::from_id(COMMAND), &[], &mut script).0;
    }
    let mut script = Script::reads(vec![Ok(response(9, &[])), Ok(response(0, &[]))]);
    let (session, result) = execute(session, CommandId::from_id(COMMAND), &[5], &mut script);
    assert_eq!(result, Err(RequestError::ResyncExhausted));
    assert_eq!(session.command_count(), 0);
    assert_eq!(script.written.len(), 1);
    assert_eq!(script.polls, 1);
}

#[test]
fn a_reset_command_uses_sequence_zero() {
    let session = GoXLRUSB::new(PID_GOXLR_FULL);
    let mut script = Script::reads(vec![Ok(response(1, &[]))]);
    let (session, _) = execute(session, CommandId::from_id(COMMAND), &[], &mut script);
    let mut script = Script::reads(vec![Ok(response(2, &[]))]);
    let (session, _) = execute(session, CommandId::from_id(COMMAND), &[], &mut script);
    assert_eq!(session.command_count(), 2);
    let mut script = Script::reads(vec![Ok(response(0, &[8]))]);
    let (session, result) = execute(session, CommandId::reset_sequence(), &[], &mut script);
    assert_eq!(result, Ok(vec![8]));
    assert_eq!(session.command_count(), 0);
    assert_eq!(script.written, vec![vec![0u8; 16]]);
}

#[test]
fn success_on_the_twentieth_poll() {
    let mut reads = not_ready(19);
    reads.push(Ok(response(1, &[0xaa, 0xbb])));
    let mut script = Script::reads(reads);
    let session = GoXLRUSB::new(PID_GOXLR_FULL);
    let (_, result) = execute(session, CommandId::from_id(COMMAND), &[], &mut script);
    assert_eq!(result, Ok(vec![0xaa, 0xbb]));
    assert_eq!(script.polls, 20);
    assert_eq!(script.written.len(), 1);
}

#[test]
fn timeout_after_twenty_polls() {
    let mut reads = not_ready(20);
    reads.push(Ok(response(1, &[0xaa, 0xbb])));
    let mut script = Script::reads(reads);
    let session = GoXLRUSB::new(PID_GOXLR_MINI);
    let (session, result) = execute(session, CommandId::from_id(COMMAND), &[], &mut script);
    assert_eq!(result, Err(RequestError::ResponseTimeout));
    assert_eq!(script.polls, 20);
    assert_eq!(script.left(), 1);
    assert_eq!(script.delays, vec![10; 20]);
    assert_eq!(session.command_count(), 1);
    assert_eq!(POLL_ATTEMPTS, 20);
}

#[test]
fn one_mismatch_is_recovered_from() {
    let mut script = Script::reads(vec![
        Ok(response(7, &[1])),
        Ok(response(0, &[])),
        Ok(response(1, &[2, 3])),
    ]);
    let session = GoXLRUSB::new(PID_GOXLR_FULL);
    let (session, result) = execute(session, CommandId::from_id(COMMAND), &[9], &mut script);
    assert_eq!(result, Ok(vec![2, 3]));
    assert_eq!(session.command_count(), 1);
    assert_eq!(
        script.written,
        vec![
            frame(CommandId::from_id(COMMAND), 1, &[9]).unwrap(),
            frame(CommandId::reset_sequence(), 0, &[]).unwrap(),
            frame(CommandId::from_id(COMMAND), 1, &[9]).unwrap(),
        ]
    );
    assert_eq!(script.polls, 3);
}

#[test]
fn two_mismatches_exhaust_the_resync() {
    let mut script = Script::reads(vec![
        Ok(response(7, &[1])),
        Ok(response(0, &[])),
        Ok(response(7, &[1])),
        Ok(response(1, &[2, 3])),
    ]);
    let session = GoXLRUSB::new(PID_GOXLR_FULL);
    let (_, result) = execute(session, CommandId::from_id(COMMAND), &[9], &mut script);
    assert_eq!(result, Err(RequestError::ResyncExhausted));
    assert_eq!(script.written.len(), 3);
    assert_eq!(script.polls, 3);
    assert_eq!(script.left(), 1);
}

#[test]
fn a_mismatch_during_the_resync_reset_is_final() {
    let mut script = Script::reads(vec![Ok(response(7, &[1])), Ok(response(5, &[]))]);
    let session = GoXLRUSB::new(PID_GOXLR_FULL);
    let (_, result) = execute(session, CommandId::from_id(COMMAND), &[9], &mut script);
    assert_eq!(result, Err(RequestError::ResyncExhausted));
    assert_eq!(script.written.len(), 2);
}

#[test]
fn each_frame_has_its_own_twenty_polls() {
    let mut reads = not_ready(19);
    reads.push(Ok(response(7, &[1])));
    reads.extend(not_ready(19));
    reads.push(Ok(response(0, &[])));
    reads.extend(not_ready(19));
    reads.push(Ok(response(1, &[4])));
    let mut script = Script::reads(reads);
    let session = GoXLRUSB::new(PID_GOXLR_FULL);
    let (_, result) = execute(session, CommandId::from_id(COMMAND), &[9], &mut script);
    assert_eq!(result, Ok(vec![4]));
    assert_eq!(script.polls, 60);
}

#[test]
fn a_failed_write_is_fatal() {
    let mut script = Script::reads(vec![Ok(response(1, &[]))]);
    script.write_outcomes = vec![Err(TransportFault::NoDevice)];
    let session = GoXLRUSB::new(PID_GOXLR_FULL);
    let (_, result) = execute(session, CommandId::from_id(COMMAND), &[], &mut script);
    assert_eq!(result, Err(RequestError::TransportError(TransportFault::NoDevice)));
    assert_eq!(script.polls, 0);
}

#[test]
fn a_stalled_write_is_fatal_too() {
    let mut script = Script::reads(vec![Ok(response(1, &[]))]);
    script.write_outcomes = vec![Err(TransportFault::Pipe)];
    let session = GoXLRUSB::new(PID_GOXLR_FULL);
    let (_, result) = execute(session, CommandId::from_id(COMMAND), &[], &mut script);
    assert_eq!(result, Err(RequestError::TransportError(TransportFault::Pipe)));
    assert_eq!(script.polls, 0);
}

#[test]
fn a_failed_read_is_fatal() {
    let mut reads = not_ready(3);
    reads.push(Err(TransportFault::Timeout));
    reads.push(Ok(response(1, &[])));
    let mut script = Script::reads(reads);
    let session = GoXLRUSB::new(PID_GOXLR_FULL);
    let (_, result) = execute(session, CommandId::from_id(COMMAND), &[], &mut script);
    assert_eq!(result, Err(RequestError::TransportError(TransportFault::Timeout)));
    assert_eq!(script.polls, 4);
}

#[test]
fn a_short_response_is_malformed() {
    let mut script = Script::reads(vec![Ok(vec![0u8; 15]), Ok(response(1, &[]))]);
    let session = GoXLRUSB::new(PID_GOXLR_FULL);
    let (_, result) = execute(session, CommandId::from_id(COMMAND), &[], &mut script);
    assert_eq!(result, Err(RequestError::MalformedResponse));
    assert_eq!(script.polls, 1);
}

#[test]
fn a_response_with_a_wrong_length_is_malformed() {
    let mut bytes = response(1, &[1, 2, 3]);
    bytes.push(4);
    let mut script = Script::reads(vec![Ok(bytes)]);
    let session = GoXLRUSB::new(PID_GOXLR_FULL);
    let (_, result) = execute(session, CommandId::from_id(COMMAND), &[], &mut script);
    assert_eq!(result, Err(RequestError::MalformedResponse));
}

#[test]
fn a_mismatch_is_checked_before_the_length() {
    let mut stray = response(9, &[1, 2, 3]);
    stray.push(4);
    let mut script =
        Script::reads(vec![Ok(stray), Ok(response(0, &[])), Ok(response(1, &[6]))]);
    let session = GoXLRUSB::new(PID_GOXLR_FULL);
    let (_, result) = execute(session, CommandId::from_id(COMMAND), &[], &mut script);
    assert_eq!(result, Ok(vec![6]));
}

#[test]
fn a_body_that_is_too_large_never_reaches_the_wire() {
    let mut script = Script::reads(Vec::new());
    let session = GoXLRUSB::new(PID_GOXLR_FULL);
    let body = vec![0u8; 65536];
    let (session, result) = execute(session, CommandId::from_id(COMMAND), &body, &mut script);
    assert_eq!(result, Err(RequestError::BodyTooLarge));
    assert_eq!(session.command_count(), 0);
    assert!(script.written.is_empty());
}

#[test]
fn the_session_is_usable_after_a_failure() {
    let mut script = Script::reads(not_ready(20));
    let session = GoXLRUSB::new(PID_GOXLR_FULL);
    let (session, result) = execute(session, CommandId::from_id(COMMAND), &[], &mut script);
    assert_eq!(result, Err(RequestError::ResponseTimeout));
    let mut script = Script::reads(vec![Ok(response(2, &[1]))]);
    let (session, result) = execute(session, CommandId::from_id(COMMAND), &[], &mut script);
    assert_eq!(result, Ok(vec![1]));
    assert_eq!(session.command_count(), 2);
}

#[test]
fn stages_and_sequence_are_visible_while_in_flight() {
    let session = GoXLRUSB::new(PID_GOXLR_FULL);
    let step = session.start(CommandId::from_id(COMMAND), &[1]);
    assert!(!step.is_done());
    let step = step.advance(Event::Written(Ok(())));
    assert!(matches!(step, Step::Poll(_)));
    let step = step.advance(Event::Read(Ok(response(4, &[]))));
    let step = match step {
        Step::Write(sending) => {
            assert_eq!(sending.bytes(), &vec![0u8; 16]);
            Step::Write(sending)
        }
        other => panic!("expected a frame to send, got {:?}", other),
    };
    let step = step.advance(Event::Written(Ok(())));
    let step = step.advance(Event::Read(Ok(response(0, &[]))));
    let step = step.advance(Event::Written(Ok(())));
    let step = step.advance(Event::Read(Ok(response(1, &[3]))));
    assert!(step.is_done());
    match step {
        Step::Done(session, result) => {
            assert_eq!(result, Ok(vec![3]));
            assert_eq!(session.command_count(), 1);
        }
        other => panic!("expected the end, got {:?}", other),
    }
    assert_eq!(Stage::First, Stage::First);
}

#[test]
fn a_report_out_of_turn_changes_nothing() {
    let session = GoXLRUSB::new(PID_GOXLR_FULL);
    let step = session.start(CommandId::from_id(COMMAND), &[1]);
    let step = step.advance(Event::Read(Ok(response(1, &[9]))));
    let expected = frame(CommandId::from_id(COMMAND), 1, &[1]).unwrap();
    let step = match step {
        Step::Write(sending) => {
            assert_eq!(sending.bytes(), &expected);
            sending.written(Ok(()))
        }
        other => panic!("expected a frame to send, got {:?}", other),
    };
    let step = step.advance(Event::Written(Err(TransportFault::Io)));
    assert!(matches!(step, Step::Poll(_)));
    let step = step.advance(Event::Read(Ok(response(1, &[9]))));
    let step = step.advance(Event::Read(Err(TransportFault::Io)));
    match step {
        Step::Done(_, result) => assert_eq!(result, Ok(vec![9])),
        other => panic!("expected the end, got {:?}", other),
    }
}

#[test]
fn run_feeds_a_whole_script() {
    let session = GoXLRUSB::new(PID_GOXLR_FULL);
    let step = session.start(CommandId::from_id(COMMAND), &[1]);
    let step = step.run(vec![
        Event::Written(Ok(())),
        Event::Read(Err(TransportFault::Pipe)),
        Event::Read(Err(TransportFault::Pipe)),
        Event::Read(Ok(response(1, &[5, 6]))),
        Event::Read(Ok(response(1, &[7]))),
    ]);
    match step {
        Step::Done(session, result) => {
            assert_eq!(result, Ok(vec![5, 6]));
            assert_eq!(session.command_count(), 1);
        }
        other => panic!("expected the end, got {:?}", other),
    }
}

#[test]
fn run_stops_where_the_script_ends() {
    let session = GoXLRUSB::new(PID_GOXLR_FULL);
    let step = session.start(CommandId::from_id(COMMAND), &[1]);
    let mut events = vec![Event::Written(Ok(()))];
    for _ in 0..19 {
        events.push(Event::Read(Err(TransportFault::Pipe)));
    }
    let step = step.run(events);
    match step {
        Step::Poll(polling) => {
            assert_eq!(polling.request().polls(), 19);
            assert_eq!(polling.request().sequence(), 1);
            assert_eq!(polling.request().stage(), Stage::First);
            assert_eq!(polling.request().command(), CommandId::from_id(COMMAND));
            let step = polling.polled(Err(TransportFault::Pipe));
            assert!(matches!(step, Step::Done(_, Err(RequestError::ResponseTimeout))));
        }
        other => panic!("expected a poll, got {:?}", other),
    }
}

#[test]
fn transfers_use_the_fixed_parameters() {
    let session = GoXLRUSB::new(PID_GOXLR_MINI);
    let step = session.start(CommandId::from_id(COMMAND), &[]);
    let sending = match step {
        Step::Write(sending) => sending,
        other => panic!("expected a frame to send, got {:?}", other),
    };
    let setup = sending.setup();
    assert_eq!((setup.request, setup.value, setup.index, setup.timeout_ms), (2, 0, 0, 1000));
    assert_eq!(sending.request().stage(), Stage::First);
    let polling = match sending.written(Ok(())) {
        Step::Poll(polling) => polling,
        other => panic!("expected a poll, got {:?}", other),
    };
    let setup = polling.setup();
    assert_eq!((setup.request, setup.value, setup.index, setup.timeout_ms), (3, 0, 0, 1000));
    assert_eq!(polling.max_len(), 1040);
    assert_eq!(polling.settle_delay_ms(), 10);
    assert_eq!(polling.request().settle_delay_ms(), 10);
}

#[test]
fn the_stages_of_a_resync() {
    let session = GoXLRUSB::new(PID_GOXLR_FULL);
    let step = session.start(CommandId::from_id(COMMAND), &[1]);
    let step = step.run(vec![Event::Written(Ok(())), Event::Read(Ok(response(3, &[])))]);
    let sending = match step {
        Step::Write(sending) => sending,
        other => panic!("expected a frame to send, got {:?}", other),
    };
    assert_eq!(sending.request().stage(), Stage::Resync);
    assert_eq!(sending.request().sequence(), 0);
    assert!(Stage::Resync.is_inserted_reset());
    assert!(Stage::Prelude.is_inserted_reset());
    assert!(!Stage::First.is_inserted_reset());
    assert!(!Stage::Retry.is_inserted_reset());
    let step = sending.written(Ok(())).run(vec![Event::Read(Ok(response(0, &[])))]);
    let sending = match step {
        Step::Write(sending) => sending,
        other => panic!("expected a frame to send, got {:?}", other),
    };
    assert_eq!(sending.request().stage(), Stage::Retry);
    assert_eq!(sending.request().sequence(), 1);
}
