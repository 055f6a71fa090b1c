use std::collections::VecDeque;

use serpico::protocol::{Action, Event, ExecError};
use serpico::session::{negotiate, window_size, Phase, Session};

const RAW_BANNER: &[u8] = b"raw REPL; CTRL-B to exit\r\n";
const REBOOT_BANNER: &[u8] = b"soft reboot\r\n";

/// A device that answers the k-th write with `replies[k]`.
struct ScriptedDevice {
    replies: Vec<Vec<u8>>,
    inbox: VecDeque<u8>,
    writes: Vec<Vec<u8>>,
}

impl ScriptedDevice {
    fn new(replies: Vec<Vec<u8>>) -> Self {
        ScriptedDevice { replies, inbox: VecDeque::new(), writes: Vec::new() }
    }

    fn write(&mut self, bytes: Vec<u8>) {
        let k = self.writes.len();
        self.writes.push(bytes);
        if k < self.replies.len() {
            self.inbox.extend(self.replies[k].iter().copied());
        }
    }

    fn read(&mut self) -> Event {
        match self.inbox.pop_front() {
            Some(b) => Event::Byte(b),
            None => Event::TimedOut,
        }
    }
}

struct Outcome {
    result: Result<(), ExecError>,
    writes: Vec<Vec<u8>>,
    echoed: Vec<u8>,
    trace: Vec<String>,
}

fn run(script: &[u8], budget: Option<usize>, replies: Vec<Vec<u8>>) -> Outcome {
    let mut device = ScriptedDevice::new(replies);
    let mut session = Session::new(script.to_vec(), budget);
    let mut echoed = Vec::new();
    let mut trace = Vec::new();
    for _ in 0..100_000 {
        let action = session.next_action();
        trace.push(format!("{:?}", action));
        let event = match action {
            Action::Finish(result) => {
                return Outcome { result, writes: device.writes, echoed, trace };
            }
            Action::Write(bytes) => {
                device.write(bytes);
                Event::Written
            }
            Action::Read | Action::WaitThenRead => device.read(),
            Action::QueryPending => Event::Pending(device.inbox.len()),
        };
        trace.push(format!("{:?}", event));
        if let Some(b) = session.step(event) {
            echoed.push(b);
        }
    }
    panic!("session did not finish");
}

fn handshake_replies(answer: &[u8]) -> Vec<Vec<u8>> {
    let mut after_reset = REBOOT_BANNER.to_vec();
    after_reset.extend_from_slice(RAW_BANNER);
    after_reset.push(b'>');
    vec![
        b"stale output".to_vec(),
        RAW_BANNER.to_vec(),
        after_reset,
        answer.to_vec(),
    ]
}

fn handshake_writes() -> Vec<Vec<u8>> {
    vec![vec![b'\r', 3, 3], vec![b'\r', 1], vec![4], vec![5, b'A', 1]]
}

#[test]
fn script_runs_and_output_is_captured() {
    let mut replies = handshake_replies(&[b'R', 1, 64, 0, 1]);
    replies.push(b"\x04hello\x04\x04".to_vec());
    let out = run(b"print('hello')", Some(10), replies);
    assert_eq!(out.result, Ok(()));
    let mut expected = handshake_writes();
    expected.push(b"print('hello')".to_vec());
    expected.push(vec![4]);
    assert_eq!(out.writes, expected);
    assert_eq!(out.echoed, b"hello\x04\x04".to_vec());
}

#[test]
fn unsupported_bulk_mode_fails_before_any_payload() {
    let out = run(b"x = 1", Some(10), handshake_replies(&[b'R', 0]));
    assert_eq!(out.result, Err(ExecError::UnsupportedBulkMode));
    assert_eq!(out.writes, handshake_writes());
}

#[test]
fn unknown_answer_fails() {
    let out = run(b"x = 1", Some(10), handshake_replies(&[b'R', 7]));
    assert_eq!(out.result, Err(ExecError::UnknownResponse));
    assert_eq!(out.writes, handshake_writes());
}

#[test]
fn window_of_256_sends_300_bytes_as_256_then_44() {
    let payload = vec![b'a'; 300];
    let mut replies = handshake_replies(&[b'R', 1, 0x00, 0x01, 0x01]);
    replies.push(vec![0x01]);
    replies.push(b"\x04\x04\x04".to_vec());
    let out = run(&payload, Some(10), replies);
    assert_eq!(out.result, Ok(()));
    let sent: Vec<usize> = out.writes[4..].iter().map(|w| w.len()).collect();
    assert_eq!(sent, vec![256, 44, 1]);
    assert_eq!(out.writes[4], payload[..256].to_vec());
    assert_eq!(out.writes[5], payload[256..].to_vec());
    assert_eq!(out.writes[6], vec![4]);
}

#[test]
fn nothing_is_sent_before_the_first_credit_grant() {
    let payload = vec![b'b'; 10];
    let out = run(&payload, Some(3), handshake_replies(&[b'R', 1, 0x00, 0x01]));
    assert_eq!(out.result, Err(ExecError::Timeout));
    assert_eq!(out.writes, handshake_writes());
}

#[test]
fn abrupt_end_is_answered_with_one_end_marker() {
    let payload = vec![b'c'; 20];
    let mut replies = handshake_replies(&[b'R', 1, 8, 0, 0x01]);
    replies.push(vec![0x04]);
    let out = run(&payload, Some(10), replies);
    assert_eq!(out.result, Err(ExecError::AbruptEnd));
    let mut expected = handshake_writes();
    expected.push(payload[..8].to_vec());
    expected.push(vec![4]);
    assert_eq!(out.writes, expected);
}

#[test]
fn unexpected_control_byte_is_a_protocol_error() {
    let mut replies = handshake_replies(&[b'R', 1, 8, 0, 0x01]);
    replies.push(vec![0x07]);
    let out = run(&[b'd'; 20], Some(10), replies);
    assert_eq!(out.result, Err(ExecError::ProtocolError(0x07)));
    assert_eq!(out.writes.len(), 5);
}

#[test]
fn control_bytes_waiting_are_read_before_sending() {
    let payload = vec![b'e'; 6];
    let mut replies = handshake_replies(&[b'R', 1, 4, 0, 0x01, 0x01]);
    replies.push(Vec::new());
    replies.push(b"\x04\x04\x04".to_vec());
    let out = run(&payload, Some(10), replies);
    assert_eq!(out.result, Ok(()));
    assert_eq!(out.writes[4], payload.clone());
    assert_eq!(out.writes[5], vec![4]);
}

#[test]
fn empty_script_sends_only_the_end_marker() {
    let mut replies = handshake_replies(&[b'R', 1, 32, 0]);
    replies.push(b"\x04\x04\x04".to_vec());
    let out = run(b"", Some(10), replies);
    assert_eq!(out.result, Ok(()));
    let mut expected = handshake_writes();
    expected.push(vec![4]);
    assert_eq!(out.writes, expected);
}

#[test]
fn silent_device_times_out() {
    let out = run(b"x", Some(4), vec![]);
    assert_eq!(out.result, Err(ExecError::Timeout));
    assert_eq!(out.writes, vec![vec![b'\r', 3, 3], vec![b'\r', 1]]);
}

#[test]
fn closed_stream_fails() {
    let mut session = Session::new(b"x".to_vec(), None);
    session.step(Event::Written);
    session.step(Event::Closed);
    assert_eq!(session.phase_of(), Phase::Failed(ExecError::StreamClosed));
    assert!(matches!(session.next_action(), Action::Finish(Err(ExecError::StreamClosed))));
}

#[test]
fn stderr_output_is_captured_too() {
    let mut replies = handshake_replies(&[b'R', 1, 64, 0, 1]);
    replies.push(b"\x04\x04Error\x04".to_vec());
    let out = run(b"raise", Some(10), replies);
    assert_eq!(out.result, Ok(()));
    assert_eq!(out.echoed, b"\x04Error\x04".to_vec());
}

#[test]
fn two_runs_give_the_same_trace() {
    let replies = || {
        let mut r = handshake_replies(&[b'R', 1, 16, 0, 1]);
        r.push(vec![1]);
        r.push(b"\x04out\x04\x04".to_vec());
        r
    };
    let script = b"for i in range(3):\n    print(i)\n";
    let first = run(script, Some(10), replies());
    let second = run(script, Some(10), replies());
    assert_eq!(first.result, Ok(()));
    assert_eq!(first.writes, second.writes);
    assert_eq!(first.trace, second.trace);
}

#[test]
fn negotiation_answers() {
    assert_eq!(negotiate(b'R', 0), Err(ExecError::UnsupportedBulkMode));
    assert_eq!(negotiate(b'R', 1), Ok(()));
    assert_eq!(negotiate(b'R', 2), Err(ExecError::UnknownResponse));
    assert_eq!(negotiate(b'Q', 1), Err(ExecError::UnknownResponse));
}

#[test]
fn window_size_is_little_endian() {
    assert_eq!(window_size(0x00, 0x01), 256);
    assert_eq!(window_size(0x80, 0x00), 128);
    assert_eq!(window_size(0xff, 0xff), 65535);
}

#[test]
fn banner_wait_gives_up_after_budget_plus_one_timeouts() {
    let mut session = Session::new(b"x".to_vec(), Some(1));
    session.step(Event::Written);
    session.step(Event::TimedOut);
    session.step(Event::Written);
    assert_eq!(session.phase_of(), Phase::AwaitRawBanner);
    session.step(Event::TimedOut);
    assert_eq!(session.phase_of(), Phase::AwaitRawBanner);
    assert!(matches!(session.next_action(), Action::WaitThenRead));
    session.step(Event::TimedOut);
    assert_eq!(session.phase_of(), Phase::Failed(ExecError::Timeout));
}
