use serpico::discovery::{is_target_port, pick_device, target_ports, DiscoveryError, PortInfo};
use serpico::idle::{budget_for_seconds, IdleClock};
use serpico::pattern::{PatternReader, ReadStep};
use serpico::protocol::{Action, ExecError};
use serpico::transfer::{PasteTransfer, TransferStage};

fn feed(reader: &mut PatternReader, bytes: &[u8]) -> Option<usize> {
    for (i, b) in bytes.iter().enumerate() {
        let (_, seen) = reader.on_byte(*b);
        if seen {
            return Some(i + 1);
        }
    }
    None
}

#[test]
fn reader_stops_at_the_first_match() {
    let mut reader = PatternReader::new(b"ok\r\n".to_vec(), false, None);
    assert_eq!(feed(&mut reader, b"o ok\r\nok\r\n"), Some(6));
    assert_eq!(reader.is_timed_out(), false);
}

#[test]
fn reader_needs_the_whole_terminator() {
    let mut reader = PatternReader::new(b"soft reboot\r\n".to_vec(), false, None);
    assert_eq!(feed(&mut reader, b"soft reboot\r"), None);
    let (_, seen) = reader.on_byte(b'\n');
    assert!(seen);
}

#[test]
fn reader_never_matches_on_fewer_bytes_than_the_terminator() {
    let mut reader = PatternReader::new(b"abc".to_vec(), false, None);
    assert_eq!(feed(&mut reader, b"bc"), None);
}

#[test]
fn placeholder_bytes_never_count_as_received() {
    let mut reader = PatternReader::new(vec![0x00, 0x04], false, None);
    assert_eq!(reader.on_byte(0x04), (None, false));
    assert_eq!(reader.on_byte(0x00), (None, false));
    assert_eq!(reader.on_byte(0x04), (None, true));
}

#[test]
fn reader_echoes_every_byte_when_asked() {
    let mut reader = PatternReader::new(vec![4], true, None);
    assert_eq!(reader.on_byte(b'x'), (Some(b'x'), false));
    assert_eq!(reader.on_byte(4), (Some(4), true));
    let mut quiet = PatternReader::new(vec![4], false, None);
    assert_eq!(quiet.on_byte(b'x'), (None, false));
}

#[test]
fn reader_times_out_after_its_budget() {
    let mut reader = PatternReader::new(vec![4], false, Some(2));
    assert_eq!(reader.next_read(), ReadStep::Read);
    reader.on_timeout();
    assert_eq!(reader.next_read(), ReadStep::WaitThenRead);
    assert!(!reader.is_timed_out());
    reader.on_timeout();
    assert!(!reader.is_timed_out());
    reader.on_timeout();
    assert!(reader.is_timed_out());
}

#[test]
fn reader_without_budget_waits_forever() {
    let mut reader = PatternReader::new(vec![4], false, None);
    for _ in 0..1000 {
        reader.on_timeout();
    }
    assert!(!reader.is_timed_out());
}

#[test]
fn budget_counts_intervals_of_ten_milliseconds() {
    assert_eq!(budget_for_seconds(Some(3)), Some(300));
    assert_eq!(budget_for_seconds(None), None);
    assert_eq!(budget_for_seconds(Some(usize::MAX)), Some(usize::MAX));
}

#[test]
fn idle_clock_counts_to_its_budget() {
    let mut clock = IdleClock::new(Some(2));
    assert!(!clock.tick());
    assert!(!clock.tick());
    assert!(clock.tick());
    clock.restart();
    assert!(!clock.tick());
}

#[test]
fn transfer_chunks_follow_credit() {
    let payload: Vec<u8> = (0..10).collect();
    let mut t = PasteTransfer::new(payload.clone(), 4, None);
    assert_eq!(t.stage_of(), TransferStage::AwaitControl);
    t.on_control(1);
    assert_eq!(t.stage_of(), TransferStage::QueryPending);
    t.on_pending(0);
    assert_eq!(t.stage_of(), TransferStage::Send);
    match t.next_action() {
        Action::Write(bytes) => assert_eq!(bytes, vec![0, 1, 2, 3]),
        other => panic!("unexpected {:?}", other),
    }
    t.on_written();
    assert_eq!(t.stage_of(), TransferStage::AwaitControl);
    t.on_control(1);
    t.on_pending(1);
    assert_eq!(t.stage_of(), TransferStage::AwaitControl);
    t.on_control(1);
    t.on_pending(0);
    match t.next_action() {
        Action::Write(bytes) => assert_eq!(bytes, vec![4, 5, 6, 7, 8, 9]),
        other => panic!("unexpected {:?}", other),
    }
    t.on_written();
    assert_eq!(t.stage_of(), TransferStage::SendEnd);
    match t.next_action() {
        Action::Write(bytes) => assert_eq!(bytes, vec![4]),
        other => panic!("unexpected {:?}", other),
    }
    t.on_written();
    assert_eq!(t.stage_of(), TransferStage::Done);
}

#[test]
fn transfer_abort_and_errors() {
    let mut t = PasteTransfer::new(vec![1, 2, 3], 2, Some(0));
    t.on_control(4);
    assert_eq!(t.stage_of(), TransferStage::SendAbort);
    t.on_written();
    assert_eq!(t.stage_of(), TransferStage::Failed(ExecError::AbruptEnd));

    let mut bad = PasteTransfer::new(vec![1, 2, 3], 2, Some(0));
    bad.on_control(9);
    assert_eq!(bad.stage_of(), TransferStage::Failed(ExecError::ProtocolError(9)));

    let mut slow = PasteTransfer::new(vec![1, 2, 3], 2, Some(0));
    slow.on_timeout();
    assert_eq!(slow.stage_of(), TransferStage::Failed(ExecError::Timeout));

    let mut closed = PasteTransfer::new(vec![1], 2, None);
    closed.on_closed();
    assert_eq!(closed.stage_of(), TransferStage::Failed(ExecError::StreamClosed));
}

#[test]
fn transfer_of_nothing_only_ends() {
    let t = PasteTransfer::new(Vec::new(), 2, None);
    assert_eq!(t.stage_of(), TransferStage::SendEnd);
}

fn port(name: &str, is_usb: bool, manufacturer: Option<&str>) -> PortInfo {
    PortInfo {
        name: name.as_bytes().to_vec(),
        is_usb,
        manufacturer: manufacturer.map(|m| m.as_bytes().to_vec()),
    }
}

#[test]
fn discovery_keeps_only_the_vendor_ports() {
    let ports = vec![
        port("/dev/ttyACM0", true, Some("MicroPython")),
        port("/dev/cu.usbmodem1", true, Some("MicroPython")),
        port("/dev/tty.usbmodem1", true, Some("MicroPython")),
        port("/dev/ttyUSB0", true, Some("FTDI")),
        port("/dev/ttyACM1", true, Some("micropython")),
        port("/dev/ttyS0", false, Some("MicroPython")),
        port("/dev/ttyACM2", true, None),
        port("/dev/ttyACM3", true, Some("MicroPython ")),
    ];
    assert_eq!(target_ports(&ports), vec![0, 2]);
    assert!(is_target_port(&ports[0]));
    assert!(!is_target_port(&ports[1]));
}

#[test]
fn discovery_picks_only_a_single_device() {
    assert_eq!(pick_device(&vec![]), Err(DiscoveryError::NotFound));
    assert_eq!(pick_device(&vec![3]), Ok(3));
    assert_eq!(pick_device(&vec![1, 2]), Err(DiscoveryError::Ambiguous));
}
