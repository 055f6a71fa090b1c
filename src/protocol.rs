use vstd::prelude::*;

verus! {

/// Byte that asks the device to enter raw execution mode.
pub const RAW_MODE_ENTRY: u8 = 0x01;

/// Byte by which the device grants one more window of credit during a transfer.
pub const CREDIT_GRANT: u8 = 0x01;

/// Byte that interrupts a running program.
pub const INTERRUPT: u8 = 0x03;

/// Byte that soft-resets the device during the handshake.
pub const SOFT_RESET: u8 = 0x04;

/// Byte that marks the end of data, in either direction.
pub const END_MARKER: u8 = 0x04;

/// Byte by which the device aborts a transfer.
pub const ABRUPT_END: u8 = 0x04;

/// First byte of every answer to a bulk-paste request.
pub const PASTE_ANSWER_TAG: u8 = 0x52;

/// Carriage return, sent ahead of control bytes.
pub const CARRIAGE_RETURN: u8 = 0x0d;

/// First byte of the bulk-paste request.
pub const PASTE_REQUEST: u8 = 0x05;

/// Last byte of the bulk-paste request.
pub const PASTE_REQUEST_END: u8 = 0x01;

/// Middle byte of the bulk-paste request: the capability asked for.
pub const PASTE_CAPABILITY: u8 = 0x41;

/// Answer of a device that supports bulk paste: `PASTE_ANSWER_TAG` then this.
pub const PASTE_SUPPORTED: u8 = 0x01;

/// Answer of a device without bulk paste: `PASTE_ANSWER_TAG` then this.
pub const PASTE_UNSUPPORTED: u8 = 0x00;

/// The banner of raw execution mode, "raw REPL; CTRL-B to exit\r\n".
pub open spec fn raw_banner() -> Seq<u8> {
    seq![
        114u8, 97, 119, 32, 82, 69, 80, 76, 59, 32, 67, 84, 82, 76, 45, 66, 32, 116, 111, 32,
        101, 120, 105, 116, 13, 10,
    ]
}

/// The banner printed on a soft reset, "soft reboot\r\n".
pub open spec fn reboot_banner() -> Seq<u8> {
    seq![115u8, 111, 102, 116, 32, 114, 101, 98, 111, 111, 116, 13, 10]
}

/// The prompt of raw execution mode, ">".
pub open spec fn prompt() -> Seq<u8> {
    seq![PROMPT]
}

/// The prompt character.
pub const PROMPT: u8 = 0x3e;

pub fn raw_banner_bytes() -> (v: Vec<u8>)
    ensures
        v@ == raw_banner(),
{
    let v: Vec<u8> = vec![
        114u8, 97, 119, 32, 82, 69, 80, 76, 59, 32, 67, 84, 82, 76, 45, 66, 32, 116, 111, 32,
        101, 120, 105, 116, 13, 10,
    ];
    assert(v@ =~= raw_banner());
    v
}

pub fn reboot_banner_bytes() -> (v: Vec<u8>)
    ensures
        v@ == reboot_banner(),
{
    let v: Vec<u8> = vec![115u8, 111, 102, 116, 32, 114, 101, 98, 111, 111, 116, 13, 10];
    assert(v@ =~= reboot_banner());
    v
}

pub fn bytes_of_two(a: u8, b: u8) -> (v: Vec<u8>)
    ensures
        v@ == seq![a, b],
{
    let mut v: Vec<u8> = Vec::new();
    v.push(a);
    v.push(b);
    assert(v@ =~= seq![a, b]);
    v
}

pub fn bytes_of_three(a: u8, b: u8, c: u8) -> (v: Vec<u8>)
    ensures
        v@ == seq![a, b, c],
{
    let mut v: Vec<u8> = Vec::new();
    v.push(a);
    v.push(b);
    v.push(c);
    assert(v@ =~= seq![a, b, c]);
    v
}

/// Why a session failed.
#[derive(Clone, Copy, Debug, PartialEq, Eq, Structural)]
pub enum ExecError {
    /// The idle budget ran out while waiting for a terminator or a control byte.
    Timeout,
    /// A read returned no bytes: the stream is closed.
    StreamClosed,
    /// The device answered the bulk-paste request with "not supported".
    UnsupportedBulkMode,
    /// The device answered the bulk-paste request with something else than yes or no.
    UnknownResponse,
    /// An unexpected control byte arrived during a transfer.
    ProtocolError(u8),
    /// The device aborted the transfer.
    AbruptEnd,
}

/// What the transport is to do next, on behalf of a protocol engine.
#[derive(Debug)]
pub enum Action {
    /// Write all of these bytes.
    Write(Vec<u8>),
    /// Read one byte, with the short per-read timeout.
    Read,
    /// Wait one poll interval, then read one byte.
    WaitThenRead,
    /// Report how many received bytes wait unread.
    QueryPending,
    /// Stop: the session is over, with this outcome.
    Finish(Result<(), ExecError>),
}

/// What the transport did.
#[derive(Clone, Copy, Debug, PartialEq, Eq, Structural)]
pub enum Event {
    /// The bytes of the last `Write` went out.
    Written,
    /// One byte came in.
    Byte(u8),
    /// A read timed out with no byte.
    TimedOut,
    /// A read returned no byte: the stream is closed.
    Closed,
    /// This many received bytes wait unread.
    Pending(usize),
}

/// A write of the single byte `b`.
pub fn write_byte(b: u8) -> (r: Action)
    ensures
        writes(r, seq![b]),
{
    let mut v: Vec<u8> = Vec::new();
    v.push(b);
    assert(v@ =~= seq![b]);
    Action::Write(v)
}

/// The single byte `b`, as a vector.
pub fn write_byte_vec(b: u8) -> (v: Vec<u8>)
    ensures
        v@ == seq![b],
{
    let mut v: Vec<u8> = Vec::new();
    v.push(b);
    assert(v@ =~= seq![b]);
    v
}

/// Whether an action writes exactly these bytes.
pub open spec fn writes(a: Action, bytes: Seq<u8>) -> bool {
    match a {
        Action::Write(v) => v@ == bytes,
        _ => false,
    }
}

} // verus!
