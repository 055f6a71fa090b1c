use vstd::prelude::*;

use crate::idle::IdleClock;
use crate::pattern::{terminator_seen, PatternReader, ReadStep, ScanStatus};
use crate::protocol::{
    bytes_of_three, bytes_of_two, prompt, raw_banner, raw_banner_bytes, reboot_banner,
    reboot_banner_bytes, write_byte, writes, Action, Event, ExecError, CARRIAGE_RETURN,
    END_MARKER, INTERRUPT, PASTE_ANSWER_TAG, PASTE_CAPABILITY, PASTE_REQUEST, PASTE_REQUEST_END, PASTE_SUPPORTED,
    PASTE_UNSUPPORTED, PROMPT, ABRUPT_END, CREDIT_GRANT, RAW_MODE_ENTRY, SOFT_RESET, write_byte_vec,
};
use crate::transfer::{settled, PasteTransfer, TransferStage};

verus! {

/// Where a session stands. The handshake runs from `Interrupt` to `ReadWindow`,
/// then the payload goes out, then the three end markers are awaited.
#[derive(Clone, Copy, Debug, PartialEq, Eq, Structural)]
pub enum Phase {
    /// Send a carriage return and two interrupts.
    Interrupt,
    /// Discard whatever the device still sends, until a read times out.
    Flush,
    /// Send a carriage return and the raw-mode-entry byte.
    EnterRaw,
    AwaitRawBanner,
    /// Send the soft-reset byte.
    SoftReset,
    AwaitReboot,
    AwaitRawBannerAgain,
    AwaitPrompt,
    /// Send the three-byte bulk-paste request.
    RequestPaste,
    /// Read the two-byte answer to the request.
    Negotiate,
    /// Read the two-byte little-endian window size.
    ReadWindow,
    Transfer,
    /// The end marker that closes the input.
    AwaitInputEnd,
    /// The script's output, up to an end marker.
    AwaitStdout,
    /// The script's error output, up to an end marker.
    AwaitStderr,
    Finished,
    Failed(ExecError),
}

/// Phases that wait for a terminator.
pub open spec fn is_scan(p: Phase) -> bool {
    p == Phase::AwaitRawBanner || p == Phase::AwaitReboot || p == Phase::AwaitRawBannerAgain
        || p == Phase::AwaitPrompt || p == Phase::AwaitInputEnd || p == Phase::AwaitStdout
        || p == Phase::AwaitStderr
}

/// Phases that write a fixed sequence of bytes.
pub open spec fn is_send(p: Phase) -> bool {
    p == Phase::Interrupt || p == Phase::EnterRaw || p == Phase::SoftReset || p
        == Phase::RequestPaste
}

/// The bytes a sending phase writes.
pub open spec fn sent_by(p: Phase) -> Seq<u8> {
    match p {
        Phase::Interrupt => seq![CARRIAGE_RETURN, INTERRUPT, INTERRUPT],
        Phase::EnterRaw => seq![CARRIAGE_RETURN, RAW_MODE_ENTRY],
        Phase::SoftReset => seq![SOFT_RESET],
        _ => seq![PASTE_REQUEST, PASTE_CAPABILITY, PASTE_REQUEST_END],
    }
}

/// The terminator a scanning phase waits for.
pub open spec fn awaited_by(p: Phase) -> Seq<u8> {
    match p {
        Phase::AwaitRawBanner => raw_banner(),
        Phase::AwaitReboot => reboot_banner(),
        Phase::AwaitRawBannerAgain => raw_banner(),
        Phase::AwaitPrompt => prompt(),
        _ => seq![END_MARKER],
    }
}

/// Whether a scanning phase passes on what it reads.
pub open spec fn echoed_by(p: Phase) -> bool {
    p == Phase::AwaitStdout || p == Phase::AwaitStderr
}

/// The phase that follows a sending or scanning phase once it is done.
pub open spec fn phase_after(p: Phase) -> Phase {
    match p {
        Phase::Interrupt => Phase::Flush,
        Phase::Flush => Phase::EnterRaw,
        Phase::EnterRaw => Phase::AwaitRawBanner,
        Phase::AwaitRawBanner => Phase::SoftReset,
        Phase::SoftReset => Phase::AwaitReboot,
        Phase::AwaitReboot => Phase::AwaitRawBannerAgain,
        Phase::AwaitRawBannerAgain => Phase::AwaitPrompt,
        Phase::AwaitPrompt => Phase::RequestPaste,
        Phase::RequestPaste => Phase::Negotiate,
        Phase::Negotiate => Phase::ReadWindow,
        Phase::ReadWindow => Phase::Transfer,
        Phase::Transfer => Phase::AwaitInputEnd,
        Phase::AwaitInputEnd => Phase::AwaitStdout,
        Phase::AwaitStdout => Phase::AwaitStderr,
        _ => Phase::Finished,
    }
}

/// Phases before any payload may go out.
pub open spec fn before_transfer(p: Phase) -> bool {
    is_send(p) || p == Phase::Flush || p == Phase::AwaitRawBanner || p == Phase::AwaitReboot
        || p == Phase::AwaitRawBannerAgain || p == Phase::AwaitPrompt || p == Phase::Negotiate
        || p == Phase::ReadWindow || p == Phase::Failed(ExecError::UnsupportedBulkMode) || p
        == Phase::Failed(ExecError::UnknownResponse)
}

/// What the device answered to the bulk-paste request.
pub open spec fn negotiation_outcome(first: u8, second: u8) -> Result<(), ExecError> {
    if first == PASTE_ANSWER_TAG && second == PASTE_UNSUPPORTED {
        Err(ExecError::UnsupportedBulkMode)
    } else if first == PASTE_ANSWER_TAG && second == PASTE_SUPPORTED {
        Ok(())
    } else {
        Err(ExecError::UnknownResponse)
    }
}

/// Reads the answer to the bulk-paste request.
pub fn negotiate(first: u8, second: u8) -> (r: Result<(), ExecError>)
    ensures
        r == negotiation_outcome(first, second),
{
    if first == PASTE_ANSWER_TAG && second == PASTE_UNSUPPORTED {
        Err(ExecError::UnsupportedBulkMode)
    } else if first == PASTE_ANSWER_TAG && second == PASTE_SUPPORTED {
        Ok(())
    } else {
        Err(ExecError::UnknownResponse)
    }
}

/// The window size carried by two bytes, least significant first.
pub fn window_size(low: u8, high: u8) -> (r: u16)
    ensures
        r == low as nat + 256 * (high as nat),
{
    let r = (low as u16) + 256 * (high as u16);
    r
}

/// One script execution over a transport: the handshake, the transfer of the
/// script and the wait for its output. The session decides; whoever holds the
/// transport performs `next_action` and reports back through `step`.
pub struct Session {
    phase: Phase,
    reader: PatternReader,
    transfer: PasteTransfer,
    clock: IdleClock,
    waiting: bool,
    first: Option<u8>,
    idle_budget: Option<usize>,
}

impl Session {
    pub closed spec fn phase(&self) -> Phase {
        self.phase
    }

    pub closed spec fn reader(&self) -> PatternReader {
        self.reader
    }

    pub closed spec fn transfer(&self) -> PasteTransfer {
        self.transfer
    }

    /// The first byte of a two-byte answer, once it came in.
    pub closed spec fn first(&self) -> Option<u8> {
        self.first
    }

    pub closed spec fn waiting(&self) -> bool {
        self.waiting
    }

    /// The idle clock of the two-byte answers.
    pub closed spec fn clock(&self) -> IdleClock {
        self.clock
    }

    pub closed spec fn idle_budget(&self) -> Option<usize> {
        self.idle_budget
    }

    /// Nothing was sent or granted yet.
    pub closed spec fn transfer_untouched(&self) -> bool {
        &&& self.transfer.offset() == 0
        &&& self.transfer.chunks().len() == 0
        &&& self.transfer.remaining_credit() == 0
        &&& self.transfer.stage() == crate::transfer::settled(0, 0, self.transfer.payload().len())
        &&& !self.transfer.waiting()
        &&& self.transfer.clock().ticks() == 0
        &&& self.transfer.grants() == 0
    }

    spec fn parts_ok(&self) -> bool {
        &&& self.reader.wf()
        &&& self.transfer.wf()
        &&& self.clock.wf()
        &&& self.clock.budget() == self.idle_budget
        &&& self.transfer.clock().budget() == self.idle_budget
    }

    pub closed spec fn wf(&self) -> bool {
        &&& self.reader.wf()
        &&& self.transfer.wf()
        &&& self.clock.wf()
        &&& self.clock.budget() == self.idle_budget
        &&& is_scan(self.phase) ==> {
            &&& self.reader.status() == ScanStatus::Scanning
            &&& self.reader.terminator() == awaited_by(self.phase)
            &&& self.reader.echo() == echoed_by(self.phase)
            &&& self.reader.clock().budget() == self.idle_budget
        }
        &&& self.phase == Phase::Transfer ==> !(self.transfer.stage() is Done)
            && !(self.transfer.stage() is Failed)
        &&& before_transfer(self.phase) ==> self.transfer_untouched()
        &&& self.transfer.clock().budget() == self.idle_budget
        &&& (self.phase != Phase::Negotiate && self.phase != Phase::ReadWindow) ==> self.first
            is None
    }

    /// A session that is to run `script`, giving up any wait after
    /// `idle_budget` intervals without data (`None`: never).
    pub fn new(script: Vec<u8>, idle_budget: Option<usize>) -> (r: Session)
        ensures
            r.wf(),
            r.phase() == Phase::Interrupt,
            r.transfer().payload() == script@,
            r.idle_budget() == idle_budget,
    {
        Session {
            phase: Phase::Interrupt,
            reader: PatternReader::new(Vec::new(), false, idle_budget),
            transfer: PasteTransfer::new(script, 0, idle_budget),
            clock: IdleClock::new(idle_budget),
            waiting: false,
            first: None,
            idle_budget,
        }
    }

    pub fn phase_of(&self) -> (r: Phase)
        ensures
            r == self.phase(),
    {
        self.phase
    }

    /// What the transport is to do now.
    pub fn next_action(&self) -> (r: Action)
        requires
            self.wf(),
        ensures
            is_send(self.phase()) ==> writes(r, sent_by(self.phase())),
            self.phase() == Phase::Flush ==> r is Read,
            is_scan(self.phase()) ==> if self.reader().waiting() {
                r is WaitThenRead
            } else {
                r is Read
            },
            (self.phase() == Phase::Negotiate || self.phase() == Phase::ReadWindow) ==> if self.waiting() {
                r is WaitThenRead
            } else {
                r is Read
            },
            self.phase() == Phase::Transfer ==> self.transfer().action_fits(r),
            self.phase() == Phase::Finished ==> r == Action::Finish(Ok(())),
            forall|e: ExecError| self.phase() == Phase::Failed(e) ==> r == Action::Finish(Err(e)),
    {
        match self.phase {
            Phase::Interrupt => Action::Write(bytes_of_three(CARRIAGE_RETURN, INTERRUPT, INTERRUPT)),
            Phase::Flush => Action::Read,
            Phase::EnterRaw => Action::Write(bytes_of_two(CARRIAGE_RETURN, RAW_MODE_ENTRY)),
            Phase::SoftReset => write_byte(SOFT_RESET),
            Phase::RequestPaste => Action::Write(
                bytes_of_three(PASTE_REQUEST, PASTE_CAPABILITY, PASTE_REQUEST_END),
            ),
            Phase::Negotiate | Phase::ReadWindow => {
                if self.waiting {
                    Action::WaitThenRead
                } else {
                    Action::Read
                }
            },
            Phase::Transfer => self.transfer.next_action(),
            Phase::Finished => Action::Finish(Ok(())),
            Phase::Failed(e) => Action::Finish(Err(e)),
            _ => match self.reader.next_read() {
                ReadStep::Read => Action::Read,
                ReadStep::WaitThenRead => Action::WaitThenRead,
            },
        }
    }

    fn start_scan(&mut self, p: Phase)
        requires
            old(self).parts_ok(),
            old(self).first is None,
            is_scan(p),
            before_transfer(p) ==> old(self).transfer_untouched(),
        ensures
            final(self).wf(),
            final(self).phase() == p,
            final(self).reader().received() == Seq::<u8>::empty(),
            !final(self).reader().waiting(),
            final(self).reader().clock().ticks() == 0,
            final(self).transfer() == old(self).transfer(),
            final(self).idle_budget() == old(self).idle_budget(),
            final(self).first() == old(self).first(),
    {
        let terminator = if p == Phase::AwaitRawBanner || p == Phase::AwaitRawBannerAgain {
            raw_banner_bytes()
        } else if p == Phase::AwaitReboot {
            reboot_banner_bytes()
        } else if p == Phase::AwaitPrompt {
            write_byte_vec(PROMPT)
        } else {
            write_byte_vec(END_MARKER)
        };
        let echo = p == Phase::AwaitStdout || p == Phase::AwaitStderr;
        self.reader = PatternReader::new(terminator, echo, self.idle_budget);
        self.phase = p;
    }

    /// A sending phase moves on once its bytes are written.
    pub open spec fn send_outcome(old: Session, new: Session, ev: Event) -> bool {
        new.phase() == if ev == Event::Written {
            phase_after(old.phase())
        } else {
            old.phase()
        }
    }

    /// The flush discards bytes until a read times out.
    pub open spec fn flush_outcome(old: Session, new: Session, ev: Event) -> bool {
        new.phase() == match ev {
            Event::TimedOut => Phase::EnterRaw,
            Event::Closed => Phase::Failed(ExecError::StreamClosed),
            _ => Phase::Flush,
        }
    }

    /// A scanning phase takes bytes in until its terminator is seen, and moves
    /// on at once at the byte that completes it.
    pub open spec fn scan_outcome(old: Session, new: Session, ev: Event, echo: Option<u8>) -> bool {
        match ev {
            Event::Byte(b) => {
                let received = old.reader().received().push(b);
                let seen = terminator_seen(awaited_by(old.phase()), received);
                &&& echo == if echoed_by(old.phase()) {
                    Some(b)
                } else {
                    None
                }
                &&& new.phase() == if seen {
                    phase_after(old.phase())
                } else {
                    old.phase()
                }
                &&& !seen ==> new.reader().received() == received
            },
            Event::TimedOut => {
                &&& echo is None
                &&& new.phase() == if old.reader().clock().at_limit() {
                    Phase::Failed(ExecError::Timeout)
                } else {
                    old.phase()
                }
                &&& new.phase() == old.phase() ==> new.reader().received()
                    == old.reader().received() && new.reader().clock().ticks()
                    == old.reader().clock().ticks_after_tick() && new.reader().waiting()
            },
            Event::Closed => echo is None && new.phase() == Phase::Failed(ExecError::StreamClosed),
            _ => echo is None && new.phase() == old.phase() && new.reader() == old.reader(),
        }
    }

    /// The two bytes of an answer come one at a time; after the second, the
    /// negotiation succeeds or fails, or the window size is set.
    pub open spec fn answer_outcome(old: Session, new: Session, ev: Event) -> bool {
        match ev {
            Event::Byte(b) => match old.first() {
                None => new.phase() == old.phase() && new.first() == Some(b)
                    && new.clock().ticks() == 0 && !new.waiting(),
                Some(a) => if old.phase() == Phase::Negotiate {
                    &&& new.phase() == match negotiation_outcome(a, b) {
                        Ok(()) => Phase::ReadWindow,
                        Err(e) => Phase::Failed(e),
                    }
                    &&& new.first() is None
                    &&& new.clock().ticks() == 0
                    &&& !new.waiting()
                } else {
                    &&& new.phase() == Phase::Transfer
                    &&& new.transfer().unit_size() == a as nat + 256 * (b as nat)
                    &&& new.transfer().offset() == 0
                    &&& new.transfer().remaining_credit() == 0
                    &&& new.transfer().chunks().len() == 0
                    &&& new.transfer().clock().ticks() == 0
                    &&& new.transfer().grants() == 0
                    &&& !new.transfer().waiting()
                },
            },
            Event::TimedOut => {
                &&& new.phase() == if old.clock().at_limit() {
                    Phase::Failed(ExecError::Timeout)
                } else {
                    old.phase()
                }
                &&& new.phase() == old.phase() ==> new.clock().ticks()
                    == old.clock().ticks_after_tick() && new.waiting() && new.first()
                    == old.first()
            },
            Event::Closed => new.phase() == Phase::Failed(ExecError::StreamClosed),
            _ => new.phase() == old.phase(),
        }
    }

    /// During the transfer, events go to the transfer; its end ends the phase.
    pub open spec fn transfer_outcome(old: Session, new: Session, ev: Event) -> bool {
        let t0 = old.transfer();
        let t1 = new.transfer();
        &&& new.phase() == match t1.stage() {
            TransferStage::Done => Phase::AwaitInputEnd,
            TransferStage::Failed(e) => Phase::Failed(e),
            _ => Phase::Transfer,
        }
        &&& t1.unit_size() == t0.unit_size()
        &&& match (t0.stage(), ev) {
            (TransferStage::QueryPending, Event::Pending(n)) => {
                &&& t1.offset() == t0.offset()
                &&& t1.remaining_credit() == t0.remaining_credit()
                &&& t1.stage() == if n > 0 {
                    TransferStage::AwaitControl
                } else {
                    TransferStage::Send
                }
            },
            (TransferStage::AwaitControl, Event::Byte(b)) => {
                &&& t1.offset() == t0.offset()
                &&& t1.chunks() == t0.chunks()
                &&& b == CREDIT_GRANT && t0.remaining_credit() + t0.unit_size() <= usize::MAX
                    ==> t1.remaining_credit() == t0.remaining_credit() + t0.unit_size()
                    && t1.stage() == settled(t1.remaining_credit(), t1.offset(), t1.payload().len())
                &&& b == CREDIT_GRANT && t0.remaining_credit() + t0.unit_size() > usize::MAX
                    ==> t1.stage() == TransferStage::Failed(ExecError::ProtocolError(b))
                &&& b == ABRUPT_END ==> t1.stage() == TransferStage::SendAbort
                &&& b != CREDIT_GRANT && b != ABRUPT_END ==> t1.stage() == TransferStage::Failed(
                    ExecError::ProtocolError(b),
                )
            },
            (TransferStage::AwaitControl, Event::TimedOut) => {
                &&& t1.offset() == t0.offset()
                &&& t1.remaining_credit() == t0.remaining_credit()
                &&& t1.chunks() == t0.chunks()
                &&& t1.clock().ticks() == t0.clock().ticks_after_tick()
                &&& t1.waiting()
                &&& t1.stage() == if t0.clock().at_limit() {
                    TransferStage::Failed(ExecError::Timeout)
                } else {
                    TransferStage::AwaitControl
                }
            },
            (TransferStage::AwaitControl, Event::Closed) => t1.stage() == TransferStage::Failed(
                ExecError::StreamClosed,
            ),
            (TransferStage::Send, Event::Written) => {
                &&& t1.remaining_credit() == t0.remaining_credit() - t0.chunk_len()
                &&& t1.offset() == t0.offset() + t0.chunk_len()
                &&& t1.chunks() == t0.chunks().push((t0.remaining_credit(), t0.chunk_len()))
                &&& t1.stage() == settled(t1.remaining_credit(), t1.offset(), t1.payload().len())
            },
            (TransferStage::SendEnd, Event::Written) => {
                &&& t1.offset() == t0.offset()
                &&& t1.stage() == TransferStage::Done
            },
            (TransferStage::SendAbort, Event::Written) => {
                &&& t1.offset() == t0.offset()
                &&& t1.stage() == TransferStage::Failed(ExecError::AbruptEnd)
            },
            _ => t1 == t0,
        }
    }

    /// Takes in what the transport did for the last action, and returns the
    /// byte to pass on as the script's output, if any.
    pub fn step(&mut self, ev: Event) -> (echo: Option<u8>)
        requires
            old(self).wf(),
        ensures
            final(self).wf(),
            final(self).transfer().payload() == old(self).transfer().payload(),
            final(self).idle_budget() == old(self).idle_budget(),
            is_send(old(self).phase()) ==> Self::send_outcome(*old(self), *final(self), ev)
                && echo is None,
            old(self).phase() == Phase::Flush ==> Self::flush_outcome(*old(self), *final(self), ev)
                && echo is None,
            is_scan(old(self).phase()) ==> Self::scan_outcome(*old(self), *final(self), ev, echo),
            (old(self).phase() == Phase::Negotiate || old(self).phase() == Phase::ReadWindow)
                ==> Self::answer_outcome(*old(self), *final(self), ev) && echo is None,
            old(self).phase() == Phase::Transfer ==> Self::transfer_outcome(
                *old(self),
                *final(self),
                ev,
            ) && echo is None,
            (old(self).phase() == Phase::Finished || old(self).phase() is Failed)
                ==> final(self).phase() == old(self).phase() && echo is None,
            is_scan(final(self).phase()) && final(self).phase() != old(self).phase()
                ==> final(self).reader().received() == Seq::<u8>::empty()
                && final(self).reader().clock().ticks() == 0 && !final(self).reader().waiting(),
            final(self).phase() == Phase::Negotiate && old(self).phase() != Phase::Negotiate
                ==> final(self).clock().ticks() == 0 && !final(self).waiting()
                && final(self).first() is None,
            is_scan(final(self).phase()) ==> final(self).reader().clock().budget()
                == final(self).idle_budget() && final(self).reader().terminator() == awaited_by(
                final(self).phase(),
            ) && final(self).reader().echo() == echoed_by(final(self).phase()),
            final(self).clock().budget() == final(self).idle_budget(),
            final(self).transfer().clock().budget() == final(self).idle_budget(),
    {
        match self.phase {
            Phase::Finished | Phase::Failed(_) => None,
            Phase::Interrupt | Phase::EnterRaw | Phase::SoftReset | Phase::RequestPaste => {
                self.on_send_event(ev);
                None
            },
            Phase::Flush => {
                match ev {
                    Event::TimedOut => {
                        self.phase = Phase::EnterRaw;
                    },
                    Event::Closed => {
                        self.phase = Phase::Failed(ExecError::StreamClosed);
                    },
                    _ => {},
                }
                None
            },
            Phase::Negotiate | Phase::ReadWindow => {
                self.on_answer_event(ev);
                None
            },
            Phase::Transfer => {
                self.on_transfer_event(ev);
                None
            },
            _ => self.on_scan_event(ev),
        }
    }

    fn on_send_event(&mut self, ev: Event)
        requires
            old(self).wf(),
            is_send(old(self).phase()),
        ensures
            final(self).wf(),
            final(self).transfer() == old(self).transfer(),
            final(self).idle_budget() == old(self).idle_budget(),
            Self::send_outcome(*old(self), *final(self), ev),
            final(self).phase() == Phase::Negotiate ==> final(self).clock().ticks() == 0
                && !final(self).waiting() && final(self).first() is None,
            is_scan(final(self).phase()) && final(self).phase() != old(self).phase()
                ==> final(self).reader().received() == Seq::<u8>::empty()
                && final(self).reader().clock().ticks() == 0 && !final(self).reader().waiting(),
    {
        if ev == Event::Written {
            match self.phase {
                Phase::Interrupt => {
                    self.phase = Phase::Flush;
                },
                Phase::EnterRaw => {
                    self.start_scan(Phase::AwaitRawBanner);
                },
                Phase::SoftReset => {
                    self.start_scan(Phase::AwaitReboot);
                },
                _ => {
                    self.phase = Phase::Negotiate;
                    self.waiting = false;
                    self.clock.restart();
                },
            }
        }
    }

    fn on_scan_event(&mut self, ev: Event) -> (echo: Option<u8>)
        requires
            old(self).wf(),
            is_scan(old(self).phase()),
        ensures
            final(self).wf(),
            final(self).transfer() == old(self).transfer(),
            final(self).idle_budget() == old(self).idle_budget(),
            Self::scan_outcome(*old(self), *final(self), ev, echo),
            is_scan(final(self).phase()) && final(self).phase() != old(self).phase()
                ==> final(self).reader().received() == Seq::<u8>::empty()
                && final(self).reader().clock().ticks() == 0 && !final(self).reader().waiting(),
    {
        match ev {
            Event::Byte(b) => {
                let (echo, seen) = self.reader.on_byte(b);
                if seen {
                    match self.phase {
                        Phase::AwaitRawBanner => {
                            self.phase = Phase::SoftReset;
                        },
                        Phase::AwaitReboot => {
                            self.start_scan(Phase::AwaitRawBannerAgain);
                        },
                        Phase::AwaitRawBannerAgain => {
                            self.start_scan(Phase::AwaitPrompt);
                        },
                        Phase::AwaitPrompt => {
                            self.phase = Phase::RequestPaste;
                        },
                        Phase::AwaitInputEnd => {
                            self.start_scan(Phase::AwaitStdout);
                        },
                        Phase::AwaitStdout => {
                            self.start_scan(Phase::AwaitStderr);
                        },
                        _ => {
                            self.phase = Phase::Finished;
                        },
                    }
                }
                echo
            },
            Event::TimedOut => {
                self.reader.on_timeout();
                if self.reader.is_timed_out() {
                    self.phase = Phase::Failed(ExecError::Timeout);
                }
                None
            },
            Event::Closed => {
                self.reader.on_closed();
                self.phase = Phase::Failed(ExecError::StreamClosed);
                None
            },
            _ => None,
        }
    }

    fn on_answer_event(&mut self, ev: Event)
        requires
            old(self).wf(),
            old(self).phase() == Phase::Negotiate || old(self).phase() == Phase::ReadWindow,
        ensures
            final(self).wf(),
            final(self).transfer().payload() == old(self).transfer().payload(),
            final(self).idle_budget() == old(self).idle_budget(),
            Self::answer_outcome(*old(self), *final(self), ev),
            !is_scan(final(self).phase()),
    {
        match ev {
            Event::Byte(b) => {
                self.waiting = false;
                self.clock.restart();
                match self.first {
                    None => {
                        self.first = Some(b);
                    },
                    Some(a) => {
                        self.first = None;
                        if self.phase == Phase::Negotiate {
                            match negotiate(a, b) {
                                Ok(()) => {
                                    self.phase = Phase::ReadWindow;
                                },
                                Err(e) => {
                                    self.phase = Phase::Failed(e);
                                },
                            }
                        } else {
                            let unit = window_size(a, b);
                            self.transfer.set_unit_size(unit);
                            self.phase = Phase::Transfer;
                        }
                    },
                }
            },
            Event::TimedOut => {
                let expired = self.clock.tick();
                self.waiting = true;
                if expired {
                    self.first = None;
                    self.phase = Phase::Failed(ExecError::Timeout);
                }
            },
            Event::Closed => {
                self.first = None;
                self.phase = Phase::Failed(ExecError::StreamClosed);
            },
            _ => {},
        }
    }

    fn on_transfer_event(&mut self, ev: Event)
        requires
            old(self).wf(),
            old(self).phase() == Phase::Transfer,
        ensures
            final(self).wf(),
            final(self).transfer().payload() == old(self).transfer().payload(),
            final(self).idle_budget() == old(self).idle_budget(),
            Self::transfer_outcome(*old(self), *final(self), ev),
            is_scan(final(self).phase()) ==> final(self).reader().received() == Seq::<u8>::empty()
                && final(self).reader().clock().ticks() == 0 && !final(self).reader().waiting(),
    {
        match (self.transfer.stage_of(), ev) {
            (TransferStage::QueryPending, Event::Pending(n)) => self.transfer.on_pending(n),
            (TransferStage::AwaitControl, Event::Byte(b)) => self.transfer.on_control(b),
            (TransferStage::AwaitControl, Event::TimedOut) => self.transfer.on_timeout(),
            (TransferStage::AwaitControl, Event::Closed) => self.transfer.on_closed(),
            (TransferStage::Send, Event::Written) => self.transfer.on_written(),
            (TransferStage::SendEnd, Event::Written) => self.transfer.on_written(),
            (TransferStage::SendAbort, Event::Written) => self.transfer.on_written(),
            _ => {},
        }
        match self.transfer.stage_of() {
            TransferStage::Done => self.start_scan(Phase::AwaitInputEnd),
            TransferStage::Failed(e) => {
                proof {
                    self.transfer.lemma_failures_are_its_own();
                }
                self.phase = Phase::Failed(e);
            },
            _ => {},
        }
    }
}

/// A session that failed on the answer to the bulk-paste request sent no
/// payload byte and was granted no credit.
pub proof fn lemma_refused_paste_sends_no_payload(s: &Session)
    requires
        s.wf(),
        s.phase() == Phase::Failed(ExecError::UnsupportedBulkMode) || s.phase() == Phase::Failed(
            ExecError::UnknownResponse,
        ),
    ensures
        s.transfer().offset() == 0,
        s.transfer().chunks().len() == 0,
        s.transfer().remaining_credit() == 0,
{
}

} // verus!
