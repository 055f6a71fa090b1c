use vstd::prelude::*;

use crate::idle::IdleClock;
use crate::protocol::{write_byte, writes, Action, ExecError, ABRUPT_END, CREDIT_GRANT, END_MARKER};

verus! {

/// Where a transfer stands.
#[derive(Clone, Copy, Debug, PartialEq, Eq, Structural)]
pub enum TransferStage {
    /// Credit is left: ask whether control bytes wait unread before sending.
    QueryPending,
    /// Read one control byte.
    AwaitControl,
    /// Send the next chunk of payload.
    Send,
    /// All payload is out: send the end marker.
    SendEnd,
    /// The device aborted: answer with one end marker.
    SendAbort,
    /// The end marker went out after the whole payload.
    Done,
    Failed(ExecError),
}

/// Total length of the chunks sent, each recorded as (credit at send time, length).
pub open spec fn sum_lengths(chunks: Seq<(nat, nat)>) -> nat
    decreases chunks.len(),
{
    if chunks.len() == 0 {
        0
    } else {
        sum_lengths(chunks.drop_last()) + chunks.last().1
    }
}

/// The chunks' bytes, one after the other.
pub open spec fn concat(chunks: Seq<Seq<u8>>) -> Seq<u8>
    decreases chunks.len(),
{
    if chunks.len() == 0 {
        Seq::empty()
    } else {
        concat(chunks.drop_last()) + chunks.last()
    }
}

/// The stage a transfer takes after its credit or offset changed.
pub open spec fn settled(credit: nat, offset: nat, len: nat) -> TransferStage {
    if offset == len {
        TransferStage::SendEnd
    } else if credit == 0 {
        TransferStage::AwaitControl
    } else {
        TransferStage::QueryPending
    }
}

/// Streams a payload under credit granted by the device, one window at a time.
pub struct PasteTransfer {
    payload: Vec<u8>,
    unit_size: u16,
    remaining_credit: usize,
    offset: usize,
    stage: TransferStage,
    clock: IdleClock,
    waiting: bool,
    chunks: Ghost<Seq<(nat, nat)>>,
    sent: Ghost<Seq<Seq<u8>>>,
    grants: Ghost<nat>,
}

impl PasteTransfer {
    pub closed spec fn payload(&self) -> Seq<u8> {
        self.payload@
    }

    pub closed spec fn unit_size(&self) -> nat {
        self.unit_size as nat
    }

    pub closed spec fn remaining_credit(&self) -> nat {
        self.remaining_credit as nat
    }

    /// How many payload bytes were sent.
    pub closed spec fn offset(&self) -> nat {
        self.offset as nat
    }

    pub closed spec fn stage(&self) -> TransferStage {
        self.stage
    }

    pub closed spec fn waiting(&self) -> bool {
        self.waiting
    }

    pub closed spec fn clock(&self) -> IdleClock {
        self.clock
    }

    /// The chunks sent so far, as (credit available when sent, length).
    pub closed spec fn chunks(&self) -> Seq<(nat, nat)> {
        self.chunks@
    }

    /// The bytes of each chunk sent so far.
    pub closed spec fn sent(&self) -> Seq<Seq<u8>> {
        self.sent@
    }

    /// How many credit grants came in.
    pub closed spec fn grants(&self) -> nat {
        self.grants@
    }

    pub closed spec fn wf(&self) -> bool {
        let len = self.payload@.len();
        &&& self.offset <= len
        &&& self.clock.wf()
        &&& self.stage == TransferStage::QueryPending ==> self.remaining_credit > 0 && self.offset
            < len
        &&& self.stage == TransferStage::Send ==> self.remaining_credit > 0 && self.offset < len
        &&& self.stage == TransferStage::AwaitControl ==> self.offset < len
        &&& (self.stage == TransferStage::SendEnd || self.stage == TransferStage::Done)
            ==> self.offset == len
        &&& sum_lengths(self.chunks@) == self.offset
        &&& self.sent@.len() == self.chunks@.len()
        &&& forall|i: int|
            0 <= i < self.sent@.len() ==> (#[trigger] self.sent@[i]).len() == self.chunks@[i].1
        &&& concat(self.sent@) == self.payload@.take(self.offset as int)
        &&& self.remaining_credit + self.offset == self.grants@ * self.unit_size
        &&& self.stage != TransferStage::Failed(ExecError::UnsupportedBulkMode)
        &&& self.stage != TransferStage::Failed(ExecError::UnknownResponse)
        &&& forall|i: int|
            0 <= i < self.chunks@.len() ==> 0 < #[trigger] self.chunks@[i].1 <= self.chunks@[i].0
    }

    /// A transfer of `payload` with a window of `unit_size` bytes and no credit yet.
    pub fn new(payload: Vec<u8>, unit_size: u16, idle_budget: Option<usize>) -> (r: PasteTransfer)
        ensures
            r.wf(),
            r.payload() == payload@,
            r.unit_size() == unit_size,
            r.remaining_credit() == 0,
            r.offset() == 0,
            r.chunks() == Seq::<(nat, nat)>::empty(),
            r.sent() == Seq::<Seq<u8>>::empty(),
            r.grants() == 0,
            r.stage() == settled(0, 0, payload@.len()),
            !r.waiting(),
            r.clock().budget() == idle_budget,
            r.clock().ticks() == 0,
    {
        assert(payload@.take(0) =~= Seq::<u8>::empty());
        assert(concat(Seq::<Seq<u8>>::empty()) == Seq::<u8>::empty());
        assert(0 * (unit_size as int) == 0);
        let stage = if payload.len() == 0 {
            TransferStage::SendEnd
        } else {
            TransferStage::AwaitControl
        };
        PasteTransfer {
            payload,
            unit_size,
            remaining_credit: 0,
            offset: 0,
            stage,
            clock: IdleClock::new(idle_budget),
            waiting: false,
            chunks: Ghost(Seq::empty()),
            sent: Ghost(Seq::empty()),
            grants: Ghost(0),
        }
    }

    /// A transfer never fails for reasons that belong to the negotiation.
    pub proof fn lemma_failures_are_its_own(&self)
        requires
            self.wf(),
        ensures
            self.stage() != TransferStage::Failed(ExecError::UnsupportedBulkMode),
            self.stage() != TransferStage::Failed(ExecError::UnknownResponse),
    {
    }

    pub fn stage_of(&self) -> (r: TransferStage)
        ensures
            r == self.stage(),
    {
        self.stage
    }

    /// Sets the window negotiated with the device, before anything was sent.
    pub fn set_unit_size(&mut self, unit_size: u16)
        requires
            old(self).wf(),
            old(self).grants() == 0,
        ensures
            final(self).sent() == old(self).sent(),
            final(self).grants() == old(self).grants(),
            final(self).wf(),
            final(self).unit_size() == unit_size,
            final(self).payload() == old(self).payload(),
            final(self).remaining_credit() == old(self).remaining_credit(),
            final(self).offset() == old(self).offset(),
            final(self).chunks() == old(self).chunks(),
            final(self).stage() == old(self).stage(),
            final(self).waiting() == old(self).waiting(),
            final(self).clock() == old(self).clock(),
    {
        assert(self.grants@ == 0);
        assert(0 * (unit_size as int) == 0);
        self.unit_size = unit_size;
    }

    /// Size of the next chunk: as much as both the credit and the payload left allow.
    pub open spec fn chunk_len(&self) -> nat {
        let left = (self.payload().len() - self.offset()) as nat;
        if self.remaining_credit() < left {
            self.remaining_credit()
        } else {
            left
        }
    }

    /// Whether `r` is the action this transfer asks for now.
    pub open spec fn action_fits(&self, r: Action) -> bool {
        &&& self.stage() == TransferStage::QueryPending ==> r is QueryPending
        &&& self.stage() == TransferStage::AwaitControl ==> if self.waiting() {
            r is WaitThenRead
        } else {
            r is Read
        }
        &&& self.stage() == TransferStage::Send ==> writes(
            r,
            self.payload().subrange(
                self.offset() as int,
                (self.offset() + self.chunk_len()) as int,
            ),
        )
        &&& self.stage() == TransferStage::SendEnd ==> writes(r, seq![END_MARKER])
        &&& self.stage() == TransferStage::SendAbort ==> writes(r, seq![END_MARKER])
        &&& self.stage() == TransferStage::Done ==> r == Action::Finish(Ok(()))
        &&& forall|e: ExecError|
            self.stage() == TransferStage::Failed(e) ==> r == Action::Finish(Err(e))
    }

    /// What the transport is to do for this transfer now.
    pub fn next_action(&self) -> (r: Action)
        requires
            self.wf(),
        ensures
            self.action_fits(r),
    {
        match self.stage {
            TransferStage::QueryPending => Action::QueryPending,
            TransferStage::AwaitControl => {
                if self.waiting {
                    Action::WaitThenRead
                } else {
                    Action::Read
                }
            },
            TransferStage::Send => {
                let left = self.payload.len() - self.offset;
                let n = if self.remaining_credit < left {
                    self.remaining_credit
                } else {
                    left
                };
                let mut chunk: Vec<u8> = Vec::new();
                let mut j: usize = 0;
                while j < n
                    invariant
                        self.wf(),
                        self.stage == TransferStage::Send,
                        n == self.chunk_len(),
                        self.offset + n <= self.payload.len(),
                        j <= n,
                        chunk@ == self.payload@.subrange(
                            self.offset as int,
                            self.offset + j,
                        ),
                    decreases n - j,
                {
                    chunk.push(self.payload[self.offset + j]);
                    j = j + 1;
                    assert(chunk@ =~= self.payload@.subrange(self.offset as int, self.offset + j));
                }
                Action::Write(chunk)
            },
            TransferStage::SendEnd => write_byte(END_MARKER),
            TransferStage::SendAbort => write_byte(END_MARKER),
            TransferStage::Done => Action::Finish(Ok(())),
            TransferStage::Failed(e) => Action::Finish(Err(e)),
        }
    }

    /// The transport answered a `QueryPending`: with bytes waiting, read a
    /// control byte first; otherwise send under the credit at hand.
    pub fn on_pending(&mut self, n: usize)
        requires
            old(self).wf(),
            old(self).stage() == TransferStage::QueryPending,
        ensures
            final(self).sent() == old(self).sent(),
            final(self).grants() == old(self).grants(),
            final(self).clock().budget() == old(self).clock().budget(),
            final(self).wf(),
            final(self).payload() == old(self).payload(),
            final(self).unit_size() == old(self).unit_size(),
            final(self).remaining_credit() == old(self).remaining_credit(),
            final(self).offset() == old(self).offset(),
            final(self).chunks() == old(self).chunks(),
            final(self).waiting() == old(self).waiting(),
            final(self).stage() == if n > 0 {
                TransferStage::AwaitControl
            } else {
                TransferStage::Send
            },
    {
        if n > 0 {
            self.stage = TransferStage::AwaitControl;
        } else {
            self.stage = TransferStage::Send;
        }
    }

    /// One control byte came in. A credit grant adds one window of credit; an
    /// abrupt end is answered with an end marker; any other byte fails the
    /// transfer, as does credit that no longer fits in a `usize`.
    pub fn on_control(&mut self, b: u8)
        requires
            old(self).wf(),
            old(self).stage() == TransferStage::AwaitControl,
        ensures
            final(self).sent() == old(self).sent(),
            final(self).wf(),
            final(self).payload() == old(self).payload(),
            final(self).unit_size() == old(self).unit_size(),
            final(self).offset() == old(self).offset(),
            final(self).chunks() == old(self).chunks(),
            !final(self).waiting(),
            final(self).clock().ticks() == 0,
            final(self).clock().budget() == old(self).clock().budget(),
            b == CREDIT_GRANT && old(self).remaining_credit() + old(self).unit_size() <= usize::MAX
                ==> final(self).grants() == old(self).grants() + 1,
            !(b == CREDIT_GRANT && old(self).remaining_credit() + old(self).unit_size()
                <= usize::MAX) ==> final(self).grants() == old(self).grants(),
            b == CREDIT_GRANT && old(self).remaining_credit() + old(self).unit_size() <= usize::MAX
                ==> final(self).remaining_credit() == old(self).remaining_credit()
                + old(self).unit_size() && final(self).stage() == settled(
                final(self).remaining_credit(),
                final(self).offset(),
                final(self).payload().len(),
            ),
            b == CREDIT_GRANT && old(self).remaining_credit() + old(self).unit_size() > usize::MAX
                ==> final(self).stage() == TransferStage::Failed(ExecError::ProtocolError(b)),
            b == ABRUPT_END ==> final(self).stage() == TransferStage::SendAbort
                && final(self).remaining_credit() == old(self).remaining_credit(),
            b != CREDIT_GRANT && b != ABRUPT_END ==> final(self).stage() == TransferStage::Failed(
                ExecError::ProtocolError(b),
            ) && final(self).remaining_credit() == old(self).remaining_credit(),
    {
        self.waiting = false;
        self.clock.restart();
        if b == CREDIT_GRANT {
            match self.remaining_credit.checked_add(self.unit_size as usize) {
                Some(c) => {
                    let ghost g = self.grants@;
                    let ghost u = self.unit_size as int;
                    assert((g + 1) * u == g * u + u) by (nonlinear_arith);
                    self.grants = Ghost(g + 1);
                    self.remaining_credit = c;
                    self.stage = if c == 0 {
                        TransferStage::AwaitControl
                    } else {
                        TransferStage::QueryPending
                    };
                },
                None => {
                    self.stage = TransferStage::Failed(ExecError::ProtocolError(b));
                },
            }
        } else if b == ABRUPT_END {
            self.stage = TransferStage::SendAbort;
        } else {
            self.stage = TransferStage::Failed(ExecError::ProtocolError(b));
        }
    }

    /// A read for a control byte timed out: fail once the idle budget is
    /// spent, otherwise wait before the next read.
    pub fn on_timeout(&mut self)
        requires
            old(self).wf(),
            old(self).stage() == TransferStage::AwaitControl,
        ensures
            final(self).sent() == old(self).sent(),
            final(self).grants() == old(self).grants(),
            final(self).clock().ticks() == old(self).clock().ticks_after_tick(),
            final(self).clock().budget() == old(self).clock().budget(),
            final(self).unit_size() == old(self).unit_size(),
            final(self).wf(),
            final(self).payload() == old(self).payload(),
            final(self).remaining_credit() == old(self).remaining_credit(),
            final(self).offset() == old(self).offset(),
            final(self).chunks() == old(self).chunks(),
            final(self).waiting(),
            final(self).stage() == if old(self).clock().at_limit() {
                TransferStage::Failed(ExecError::Timeout)
            } else {
                TransferStage::AwaitControl
            },
    {
        let expired = self.clock.tick();
        if expired {
            self.stage = TransferStage::Failed(ExecError::Timeout);
        }
        self.waiting = true;
    }

    /// A read found the stream closed.
    pub fn on_closed(&mut self)
        requires
            old(self).wf(),
            old(self).stage() == TransferStage::AwaitControl,
        ensures
            final(self).sent() == old(self).sent(),
            final(self).grants() == old(self).grants(),
            final(self).unit_size() == old(self).unit_size(),
            final(self).clock().budget() == old(self).clock().budget(),
            final(self).wf(),
            final(self).payload() == old(self).payload(),
            final(self).offset() == old(self).offset(),
            final(self).chunks() == old(self).chunks(),
            final(self).stage() == TransferStage::Failed(ExecError::StreamClosed),
    {
        self.stage = TransferStage::Failed(ExecError::StreamClosed);
    }

    /// The bytes of the last write went out. After a chunk, its length leaves
    /// the credit and joins the offset; after an end marker the transfer is over.
    pub fn on_written(&mut self)
        requires
            old(self).wf(),
            old(self).stage() == TransferStage::Send || old(self).stage()
                == TransferStage::SendEnd || old(self).stage() == TransferStage::SendAbort,
        ensures
            final(self).grants() == old(self).grants(),
            final(self).clock().budget() == old(self).clock().budget(),
            final(self).wf(),
            final(self).payload() == old(self).payload(),
            final(self).unit_size() == old(self).unit_size(),
            !final(self).waiting(),
            old(self).stage() == TransferStage::Send ==> {
                &&& final(self).remaining_credit() == old(self).remaining_credit()
                    - old(self).chunk_len()
                &&& final(self).offset() == old(self).offset() + old(self).chunk_len()
                &&& final(self).chunks() == old(self).chunks().push(
                    (old(self).remaining_credit(), old(self).chunk_len()),
                )
                &&& final(self).sent() == old(self).sent().push(
                    old(self).payload().subrange(
                        old(self).offset() as int,
                        (old(self).offset() + old(self).chunk_len()) as int,
                    ),
                )
                &&& final(self).stage() == settled(
                    final(self).remaining_credit(),
                    final(self).offset(),
                    final(self).payload().len(),
                )
            },
            old(self).stage() != TransferStage::Send ==> {
                &&& final(self).remaining_credit() == old(self).remaining_credit()
                &&& final(self).offset() == old(self).offset()
                &&& final(self).chunks() == old(self).chunks()
                &&& final(self).sent() == old(self).sent()
            },
            old(self).stage() == TransferStage::SendEnd ==> final(self).stage()
                == TransferStage::Done,
            old(self).stage() == TransferStage::SendAbort ==> final(self).stage()
                == TransferStage::Failed(ExecError::AbruptEnd),
    {
        self.waiting = false;
        match self.stage {
            TransferStage::Send => {
                let left = self.payload.len() - self.offset;
                let n = if self.remaining_credit < left {
                    self.remaining_credit
                } else {
                    left
                };
                let ghost old_chunks = self.chunks@;
                self.chunks = Ghost(old_chunks.push((self.remaining_credit as nat, n as nat)));
                assert(self.chunks@.drop_last() =~= old_chunks);
                let ghost old_sent = self.sent@;
                let ghost piece = self.payload@.subrange(
                    self.offset as int,
                    (self.offset + n) as int,
                );
                self.sent = Ghost(old_sent.push(piece));
                assert(self.sent@.drop_last() =~= old_sent);
                assert(self.payload@.take((self.offset + n) as int) =~= self.payload@.take(
                    self.offset as int,
                ) + piece);
                self.remaining_credit = self.remaining_credit - n;
                self.offset = self.offset + n;
                self.stage = if self.offset == self.payload.len() {
                    TransferStage::SendEnd
                } else if self.remaining_credit == 0 {
                    TransferStage::AwaitControl
                } else {
                    TransferStage::QueryPending
                };
            },
            TransferStage::SendEnd => {
                self.stage = TransferStage::Done;
            },
            _ => {
                self.stage = TransferStage::Failed(ExecError::AbruptEnd);
            },
        }
    }
}

/// At every point of a transfer, the chunks sent so far are the payload's
/// first `offset` bytes, in order, and the credit left is what the grants
/// gave less what was sent: it never goes below zero.
pub proof fn lemma_credit_accounting(t: &PasteTransfer)
    requires
        t.wf(),
    ensures
        concat(t.sent()) == t.payload().take(t.offset() as int),
        t.sent().len() == t.chunks().len(),
        forall|i: int|
            0 <= i < t.sent().len() ==> (#[trigger] t.sent()[i]).len() == t.chunks()[i].1,
        t.remaining_credit() + t.offset() == t.grants() * t.unit_size(),
{
}

/// No payload byte goes out before a credit grant came in: whatever was sent
/// is bounded by the credit that the grants gave.
pub proof fn lemma_no_payload_before_grant(t: &PasteTransfer)
    requires
        t.wf(),
        t.offset() > 0,
    ensures
        t.grants() >= 1,
        t.offset() <= t.grants() * t.unit_size(),
{
    let g = t.grants();
    let u = t.unit_size();
    if g == 0 {
        assert(g * u == 0) by (nonlinear_arith)
            requires
                g == 0,
        ;
    }
}

/// A finished transfer sent the whole payload: its chunks, each non-empty and
/// no longer than the credit available when it was sent, make up the payload
/// exactly, in order.
pub proof fn lemma_transfer_sends_whole_payload(t: &PasteTransfer)
    requires
        t.wf(),
        t.stage() == TransferStage::Done,
    ensures
        t.offset() == t.payload().len(),
        concat(t.sent()) == t.payload(),
        sum_lengths(t.chunks()) == t.payload().len(),
        forall|i: int|
            0 <= i < t.chunks().len() ==> 0 < #[trigger] t.chunks()[i].1 <= t.chunks()[i].0,
        forall|i: int|
            0 <= i < t.sent().len() ==> (#[trigger] t.sent()[i]).len() == t.chunks()[i].1,
{
    assert(t.payload().take(t.offset() as int) =~= t.payload());
}

} // verus!
