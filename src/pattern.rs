use vstd::prelude::*;

use crate::idle::IdleClock;

verus! {

/// The stream as the window sees it: `n` placeholder bytes, then what was received.
pub open spec fn padded(n: nat, received: Seq<u8>) -> Seq<u8> {
    Seq::new(n, |i: int| 0u8) + received
}

/// The last `n` bytes of the padded stream.
pub open spec fn window_of(n: nat, received: Seq<u8>) -> Seq<u8> {
    let p = padded(n, received);
    p.subrange(p.len() - n, p.len() as int)
}

/// Whether the last bytes received are the terminator: at least as many bytes
/// as it holds came in, and the window over them equals it.
pub open spec fn terminator_seen(terminator: Seq<u8>, received: Seq<u8>) -> bool {
    received.len() >= terminator.len() && window_of(terminator.len(), received) == terminator
}

/// Position in the circular buffer of the `i`-th oldest byte, the oldest being at `head`.
pub open spec fn slot(head: int, i: int, n: int) -> int {
    if head + i < n {
        head + i
    } else {
        head + i - n
    }
}

/// What a reader asks of the transport next.
#[derive(Clone, Copy, Debug, PartialEq, Eq, Structural)]
pub enum ReadStep {
    /// Read one byte at once.
    Read,
    /// Wait one interval, then read one byte.
    WaitThenRead,
}

/// How a wait for a terminator ended, or that it goes on.
#[derive(Clone, Copy, Debug, PartialEq, Eq, Structural)]
pub enum ScanStatus {
    Scanning,
    Matched,
    TimedOut,
    Closed,
}

/// Scans the received bytes for a terminator through a circular window of its length.
pub struct PatternReader {
    terminator: Vec<u8>,
    window: Vec<u8>,
    head: usize,
    echo: bool,
    clock: IdleClock,
    status: ScanStatus,
    waiting: bool,
    filled: usize,
    received: Ghost<Seq<u8>>,
}

impl PatternReader {
    pub closed spec fn terminator(&self) -> Seq<u8> {
        self.terminator@
    }

    /// Every byte received so far, oldest first.
    pub closed spec fn received(&self) -> Seq<u8> {
        self.received@
    }

    pub closed spec fn echo(&self) -> bool {
        self.echo
    }

    pub closed spec fn status(&self) -> ScanStatus {
        self.status
    }

    /// Whether the last read timed out, so that the next one comes after a pause.
    pub closed spec fn waiting(&self) -> bool {
        self.waiting
    }

    pub closed spec fn clock(&self) -> IdleClock {
        self.clock
    }

    spec fn window_ok(&self) -> bool {
        let n = self.terminator@.len();
        &&& self.window@.len() == n
        &&& self.filled == if self.received@.len() < n {
            self.received@.len()
        } else {
            n
        }
        &&& if n == 0 { self.head == 0 } else { self.head < n }
        &&& forall|i: int|
            0 <= i < n ==> self.window@[slot(self.head as int, i, n as int)] == window_of(
                n,
                self.received@,
            )[i]
    }

    pub closed spec fn wf(&self) -> bool {
        &&& self.window_ok()
        &&& self.clock.wf()
        &&& (self.status == ScanStatus::Matched) ==> (self.received@.len() > 0
            && terminator_seen(self.terminator@, self.received@))
        &&& (self.status == ScanStatus::Scanning && self.received@.len() > 0) ==> !terminator_seen(
            self.terminator@,
            self.received@,
        )
        &&& forall|k: int|
            1 <= k < self.received@.len() ==> !terminator_seen(
                self.terminator@,
                #[trigger] self.received@.take(k),
            )
    }

    /// A reader that has received nothing yet, its window filled with placeholders.
    pub fn new(terminator: Vec<u8>, echo: bool, idle_budget: Option<usize>) -> (r: PatternReader)
        ensures
            r.wf(),
            r.terminator() == terminator@,
            r.received() == Seq::<u8>::empty(),
            r.echo() == echo,
            r.status() == ScanStatus::Scanning,
            !r.waiting(),
            r.clock().budget() == idle_budget,
            r.clock().ticks() == 0,
    {
        let n = terminator.len();
        let mut window: Vec<u8> = Vec::new();
        while window.len() < n
            invariant
                window.len() <= n,
                forall|i: int| 0 <= i < window.len() ==> window@[i] == 0u8,
            decreases n - window.len(),
        {
            window.push(0u8);
        }
        let ghost empty = Seq::<u8>::empty();
        assert forall|i: int| 0 <= i < n implies window@[slot(0, i, n as int)] == window_of(
            n as nat,
            empty,
        )[i] by {
            assert(padded(n as nat, empty)[i] == 0u8);
        }
        PatternReader {
            terminator,
            window,
            head: 0,
            echo,
            clock: IdleClock::new(idle_budget),
            status: ScanStatus::Scanning,
            waiting: false,
            filled: 0,
            received: Ghost(empty),
        }
    }

    pub fn is_timed_out(&self) -> (r: bool)
        ensures
            r == (self.status() == ScanStatus::TimedOut),
    {
        self.status == ScanStatus::TimedOut
    }

    /// What to ask of the transport while the scan goes on.
    pub fn next_read(&self) -> (r: ReadStep)
        requires
            self.wf(),
        ensures
            r == (if self.waiting() {
                ReadStep::WaitThenRead
            } else {
                ReadStep::Read
            }),
    {
        if self.waiting {
            ReadStep::WaitThenRead
        } else {
            ReadStep::Read
        }
    }

    fn window_matches(&self) -> (r: bool)
        requires
            self.window_ok(),
        ensures
            r == (window_of(self.terminator().len(), self.received()) == self.terminator()),
    {
        let n = self.terminator.len();
        let mut i: usize = 0;
        while i < n
            invariant
                self.window_ok(),
                n == self.terminator@.len(),
                i <= n,
                forall|j: int|
                    0 <= j < i ==> window_of(n as nat, self.received@)[j] == self.terminator@[j],
            decreases n - i,
        {
            let k = if i < n - self.head {
                self.head + i
            } else {
                i - (n - self.head)
            };
            if self.window[k] != self.terminator[i] {
                return false;
            }
            i = i + 1;
        }
        assert(window_of(n as nat, self.received@) =~= self.terminator@);
        true
    }

    proof fn lemma_window_shift(n: nat, received: Seq<u8>, b: u8, i: int)
        requires
            0 <= i < n,
        ensures
            window_of(n, received.push(b))[i] == if i == n - 1 {
                b
            } else {
                window_of(n, received)[i + 1]
            },
    {
        assert(padded(n, received.push(b)) =~= padded(n, received).push(b));
    }

    /// Takes in one received byte. Returns it for echo where echo was asked for,
    /// and whether the window now equals the terminator.
    pub fn on_byte(&mut self, b: u8) -> (r: (Option<u8>, bool))
        requires
            old(self).wf(),
            old(self).status() == ScanStatus::Scanning,
        ensures
            final(self).wf(),
            final(self).terminator() == old(self).terminator(),
            final(self).echo() == old(self).echo(),
            final(self).clock() == old(self).clock(),
            final(self).received() == old(self).received().push(b),
            !final(self).waiting(),
            r.0 == (if old(self).echo() {
                Some(b)
            } else {
                None
            }),
            r.1 == terminator_seen(final(self).terminator(), final(self).received()),
            final(self).status() == (if r.1 {
                ScanStatus::Matched
            } else {
                ScanStatus::Scanning
            }),
    {
        let n = self.terminator.len();
        let ghost old_received = self.received@;
        let ghost old_window = self.window@;
        let ghost old_head = self.head as int;
        let ghost new_received = old_received.push(b);
        if n > 0 {
            self.window.set(self.head, b);
            self.head = if self.head + 1 == n {
                0
            } else {
                self.head + 1
            };
        }
        if self.filled < n {
            self.filled = self.filled + 1;
        }
        self.received = Ghost(new_received);
        self.waiting = false;
        assert forall|i: int| 0 <= i < n implies self.window@[slot(
            self.head as int,
            i,
            n as int,
        )] == window_of(n as nat, new_received)[i] by {
            Self::lemma_window_shift(n as nat, old_received, b, i);
            if i < n - 1 {
                assert(slot(self.head as int, i, n as int) == slot(old_head, i + 1, n as int));
            }
        }
        assert forall|k: int| 1 <= k < new_received.len() implies !terminator_seen(
            self.terminator@,
            #[trigger] new_received.take(k),
        ) by {
            assert(new_received.take(k) =~= old_received.take(k));
            if k == old_received.len() {
                assert(old_received.take(k) =~= old_received);
            }
        }
        let seen = self.filled == n && self.window_matches();
        if seen {
            self.status = ScanStatus::Matched;
        }
        let echoed = if self.echo {
            Some(b)
        } else {
            None
        };
        (echoed, seen)
    }

    /// A read that timed out: one interval without data. Ends the scan when
    /// that goes beyond the idle budget; otherwise the next read waits first.
    pub fn on_timeout(&mut self)
        requires
            old(self).wf(),
            old(self).status() == ScanStatus::Scanning,
        ensures
            final(self).clock().ticks() == old(self).clock().ticks_after_tick(),
            final(self).wf(),
            final(self).terminator() == old(self).terminator(),
            final(self).echo() == old(self).echo(),
            final(self).received() == old(self).received(),
            final(self).clock().budget() == old(self).clock().budget(),
            final(self).status() == (if old(self).clock().at_limit() {
                ScanStatus::TimedOut
            } else {
                ScanStatus::Scanning
            }),
            final(self).waiting(),
    {
        let expired = self.clock.tick();
        if expired {
            self.status = ScanStatus::TimedOut;
        }
        self.waiting = true;
    }

    /// A read that found the stream closed ends the scan.
    pub fn on_closed(&mut self)
        requires
            old(self).wf(),
            old(self).status() == ScanStatus::Scanning,
        ensures
            final(self).wf(),
            final(self).terminator() == old(self).terminator(),
            final(self).received() == old(self).received(),
            final(self).status() == ScanStatus::Closed,
    {
        self.status = ScanStatus::Closed;
    }
}

/// A reader that reports a match stopped at the earliest possible byte: the
/// terminator is seen over everything received, and over no shorter
/// non-empty prefix of it, so nothing was read past the matching byte.
pub proof fn lemma_match_is_earliest(r: &PatternReader)
    requires
        r.wf(),
        r.status() == ScanStatus::Matched,
    ensures
        r.received().len() > 0,
        terminator_seen(r.terminator(), r.received()),
        forall|k: int|
            1 <= k < r.received().len() ==> !terminator_seen(
                r.terminator(),
                #[trigger] r.received().take(k),
            ),
{
}

/// Fewer bytes than the terminator is long never complete it.
pub proof fn lemma_short_input_never_matches(terminator: Seq<u8>, received: Seq<u8>)
    requires
        received.len() < terminator.len(),
    ensures
        !terminator_seen(terminator, received),
{
}

} // verus!
