//! The relay between the two sockets of a connection.
//!
//! A relay has two directions. Each reads from one socket into a buffer and
//! writes the buffer to the other socket. To spare an allocation per
//! connection, a direction reads into a scratch buffer that the worker owns
//! and shares among all its connections, and writes from there. Only when a
//! write blocks before the scratch buffer is flushed does the direction move
//! the rest into a buffer of its own, so that the scratch buffer is free
//! again before anything else runs.
//!
//! The relay performs no I/O. It says which operation it needs next, takes
//! the outcome, and keeps the books.

use vstd::prelude::*;
use vstd::slice::slice_subrange;

verus! {

/// The size that the worker's scratch buffer is meant to have.
pub const SHARED_BUF_SIZE: usize = 65536;

/// The least size of a direction's own buffer.
pub const PRIVATE_BUF_SIZE: usize = 8192;

/// How long a relay waits for its second direction once the first has
/// finished, in milliseconds.
pub const HALF_CLOSE_TIMEOUT_MS: u64 = 60000;

/// Why an operation on a socket failed.
#[derive(Clone, Copy, Debug, PartialEq, Eq, Structural)]
pub enum Failure {
    /// The socket reported an error.
    Io,
    /// The socket took none of the bytes it was given.
    WriteZero,
}

/// The outcome of one attempt to read, write or shut down.
#[derive(Clone, Copy, Debug, PartialEq, Eq, Structural)]
pub enum Polled {
    /// The operation went through, with this many bytes.
    Ready(usize),
    /// The operation would block.
    Pending,
    /// The operation failed.
    Failed(Failure),
}

/// The operation that a direction needs next.
#[derive(Clone, Copy, Debug, PartialEq, Eq, Structural)]
pub enum Io {
    /// Read from the source into the scratch buffer.
    Read,
    /// Write the unsent bytes to the peer.
    Write,
    /// Shut down the write half of the peer.
    Shutdown,
    /// Nothing: the direction has finished.
    Nothing,
}

/// An operation together with its outcome.
#[derive(Clone, Copy, Debug, PartialEq, Eq, Structural)]
pub enum Event {
    Read(Polled),
    Write(Polled),
    Shutdown(Polled),
}

/// How a direction goes on after an event.
#[derive(Clone, Copy, Debug, PartialEq, Eq, Structural)]
pub enum Progress {
    /// It needs another operation at once.
    Continue,
    /// It waits for its socket.
    Blocked,
    /// It has finished.
    Finished,
    /// It failed, and the relay with it.
    Failed(Failure),
}

/// One direction of a relay as a plain value.
pub ghost struct Direction {
    /// The bytes that were read and not yet written, in order.
    pub unsent: Seq<u8>,
    /// Whether the direction has a buffer of its own.
    pub private: bool,
    /// Whether the source has reported its end.
    pub read_eof: bool,
    /// Whether the direction has finished.
    pub done: bool,
    /// All bytes that were read from the source, in order.
    pub received: Seq<u8>,
    /// All bytes that were written to the peer, in order.
    pub delivered: Seq<u8>,
}

impl Direction {
    /// A direction that has not done anything yet.
    pub open spec fn initial() -> Direction {
        Direction {
            unsent: Seq::empty(),
            private: false,
            read_eof: false,
            done: false,
            received: Seq::empty(),
            delivered: Seq::empty(),
        }
    }

    /// The operation that the direction needs next: it writes while it holds
    /// unsent bytes, reads only when it holds none and the source has not
    /// ended, and shuts the peer down when the source has ended and
    /// everything is written.
    pub open spec fn wants(self) -> Io {
        if self.done {
            Io::Nothing
        } else if self.unsent.len() > 0 {
            Io::Write
        } else if !self.read_eof {
            Io::Read
        } else {
            Io::Shutdown
        }
    }

    /// Whether the unsent bytes lie in the scratch buffer.
    pub open spec fn in_shared(self) -> bool {
        !self.private && self.unsent.len() > 0
    }

    /// Whether `event` is an outcome of the operation that the direction
    /// needs: a read gave no more bytes than the scratch buffer holds, which
    /// is not empty, and a write took no more bytes than were unsent.
    pub open spec fn accepts(self, event: Event, scratch: Seq<u8>) -> bool {
        match event {
            Event::Read(polled) => self.wants() is Read && scratch.len() > 0 && (
            polled matches Polled::Ready(n) ==> n <= scratch.len()),
            Event::Write(polled) => self.wants() is Write && (polled matches Polled::Ready(n)
                ==> n <= self.unsent.len()),
            Event::Shutdown(_) => self.wants() is Shutdown,
        }
    }

    /// The direction after a read, whose bytes stand at the start of
    /// `scratch`, and how it goes on. A read of no bytes is the end of the
    /// source.
    pub open spec fn after_read(self, polled: Polled, scratch: Seq<u8>) -> (Direction, Progress) {
        match polled {
            Polled::Ready(n) => if n == 0 {
                (Direction { read_eof: true, ..self }, Progress::Continue)
            } else {
                (
                    Direction {
                        unsent: scratch.take(n as int),
                        received: self.received + scratch.take(n as int),
                        ..self
                    },
                    Progress::Continue,
                )
            },
            Polled::Pending => (self, Progress::Blocked),
            Polled::Failed(failure) => (self, Progress::Failed(failure)),
        }
    }

    /// The direction after a write, and how it goes on. A write that took no
    /// bytes is a failure. A write that would block leaves the unsent bytes
    /// in a buffer of the direction's own.
    pub open spec fn after_write(self, polled: Polled) -> (Direction, Progress) {
        match polled {
            Polled::Ready(n) => if n == 0 {
                (self, Progress::Failed(Failure::WriteZero))
            } else {
                (
                    Direction {
                        unsent: self.unsent.skip(n as int),
                        delivered: self.delivered + self.unsent.take(n as int),
                        ..self
                    },
                    Progress::Continue,
                )
            },
            Polled::Pending => (Direction { private: true, ..self }, Progress::Blocked),
            Polled::Failed(failure) => (self, Progress::Failed(failure)),
        }
    }

    /// The direction after a shutdown of the peer's write half, and how it
    /// goes on. A shutdown that failed counts as done: the peer may be gone
    /// already.
    pub open spec fn after_shutdown(self, polled: Polled) -> (Direction, Progress) {
        match polled {
            Polled::Pending => (self, Progress::Blocked),
            _ => (Direction { done: true, ..self }, Progress::Finished),
        }
    }

    /// The direction after `event`, and how it goes on. An event that the
    /// direction does not accept changes nothing.
    pub open spec fn step(self, event: Event, scratch: Seq<u8>) -> (Direction, Progress) {
        if !self.accepts(event, scratch) {
            (self, Progress::Failed(Failure::Io))
        } else {
            match event {
                Event::Read(polled) => self.after_read(polled, scratch),
                Event::Write(polled) => self.after_write(polled),
                Event::Shutdown(polled) => self.after_shutdown(polled),
            }
        }
    }

    /// Nothing is lost, doubled or out of order: what was read is what was
    /// written followed by what is unsent. A direction that has finished has
    /// seen the end of its source and holds nothing.
    pub open spec fn intact(self) -> bool {
        &&& self.received == self.delivered + self.unsent
        &&& self.done ==> self.read_eof && self.unsent.len() == 0
    }

    /// The direction after a sequence of events, each with the scratch buffer
    /// as it was at that event.
    pub open spec fn run(self, events: Seq<(Event, Seq<u8>)>) -> Direction
        decreases events.len(),
    {
        if events.len() == 0 {
            self
        } else {
            self.run(events.drop_last()).step(events.last().0, events.last().1).0
        }
    }
}

/// No event breaks the books of a direction.
pub proof fn lemma_step_keeps_intact(before: Direction, event: Event, scratch: Seq<u8>)
    requires
        before.intact(),
    ensures
        before.step(event, scratch).0.intact(),
{
    let after = before.step(event, scratch).0;
    assert(after.received =~= after.delivered + after.unsent);
}

/// Whatever reads, writes and blockings a direction goes through, in whatever
/// order: the bytes written to the peer are the first of the bytes read from
/// the source, in the same order, and once the direction has finished they
/// are all of them.
pub proof fn lemma_relay_integrity(events: Seq<(Event, Seq<u8>)>)
    ensures
        ({
            let end = Direction::initial().run(events);
            &&& end.intact()
            &&& end.delivered.is_prefix_of(end.received)
            &&& end.done ==> end.delivered == end.received
        }),
    decreases events.len(),
{
    if events.len() > 0 {
        lemma_relay_integrity(events.drop_last());
        lemma_step_keeps_intact(
            Direction::initial().run(events.drop_last()),
            events.last().0,
            events.last().1,
        );
    }
}

/// A direction reads only while it holds nothing unsent and has not seen the
/// end of its source.
pub proof fn lemma_reads_only_when_empty(direction: Direction)
    ensures
        direction.wants() is Read ==> direction.unsent.len() == 0 && !direction.read_eof,
{
}

/// A direction that waits for its socket, or has finished, holds nothing in
/// the scratch buffer.
pub proof fn lemma_scratch_free_when_waiting(before: Direction, event: Event, scratch: Seq<u8>)
    requires
        before.intact(),
        before.accepts(event, scratch),
    ensures
        ({
            let (after, progress) = before.step(event, scratch);
            (progress is Blocked || progress is Finished) ==> !after.in_shared()
        }),
{
}

/// One direction of a relay: the cursors into its buffer and the state of
/// its source. The sockets are not part of it.
pub struct StreamWithBuffer {
    buf: Option<Vec<u8>>,
    pos: usize,
    cap: usize,
    read_eof: bool,
    done: bool,
    model: Ghost<Direction>,
}

impl View for StreamWithBuffer {
    type V = Direction;

    closed spec fn view(&self) -> Direction {
        self.model@
    }
}

impl StreamWithBuffer {
    /// The cursors and flags agree with the books, and the books are intact.
    /// Where the direction has a buffer of its own, the unsent bytes lie
    /// there between the two cursors.
    pub closed spec fn wf(&self) -> bool {
        &&& self@.intact()
        &&& self@.read_eof == self.read_eof
        &&& self@.done == self.done
        &&& self@.private == (self.buf is Some)
        &&& self.pos <= self.cap
        &&& self@.unsent.len() == self.cap - self.pos
        &&& self.buf matches Some(own) ==> {
            &&& own@.len() >= PRIVATE_BUF_SIZE
            &&& self.cap <= own@.len()
            &&& self@.unsent == own@.subrange(self.pos as int, self.cap as int)
        }
    }

    /// Where the direction has no buffer of its own, the unsent bytes lie in
    /// `scratch` between the two cursors.
    pub closed spec fn holds(&self, scratch: Seq<u8>) -> bool {
        self@.in_shared() ==> {
            &&& self.cap <= scratch.len()
            &&& self@.unsent == scratch.subrange(self.pos as int, self.cap as int)
        }
    }

    /// The size of the direction's own buffer, if it has one.
    pub closed spec fn own_len(&self) -> Option<nat> {
        match self.buf {
            Some(own) => Some(own@.len()),
            None => None,
        }
    }

    /// The size that a direction's own buffer is given when `unsent` bytes
    /// have to move there: the least size, or more if they need more.
    pub open spec fn own_len_for(unsent: nat) -> nat {
        if unsent > PRIVATE_BUF_SIZE {
            unsent
        } else {
            PRIVATE_BUF_SIZE as nat
        }
    }

    /// A direction that keeps its rules has intact books.
    pub proof fn lemma_books(&self)
        requires
            self.wf(),
        ensures
            self@.intact(),
            self@.done ==> self@.delivered == self@.received,
            self@.delivered.is_prefix_of(self@.received),
    {
    }

    /// A direction that has not done anything yet.
    pub fn new() -> (stream: StreamWithBuffer)
        ensures
            stream@ == Direction::initial(),
            stream.wf(),
    {
        StreamWithBuffer {
            buf: None,
            pos: 0,
            cap: 0,
            read_eof: false,
            done: false,
            model: Ghost(Direction::initial()),
        }
    }

    /// Whether every byte that was read has been written.
    pub fn is_empty(&self) -> (empty: bool)
        requires
            self.wf(),
        ensures
            empty == (self@.unsent.len() == 0),
    {
        self.pos == self.cap
    }

    /// Whether the source has reported its end.
    pub fn read_eof(&self) -> (eof: bool)
        requires
            self.wf(),
        ensures
            eof == self@.read_eof,
    {
        self.read_eof
    }

    /// Whether the direction has finished.
    pub fn done(&self) -> (done: bool)
        requires
            self.wf(),
        ensures
            done == self@.done,
    {
        self.done
    }

    /// The size of the direction's own buffer, if it has one.
    pub fn private_len(&self) -> (len: Option<usize>)
        ensures
            match len {
                Some(len) => self.own_len() == Some(len as nat),
                None => self.own_len() is None,
            },
    {
        match &self.buf {
            Some(own) => Some(own.len()),
            None => None,
        }
    }

    /// The operation that the direction needs next.
    pub fn wants(&self) -> (io: Io)
        requires
            self.wf(),
        ensures
            io == self@.wants(),
    {
        if self.done {
            Io::Nothing
        } else if self.pos != self.cap {
            Io::Write
        } else if !self.read_eof {
            Io::Read
        } else {
            Io::Shutdown
        }
    }

    /// The bytes to write next: all that is unsent.
    pub fn unwritten<'a>(&'a self, shared: &'a [u8]) -> (bytes: &'a [u8])
        requires
            self.wf(),
            self.holds(shared@),
        ensures
            bytes@ == self@.unsent,
    {
        match &self.buf {
            Some(own) => slice_subrange(own.as_slice(), self.pos, self.cap),
            None => {
                if self.pos == self.cap {
                    slice_subrange(shared, 0, 0)
                } else {
                    slice_subrange(shared, self.pos, self.cap)
                }
            },
        }
    }

    /// Takes the outcome of a read from the source into the start of
    /// `shared`. A direction with a buffer of its own moves the bytes there,
    /// so that `shared` is free again at once; a buffer too small for them
    /// is replaced by one of their size.
    pub fn poll_read_to_buffer(&mut self, shared: &[u8], polled: Polled) -> (r: Polled)
        requires
            old(self).wf(),
            old(self)@.accepts(Event::Read(polled), shared@),
        ensures
            final(self).wf(),
            final(self).holds(shared@),
            final(self)@ == old(self)@.after_read(polled, shared@).0,
            final(self).own_len() == match (old(self).own_len(), polled) {
                (Some(len), Polled::Ready(n)) => if n > len {
                    Some(n as nat)
                } else {
                    Some(len)
                },
                (len, _) => len,
            },
            r == polled,
    {
        let n = match polled {
            Polled::Ready(n) => n,
            _ => {
                return polled;
            },
        };
        if n == 0 {
            self.read_eof = true;
            self.model = Ghost(Direction { read_eof: true, ..self.model@ });
            return polled;
        }
        let ghost data = shared@.take(n as int);
        if let Some(own) = self.buf.take() {
            let mut own = own;
            if own.len() < n {
                own = vec![0u8; n];
            }
            let ghost len = own@.len();
            let mut i: usize = 0;
            while i < n
                invariant
                    i <= n <= shared@.len(),
                    n <= own@.len(),
                    own@.len() == len,
                    forall|j: int| 0 <= j < i ==> own@[j] == shared@[j],
                decreases n - i,
            {
                own[i] = shared[i];
                i += 1;
            }
            assert(own@.subrange(0, n as int) =~= data);
            self.buf = Some(own);
        }
        self.pos = 0;
        self.cap = n;
        self.model = Ghost(
            Direction { unsent: data, received: self.model@.received + data, ..self.model@ },
        );
        polled
    }

    /// Takes the outcome of a write of the unsent bytes to the peer. A write
    /// that took nothing is turned into a failure. When the write would
    /// block and the unsent bytes lie in `shared`, they are moved to a new
    /// buffer of the direction's own.
    pub fn poll_write_buffer_to(&mut self, shared: &[u8], polled: Polled) -> (r: Polled)
        requires
            old(self).wf(),
            old(self).holds(shared@),
            old(self)@.accepts(Event::Write(polled), shared@),
        ensures
            final(self).wf(),
            final(self).holds(shared@),
            final(self)@ == old(self)@.after_write(polled).0,
            final(self).own_len() == match (old(self).own_len(), polled) {
                (None, Polled::Pending) => Some(Self::own_len_for(old(self)@.unsent.len())),
                (len, _) => len,
            },
            r == match polled {
                Polled::Ready(n) => if n == 0 {
                    Polled::Failed(Failure::WriteZero)
                } else {
                    polled
                },
                _ => polled,
            },
    {
        match polled {
            Polled::Ready(n) => {
                if n == 0 {
                    return Polled::Failed(Failure::WriteZero);
                }
                let ghost unsent = self.model@.unsent;
                self.pos = self.pos + n;
                self.model = Ghost(
                    Direction {
                        unsent: unsent.skip(n as int),
                        delivered: self.model@.delivered + unsent.take(n as int),
                        ..self.model@
                    },
                );
                proof {
                    assert(self@.received =~= self@.delivered + self@.unsent);
                    if self.buf is Some {
                        assert(self@.unsent =~= self.buf->0@.subrange(
                            self.pos as int,
                            self.cap as int,
                        ));
                    } else if self.pos < self.cap {
                        assert(self@.unsent =~= shared@.subrange(self.pos as int, self.cap as int));
                    }
                }
                polled
            },
            Polled::Pending => {
                if self.buf.is_none() {
                    let available = self.cap - self.pos;
                    let size = if available > PRIVATE_BUF_SIZE {
                        available
                    } else {
                        PRIVATE_BUF_SIZE
                    };
                    let mut own: Vec<u8> = vec![0u8; size];
                    let mut i: usize = 0;
                    while i < available
                        invariant
                            i <= available <= own@.len(),
                            own@.len() == size,
                            available == self.cap - self.pos,
                            self.pos <= self.cap <= shared@.len(),
                            forall|j: int| 0 <= j < i ==> own@[j] == shared@[self.pos + j],
                        decreases available - i,
                    {
                        own[i] = shared[self.pos + i];
                        i += 1;
                    }
                    assert(own@.subrange(0, available as int) =~= shared@.subrange(
                        self.pos as int,
                        self.cap as int,
                    ));
                    self.buf = Some(own);
                    self.pos = 0;
                    self.cap = available;
                    self.model = Ghost(Direction { private: true, ..self.model@ });
                }
                polled
            },
            Polled::Failed(_) => polled,
        }
    }
}

/// One of the two directions of a relay, named by the socket it reads from.
#[derive(Clone, Copy, Debug, PartialEq, Eq, Structural)]
pub enum Side {
    Left,
    Right,
}

/// Where a relay stands in one round: first the left direction runs until
/// it waits or has finished, then the right one, then the relay decides
/// whether it is over.
#[derive(Clone, Copy, Debug, PartialEq, Eq, Structural)]
pub enum Stage {
    /// The left direction runs.
    Left,
    /// The right direction runs.
    Right,
    /// Both directions wait or have finished: the relay decides.
    Decide,
    /// The relay is over.
    Closed,
}

/// What a relay needs next.
#[derive(Clone, Copy, Debug, PartialEq, Eq, Structural)]
pub enum Action {
    /// An operation for one direction.
    Io(Side, Io),
    /// The current time, to decide whether the relay is over.
    Decide,
    /// Nothing: the relay is over.
    Nothing,
}

/// Whether a relay is over.
#[derive(Clone, Copy, Debug, PartialEq, Eq, Structural)]
pub enum Verdict {
    /// The relay has completed.
    Complete,
    /// The relay waits for its sockets, or for its deadline.
    Pending,
}

/// The deadline that a half-closed relay sets at the time `now`.
pub open spec fn deadline_after(now: u64) -> u64 {
    if now + HALF_CLOSE_TIMEOUT_MS > u64::MAX {
        u64::MAX
    } else {
        (now + HALF_CLOSE_TIMEOUT_MS) as u64
    }
}

/// A relay as a plain value.
pub ghost struct Pipe {
    /// The direction from the left socket to the right one.
    pub left: Direction,
    /// The direction from the right socket to the left one.
    pub right: Direction,
    /// When a half-closed relay gives up, in milliseconds.
    pub deadline: Option<u64>,
    /// Where the relay stands in its round.
    pub stage: Stage,
}

impl Pipe {
    /// A relay that has not done anything yet.
    pub open spec fn initial() -> Pipe {
        Pipe {
            left: Direction::initial(),
            right: Direction::initial(),
            deadline: None,
            stage: Stage::Left,
        }
    }

    /// The direction of one side.
    pub open spec fn direction(self, side: Side) -> Direction {
        match side {
            Side::Left => self.left,
            Side::Right => self.right,
        }
    }

    /// The stage in which one side runs.
    pub open spec fn stage_of(side: Side) -> Stage {
        match side {
            Side::Left => Stage::Left,
            Side::Right => Stage::Right,
        }
    }

    /// Whether unsent bytes of the relay lie in the scratch buffer.
    pub open spec fn holds_scratch(self) -> bool {
        self.left.in_shared() || self.right.in_shared()
    }

    /// The books of both directions are intact, and only the direction that
    /// runs can hold bytes in the scratch buffer.
    pub open spec fn wf(self) -> bool {
        &&& self.left.intact()
        &&& self.right.intact()
        &&& self.stage is Left ==> !self.left.done && !self.right.in_shared()
        &&& self.stage is Right ==> !self.right.done && !self.left.in_shared()
        &&& self.stage is Decide ==> !self.holds_scratch()
        &&& !(self.left.in_shared() && self.right.in_shared())
    }

    /// What the relay needs next.
    pub open spec fn action(self) -> Action {
        match self.stage {
            Stage::Left => Action::Io(Side::Left, self.left.wants()),
            Stage::Right => Action::Io(Side::Right, self.right.wants()),
            Stage::Decide => Action::Decide,
            Stage::Closed => Action::Nothing,
        }
    }

    /// The stage that follows when the direction of `side` stops running.
    pub open spec fn stage_behind(self, side: Side) -> Stage {
        match side {
            Side::Left => if self.right.done {
                Stage::Decide
            } else {
                Stage::Right
            },
            Side::Right => Stage::Decide,
        }
    }

    /// The relay after an event of the direction that runs, and how that
    /// direction goes on. A direction that waits or has finished hands over
    /// to the next stage; one that failed closes the relay.
    pub open spec fn after_event(self, side: Side, event: Event, scratch: Seq<u8>) -> (
        Pipe,
        Progress,
    ) {
        let (direction, progress) = self.direction(side).step(event, scratch);
        let moved = match side {
            Side::Left => Pipe { left: direction, ..self },
            Side::Right => Pipe { right: direction, ..self },
        };
        let stage = match progress {
            Progress::Continue => self.stage,
            Progress::Blocked => self.stage_behind(side),
            Progress::Finished => self.stage_behind(side),
            Progress::Failed(_) => Stage::Closed,
        };
        (Pipe { stage, ..moved }, progress)
    }

    /// The stage in which the next round starts: with the left direction, if
    /// it has not finished.
    pub open spec fn first_stage(self) -> Stage {
        if !self.left.done {
            Stage::Left
        } else if !self.right.done {
            Stage::Right
        } else {
            Stage::Decide
        }
    }

    /// The relay after the decision at the time `now`, and the decision. With
    /// both directions finished the relay has completed. With one finished
    /// and the other not, it waits until its deadline: the first such
    /// decision sets the deadline, every later one before the deadline moves
    /// it on, and one at or behind the deadline completes the relay.
    pub open spec fn decide(self, now: u64) -> (Pipe, Verdict) {
        if self.left.done && self.right.done {
            (Pipe { stage: Stage::Closed, ..self }, Verdict::Complete)
        } else if !self.left.done && !self.right.done {
            (Pipe { stage: self.first_stage(), ..self }, Verdict::Pending)
        } else {
            match self.deadline {
                Some(deadline) if now >= deadline => (
                    Pipe { stage: Stage::Closed, ..self },
                    Verdict::Complete,
                ),
                _ => (
                    Pipe {
                        stage: self.first_stage(),
                        deadline: Some(deadline_after(now)),
                        ..self
                    },
                    Verdict::Pending,
                ),
            }
        }
    }
}

/// No event and no decision breaks the rules of a relay: the books stay
/// intact, and the scratch buffer never holds unsent bytes of both
/// directions, nor of any direction that does not run.
pub proof fn lemma_pipe_stays_wf(pipe: Pipe, side: Side, event: Event, scratch: Seq<u8>, now: u64)
    requires
        pipe.wf(),
    ensures
        pipe.stage == Pipe::stage_of(side) && pipe.direction(side).accepts(event, scratch)
            ==> pipe.after_event(side, event, scratch).0.wf(),
        pipe.stage is Decide ==> pipe.decide(now).0.wf(),
        !(pipe.left.in_shared() && pipe.right.in_shared()),
{
    lemma_step_keeps_intact(pipe.direction(side), event, scratch);
}

/// A relay with one direction finished and the other not stays pending, and
/// completes at once when the other direction finishes too. If that does not
/// happen, it completes at the first decision at or behind the deadline, and
/// at none before: the deadline lies the whole grace period behind the
/// decision that set it, and no event on a socket moves it.
pub proof fn lemma_half_close(
    pipe: Pipe,
    later: Pipe,
    at: u64,
    now: u64,
    side: Side,
    event: Event,
    scratch: Seq<u8>,
)
    requires
        pipe.left.done != pipe.right.done,
        pipe.deadline is None,
        later.deadline == pipe.decide(at).0.deadline,
    ensures
        pipe.decide(at).1 is Pending,
        pipe.decide(at).0.deadline == Some(deadline_after(at)),
        later.after_event(side, event, scratch).0.deadline == later.deadline,
        later.left.done && later.right.done ==> later.decide(now).1 is Complete,
        later.left.done != later.right.done ==> (later.decide(now).1 is Complete <==> now
            >= deadline_after(at)),
        at + HALF_CLOSE_TIMEOUT_MS <= u64::MAX ==> deadline_after(at) == at
            + HALF_CLOSE_TIMEOUT_MS,
{
}

/// The two directions of a connection, relayed as one unit.
pub struct BiPipe {
    left: StreamWithBuffer,
    right: StreamWithBuffer,
    half_close_deadline: Option<u64>,
    stage: Stage,
}

impl View for BiPipe {
    type V = Pipe;

    closed spec fn view(&self) -> Pipe {
        Pipe {
            left: self.left@,
            right: self.right@,
            deadline: self.half_close_deadline,
            stage: self.stage,
        }
    }
}

/// A relay for a pair of sockets that has not done anything yet.
pub fn pipe() -> (relay: BiPipe)
    ensures
        relay@ == Pipe::initial(),
        relay.wf(),
{
    BiPipe {
        left: StreamWithBuffer::new(),
        right: StreamWithBuffer::new(),
        half_close_deadline: None,
        stage: Stage::Left,
    }
}

impl BiPipe {
    /// The relay keeps its rules, and both directions keep theirs.
    pub closed spec fn wf(&self) -> bool {
        &&& self@.wf()
        &&& self.left.wf()
        &&& self.right.wf()
    }

    /// The direction that holds bytes in the scratch buffer finds them in
    /// `scratch`.
    pub closed spec fn holds(&self, scratch: Seq<u8>) -> bool {
        &&& self.left.holds(scratch)
        &&& self.right.holds(scratch)
    }

    /// A relay that keeps its rules is one whose plain value keeps them.
    pub proof fn lemma_rules(&self)
        requires
            self.wf(),
        ensures
            self@.wf(),
    {
    }

    /// A relay that holds nothing in the scratch buffer does not care what
    /// the scratch buffer is used for.
    pub proof fn lemma_scratch_free(&self, scratch: Seq<u8>)
        requires
            !self@.holds_scratch(),
        ensures
            self.holds(scratch),
    {
    }

    /// What the relay needs next.
    pub fn action(&self) -> (action: Action)
        requires
            self.wf(),
        ensures
            action == self@.action(),
    {
        match self.stage {
            Stage::Left => Action::Io(Side::Left, self.left.wants()),
            Stage::Right => Action::Io(Side::Right, self.right.wants()),
            Stage::Decide => Action::Decide,
            Stage::Closed => Action::Nothing,
        }
    }

    /// The bytes that the direction of `side` has to write next.
    pub fn unwritten<'a>(&'a self, side: Side, shared: &'a [u8]) -> (bytes: &'a [u8])
        requires
            self.wf(),
            self.holds(shared@),
        ensures
            bytes@ == self@.direction(side).unsent,
    {
        match side {
            Side::Left => self.left.unwritten(shared),
            Side::Right => self.right.unwritten(shared),
        }
    }

    /// When the relay gives up waiting for its second direction, in
    /// milliseconds; `None` while it is not half closed.
    pub fn deadline(&self) -> (deadline: Option<u64>)
        ensures
            deadline == self@.deadline,
    {
        self.half_close_deadline
    }

    /// Takes the outcome of the operation that the direction of `side`
    /// needed, and says how that direction goes on.
    pub fn poll_one_side(&mut self, side: Side, shared: &[u8], event: Event) -> (progress: Progress)
        requires
            old(self).wf(),
            old(self).holds(shared@),
            old(self)@.stage == Pipe::stage_of(side),
            old(self)@.direction(side).accepts(event, shared@),
        ensures
            (final(self)@, progress) == old(self)@.after_event(side, event, shared@),
            final(self).wf(),
            final(self).holds(shared@),
    {
        proof {
            lemma_pipe_stays_wf(self@, side, event, shared@, 0);
        }
        let (progress, other_done) = match side {
            Side::Left => (self.left.advance(shared, event), self.right.done),
            Side::Right => (self.right.advance(shared, event), true),
        };
        match progress {
            Progress::Continue => {},
            Progress::Blocked | Progress::Finished => {
                self.stage = if other_done {
                    Stage::Decide
                } else {
                    Stage::Right
                };
            },
            Progress::Failed(_) => {
                self.stage = Stage::Closed;
            },
        }
        progress
    }

    /// Decides at the time `now`, in milliseconds, whether the relay is over.
    /// Whatever the decision, the relay holds nothing in the scratch buffer
    /// when it is made: until the next round the buffer is free for others.
    pub fn poll(&mut self, now: u64) -> (verdict: Verdict)
        requires
            old(self).wf(),
            old(self)@.stage is Decide,
        ensures
            (final(self)@, verdict) == old(self)@.decide(now),
            final(self).wf(),
            !final(self)@.holds_scratch(),
    {
        proof {
            lemma_pipe_stays_wf(self@, Side::Left, Event::Shutdown(Polled::Pending), Seq::empty(), now);
        }
        let first = if !self.left.done {
            Stage::Left
        } else if !self.right.done {
            Stage::Right
        } else {
            Stage::Decide
        };
        let verdict = match (self.left.done, self.right.done) {
            (true, true) => Verdict::Complete,
            (false, false) => Verdict::Pending,
            _ => match self.half_close_deadline {
                Some(deadline) if now >= deadline => Verdict::Complete,
                _ => {
                    self.half_close_deadline = Some(now.saturating_add(HALF_CLOSE_TIMEOUT_MS));
                    Verdict::Pending
                },
            },
        };
        self.stage = match verdict {
            Verdict::Complete => Stage::Closed,
            Verdict::Pending => first,
        };
        verdict
    }
}

impl StreamWithBuffer {
    /// Takes the outcome of the operation that the direction needed, and
    /// says how the direction goes on.
    pub fn advance(&mut self, shared: &[u8], event: Event) -> (progress: Progress)
        requires
            old(self).wf(),
            old(self).holds(shared@),
            old(self)@.accepts(event, shared@),
        ensures
            (final(self)@, progress) == old(self)@.step(event, shared@),
            final(self).wf(),
            final(self).holds(shared@),
    {
        match event {
            Event::Read(polled) => match self.poll_read_to_buffer(shared, polled) {
                Polled::Ready(_) => Progress::Continue,
                Polled::Pending => Progress::Blocked,
                Polled::Failed(failure) => Progress::Failed(failure),
            },
            Event::Write(polled) => match self.poll_write_buffer_to(shared, polled) {
                Polled::Ready(_) => Progress::Continue,
                Polled::Pending => Progress::Blocked,
                Polled::Failed(failure) => Progress::Failed(failure),
            },
            Event::Shutdown(polled) => match polled {
                Polled::Pending => Progress::Blocked,
                _ => {
                    self.done = true;
                    self.model = Ghost(Direction { done: true, ..self.model@ });
                    Progress::Finished
                },
            },
        }
    }
}

} // verus!
