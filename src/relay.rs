//! Decisions of one direction of the byte relay between a source and a
//! destination channel.
//!
//! The caller performs each [`RelayAction`] on the real channels and reports
//! what came of it; the [`Relay`] decides what to do next. Whatever the
//! channels report, the destination is handed exactly the bytes read from
//! the source, in order, each once.
use vstd::prelude::*;
use crate::util::copy_prefix;

verus! {

/// Size of the buffer a relay reads into: a few kilobytes are enough, as no
/// framing exists at this layer.
pub const CHUNK_SIZE: usize = 4096;

/// What a read of the source into the buffer gave.
#[derive(Clone, Copy, Debug, PartialEq, Eq, Structural)]
pub enum ReadOutcome {
    /// This many bytes were placed at the start of the buffer; zero means
    /// that the source has ended.
    Data(usize),
    /// No data is available yet on a non-blocking channel.
    WouldBlock,
    /// The read was interrupted by a signal before any data came.
    Interrupted,
    /// Any other error.
    Failed,
}

/// What a write of pending bytes to the destination gave.
#[derive(Clone, Copy, Debug, PartialEq, Eq, Structural)]
pub enum WriteOutcome {
    /// This many of the bytes handed over were written.
    Wrote(usize),
    /// The destination cannot take data yet on a non-blocking channel.
    WouldBlock,
    /// The write was interrupted by a signal before any data went out.
    Interrupted,
    /// Any other error.
    Failed,
}

/// What the caller is to do next.
#[derive(Debug, PartialEq, Eq)]
pub enum RelayAction {
    /// Read a chunk from the source into the buffer.
    Read,
    /// Block until the source is readable, then report readiness.
    AwaitReadable,
    /// Write these bytes to the destination.
    Write(Vec<u8>),
    /// Block until the destination is writable, then report readiness.
    AwaitWritable,
    /// Flush the destination.
    Flush,
    /// This direction is over.
    Stop,
}

/// Whether `a` asks to write exactly `bytes`.
pub open spec fn writes(a: RelayAction, bytes: Seq<u8>) -> bool {
    match a {
        RelayAction::Write(b) => b@ == bytes,
        _ => false,
    }
}

/// Where a relay stands.
#[derive(Clone, Copy, Debug, PartialEq, Eq, Structural)]
pub enum RelayPhase {
    /// Waiting for bytes from the source.
    Reading,
    /// Handing a chunk to the destination.
    Writing,
    /// The chunk is written; the destination is being flushed.
    Flushing,
    /// End of stream or an I/O failure ended this direction.
    Closed,
}

/// One direction of the relay.
pub struct Relay {
    phase: RelayPhase,
    pending: Vec<u8>,
    received: Ghost<Seq<u8>>,
    sent: Ghost<Seq<u8>>,
}

impl Relay {
    pub closed spec fn phase_spec(&self) -> RelayPhase {
        self.phase
    }

    /// The bytes read from the source and not yet written to the destination.
    pub closed spec fn pending(&self) -> Seq<u8> {
        self.pending@
    }

    /// Every byte read from the source so far, in order.
    pub closed spec fn received(&self) -> Seq<u8> {
        self.received@
    }

    /// Every byte written to the destination so far, in order.
    pub closed spec fn sent(&self) -> Seq<u8> {
        self.sent@
    }

    /// What was sent, followed by what is pending, is what was received;
    /// bytes are pending while a chunk is being written, none while reading
    /// or flushing. A relay that a failed write closed keeps what it could
    /// not hand over.
    pub open spec fn wf(&self) -> bool {
        &&& self.sent() + self.pending() == self.received()
        &&& self.phase_spec() == RelayPhase::Writing ==> self.pending().len() > 0
        &&& self.phase_spec() == RelayPhase::Reading ==> self.pending().len() == 0
        &&& self.phase_spec() == RelayPhase::Flushing ==> self.pending().len() == 0
    }

    /// A relay that has moved no bytes yet; its first action is
    /// [`RelayAction::Read`].
    pub fn new() -> (r: Relay)
        ensures
            r.wf(),
            r.phase_spec() == RelayPhase::Reading,
            r.received() == Seq::<u8>::empty(),
            r.sent() == Seq::<u8>::empty(),
    {
        Relay {
            phase: RelayPhase::Reading,
            pending: Vec::new(),
            received: Ghost(Seq::empty()),
            sent: Ghost(Seq::empty()),
        }
    }

    pub fn phase(&self) -> (r: RelayPhase)
        ensures
            r == self.phase_spec(),
    {
        self.phase
    }

    /// The action that writes every pending byte.
    fn write_pending(&self) -> (r: RelayAction)
        ensures
            writes(r, self.pending@),
    {
        let bytes = copy_prefix(self.pending.as_slice(), self.pending.len());
        assert(bytes@ =~= self.pending@);
        RelayAction::Write(bytes)
    }

    /// Decides what follows a read of the source into `buf`. A chunk is
    /// handed on whole; end of stream or a failure ends this direction; no
    /// data yet means waiting for the source, and an interrupted read is
    /// retried.
    pub fn on_read(&mut self, buf: &[u8], outcome: ReadOutcome) -> (r: RelayAction)
        requires
            old(self).wf(),
            old(self).phase_spec() == RelayPhase::Reading,
            outcome matches ReadOutcome::Data(n) ==> n <= buf@.len(),
        ensures
            final(self).wf(),
            final(self).sent() == old(self).sent(),
            match outcome {
                ReadOutcome::Data(n) => if n == 0 {
                    &&& r == RelayAction::Stop
                    &&& final(self).phase_spec() == RelayPhase::Closed
                    &&& final(self).received() == old(self).received()
                    &&& final(self).sent() == final(self).received()
                } else {
                    &&& writes(r, buf@.subrange(0, n as int))
                    &&& final(self).phase_spec() == RelayPhase::Writing
                    &&& final(self).pending() == buf@.subrange(0, n as int)
                    &&& final(self).received() == old(self).received() + buf@.subrange(0, n as int)
                },
                ReadOutcome::WouldBlock => {
                    &&& r == RelayAction::AwaitReadable
                    &&& *final(self) == *old(self)
                },
                ReadOutcome::Interrupted => {
                    &&& r == RelayAction::Read
                    &&& *final(self) == *old(self)
                },
                ReadOutcome::Failed => {
                    &&& r == RelayAction::Stop
                    &&& final(self).phase_spec() == RelayPhase::Closed
                    &&& final(self).received() == old(self).received()
                },
            },
    {
        match outcome {
            ReadOutcome::Data(n) => {
                if n == 0 {
                    self.phase = RelayPhase::Closed;
                    RelayAction::Stop
                } else {
                    let chunk = copy_prefix(buf, n);
                    self.pending = chunk;
                    self.phase = RelayPhase::Writing;
                    self.received = Ghost(self.received@ + buf@.subrange(0, n as int));
                    proof {
                        assert(self.sent@ + self.pending@ =~= self.received@);
                    }
                    self.write_pending()
                }
            },
            ReadOutcome::WouldBlock => RelayAction::AwaitReadable,
            ReadOutcome::Interrupted => RelayAction::Read,
            ReadOutcome::Failed => {
                self.phase = RelayPhase::Closed;
                RelayAction::Stop
            },
        }
    }

    /// Decides what follows a write of the pending bytes. Written bytes
    /// leave the pending ones from the front; once none is left the
    /// destination is flushed. A destination that takes nothing, or fails,
    /// ends this direction; one that cannot take data yet is waited for, and
    /// an interrupted write is retried.
    pub fn on_write(&mut self, outcome: WriteOutcome) -> (r: RelayAction)
        requires
            old(self).wf(),
            old(self).phase_spec() == RelayPhase::Writing,
            outcome matches WriteOutcome::Wrote(n) ==> n <= old(self).pending().len(),
        ensures
            final(self).wf(),
            final(self).received() == old(self).received(),
            match outcome {
                WriteOutcome::Wrote(n) => if n == 0 {
                    &&& r == RelayAction::Stop
                    &&& final(self).phase_spec() == RelayPhase::Closed
                    &&& final(self).sent() == old(self).sent()
                } else {
                    &&& final(self).sent() == old(self).sent() + old(self).pending().subrange(0, n as int)
                    &&& final(self).pending() == old(self).pending().subrange(n as int, old(self).pending().len() as int)
                    &&& if n == old(self).pending().len() {
                        &&& r == RelayAction::Flush
                        &&& final(self).phase_spec() == RelayPhase::Flushing
                    } else {
                        &&& writes(r, final(self).pending())
                        &&& final(self).phase_spec() == RelayPhase::Writing
                    }
                },
                WriteOutcome::WouldBlock => {
                    &&& r == RelayAction::AwaitWritable
                    &&& *final(self) == *old(self)
                },
                WriteOutcome::Interrupted => {
                    &&& writes(r, old(self).pending())
                    &&& *final(self) == *old(self)
                },
                WriteOutcome::Failed => {
                    &&& r == RelayAction::Stop
                    &&& final(self).phase_spec() == RelayPhase::Closed
                    &&& final(self).sent() == old(self).sent()
                },
            },
    {
        match outcome {
            WriteOutcome::Wrote(n) => {
                if n == 0 {
                    self.phase = RelayPhase::Closed;
                    RelayAction::Stop
                } else {
                    let ghost before = self.pending@;
                    let rest = self.pending.split_off(n);
                    self.sent = Ghost(self.sent@ + self.pending@);
                    self.pending = rest;
                    proof {
                        assert(self.sent@ + self.pending@ =~= old(self).sent@ + before);
                    }
                    if self.pending.len() == 0 {
                        self.phase = RelayPhase::Flushing;
                        RelayAction::Flush
                    } else {
                        self.write_pending()
                    }
                }
            },
            WriteOutcome::WouldBlock => RelayAction::AwaitWritable,
            WriteOutcome::Interrupted => self.write_pending(),
            WriteOutcome::Failed => {
                self.phase = RelayPhase::Closed;
                RelayAction::Stop
            },
        }
    }

    /// Decides what follows a flush of the destination: the next read, or
    /// the end of this direction if the flush failed.
    pub fn on_flush(&mut self, flushed: bool) -> (r: RelayAction)
        requires
            old(self).wf(),
            old(self).phase_spec() == RelayPhase::Flushing,
        ensures
            final(self).wf(),
            final(self).received() == old(self).received(),
            final(self).sent() == old(self).sent(),
            flushed ==> r == RelayAction::Read && final(self).phase_spec() == RelayPhase::Reading,
            !flushed ==> r == RelayAction::Stop && final(self).phase_spec() == RelayPhase::Closed,
    {
        if flushed {
            self.phase = RelayPhase::Reading;
            RelayAction::Read
        } else {
            self.phase = RelayPhase::Closed;
            RelayAction::Stop
        }
    }

    /// Decides what follows a wait for readiness: the operation that had to
    /// wait is issued again.
    pub fn on_ready(&mut self) -> (r: RelayAction)
        requires
            old(self).wf(),
        ensures
            *final(self) == *old(self),
            match old(self).phase_spec() {
                RelayPhase::Reading => r == RelayAction::Read,
                RelayPhase::Writing => writes(r, old(self).pending()),
                RelayPhase::Flushing => r == RelayAction::Flush,
                RelayPhase::Closed => r == RelayAction::Stop,
            },
    {
        match self.phase {
            RelayPhase::Reading => RelayAction::Read,
            RelayPhase::Writing => self.write_pending(),
            RelayPhase::Flushing => RelayAction::Flush,
            RelayPhase::Closed => RelayAction::Stop,
        }
    }
}

/// Byte fidelity of the relay: whenever a relay is reading or flushing, the
/// destination has been handed exactly the bytes read from the source, in
/// order, none lost, doubled or moved; at any time, what was handed over is
/// a prefix of what was read.
pub proof fn lemma_relay_fidelity(relay: Relay)
    requires
        relay.wf(),
    ensures
        relay.phase_spec() == RelayPhase::Reading || relay.phase_spec() == RelayPhase::Flushing
            ==> relay.sent() == relay.received(),
        relay.sent().len() <= relay.received().len(),
        relay.sent() == relay.received().subrange(0, relay.sent().len() as int),
{
    if relay.phase_spec() == RelayPhase::Reading || relay.phase_spec() == RelayPhase::Flushing {
        assert(relay.sent() =~= relay.sent() + relay.pending());
    }
    assert(relay.sent() =~= (relay.sent() + relay.pending()).subrange(0, relay.sent().len() as int));
}

} // verus!
