//! The write side: how the target file is opened and the state machine
//! behind a sink that writes one chunk at a time.
use vstd::prelude::*;

verus! {

/// How to open the file that a sink writes to: the flags of an operating
/// system open call.
///
/// The default creates the file where it is absent and opens it for writing.
#[derive(Clone, Copy, Debug, PartialEq, Eq)]
pub struct WriteOptions {
    /// Open for reading too.
    pub read: bool,
    /// Open for writing.
    pub write: bool,
    /// Write at the end of the file.
    pub append: bool,
    /// Cut the file to length zero on opening.
    pub truncate: bool,
    /// Create the file where it is absent.
    pub create: bool,
    /// Create the file, failing where it already exists.
    pub create_new: bool,
}

impl Default for WriteOptions {
    fn default() -> (r: WriteOptions)
        ensures
            r.write && r.create,
            !r.read && !r.append && !r.truncate && !r.create_new,
    {
        WriteOptions {
            read: false,
            write: true,
            append: false,
            truncate: false,
            create: true,
            create_new: false,
        }
    }
}

/// Where a write sink stands. `F` is the open file handle, owned by the
/// state while idle and by the worker while a step is in flight.
pub enum WriteState<F> {
    /// The step that opens the file, or a write, is in flight.
    Working,
    /// Idle: holds the file, ready for the next chunk.
    Ready(F),
    /// A step failed: the sink must not be used again.
    Failed,
}

/// What becomes of a chunk offered to a write sink.
pub enum SendAction<F> {
    /// Accepted: dispatch a step that writes the whole chunk to the file.
    Write(F, bytes::Bytes),
    /// Not accepted while a step is in flight: the chunk comes back, to be
    /// offered again later.
    NotReady(bytes::Bytes),
    /// The sink failed earlier: the chunk comes back.
    Poisoned(bytes::Bytes),
}

/// The state after a chunk is offered in state `s`.
pub open spec fn state_after_send<F>(s: WriteState<F>) -> WriteState<F> {
    match s {
        WriteState::Ready(_) => WriteState::Working,
        _ => s,
    }
}

/// The state after the step in flight in state `s` completes and hands back
/// `file`.
pub open spec fn state_after_step<F>(s: WriteState<F>, file: F) -> WriteState<F> {
    match s {
        WriteState::Working => WriteState::Ready(file),
        _ => s,
    }
}

/// What becomes of `item` when it is offered in state `s`.
pub open spec fn send_action<F>(s: WriteState<F>, item: bytes::Bytes) -> SendAction<F> {
    match s {
        WriteState::Ready(file) => SendAction::Write(file, item),
        WriteState::Working => SendAction::NotReady(item),
        WriteState::Failed => SendAction::Poisoned(item),
    }
}

/// The decisions behind a sink of chunks written to one file: at most one
/// step is in flight, and a chunk is accepted only while the sink is idle.
pub struct WriteMachine<F> {
    state: WriteState<F>,
}

impl<F> WriteMachine<F> {
    /// Where the sink stands.
    pub closed spec fn state(&self) -> WriteState<F> {
        self.state
    }

    /// A sink whose file is being opened: the caller has dispatched the open.
    pub fn new() -> (r: Self)
        ensures
            r.state() == WriteState::<F>::Working,
    {
        WriteMachine { state: WriteState::Working }
    }

    /// A sink of a file that is already open: it starts idle.
    pub fn from_file(file: F) -> (r: Self)
        ensures
            r.state() == WriteState::<F>::Ready(file),
    {
        WriteMachine { state: WriteState::Ready(file) }
    }

    /// Whether a step is in flight, whose completion the caller must poll.
    pub fn is_working(&self) -> (r: bool)
        ensures
            r == (self.state() is Working),
    {
        match self.state {
            WriteState::Working => true,
            _ => false,
        }
    }

    /// Whether the sink is idle, holding its file.
    pub fn is_ready(&self) -> (r: bool)
        ensures
            r == (self.state() is Ready),
    {
        match self.state {
            WriteState::Ready(_) => true,
            _ => false,
        }
    }

    /// Takes back the file from the step in flight, which succeeded: the sink
    /// is idle again.
    pub fn finish_step(&mut self, file: F)
        requires
            old(self).state() is Working,
        ensures
            final(self).state() == state_after_step(old(self).state(), file),
            final(self).state() == WriteState::<F>::Ready(file),
    {
        self.state = WriteState::Ready(file);
    }

    /// Records a failed step: the sink ends in failure.
    pub fn fail(&mut self)
        ensures
            final(self).state() is Failed,
    {
        self.state = WriteState::Failed;
    }

    /// Offers a chunk. An idle sink hands out its file with the chunk, to be
    /// written by a dispatched step, and is working from then on; otherwise
    /// the chunk comes back unaccepted and nothing changes.
    pub fn start_send(&mut self, item: bytes::Bytes) -> (r: SendAction<F>)
        ensures
            final(self).state() == state_after_send(old(self).state()),
            r == send_action(old(self).state(), item),
    {
        let mut current = WriteState::Failed;
        std::mem::swap(&mut self.state, &mut current);
        match current {
            WriteState::Ready(file) => {
                self.state = WriteState::Working;
                SendAction::Write(file, item)
            },
            WriteState::Working => {
                self.state = WriteState::Working;
                SendAction::NotReady(item)
            },
            WriteState::Failed => SendAction::Poisoned(item),
        }
    }
}

/// Backpressure: a chunk offered while a step is in flight comes back
/// unaccepted and leaves the sink as it was; once that step has completed
/// and handed back the file, the same chunk is accepted and written to it.
pub proof fn offer_waits_for_step<F>(s: WriteState<F>, file: F, item: bytes::Bytes)
    requires
        s is Working,
    ensures
        send_action(s, item) == SendAction::<F>::NotReady(item),
        state_after_send(s) == s,
        send_action(state_after_step(s, file), item) == SendAction::<F>::Write(file, item),
        state_after_send(state_after_step(s, file)) == WriteState::<F>::Working,
{
}

} // verus!
