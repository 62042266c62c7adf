//! The read side: choosing a buffer size and the state machine behind a
//! stream of chunks read from a file.
use vstd::prelude::*;

use crate::buf::{
    buffer_bytes, buffer_cap, buffer_capacity, buffer_len, chunk_bytes, empty_buffer, freeze, reserve,
    split_off, take,
};

verus! {

/// Buffer size used when the operating system gives no block size.
pub const DEFAULT_BUF_SIZE: usize = 8192;

/// Options for how to read a file.
///
/// By default the buffer size is derived from the file when it is opened.
pub struct ReadOptions {
    /// The buffer size to use; `None` derives it from the file.
    pub buffer_size: Option<usize>,
}

impl Default for ReadOptions {
    fn default() -> (r: ReadOptions)
        ensures
            r.buffer_size is None,
    {
        ReadOptions { buffer_size: None }
    }
}

/// What a lookup of an open file's metadata reports.
#[derive(Clone, Copy, Debug, PartialEq, Eq)]
pub struct FileMeta {
    /// The file's length in bytes.
    pub len: u64,
    /// The preferred I/O block size, where the platform reports one.
    pub block_size: Option<usize>,
}

/// The block size to read with: the reported one, else the default.
pub open spec fn block_size_of(meta: FileMeta) -> usize {
    match meta.block_size {
        Some(b) => b,
        None => DEFAULT_BUF_SIZE,
    }
}

/// The buffer size for a file: the requested size, else the file's block
/// size, in both cases no larger than the file; without metadata the
/// requested size, else the default.
pub open spec fn chosen_buf_size(requested: Option<usize>, meta: Option<FileMeta>) -> int {
    match meta {
        Some(m) => {
            let wanted: int = match requested {
                Some(b) => b as int,
                None => block_size_of(m) as int,
            };
            if (m.len as int) < wanted { m.len as int } else { wanted }
        },
        None => match requested {
            Some(b) => b as int,
            None => DEFAULT_BUF_SIZE as int,
        },
    }
}

/// Buffer-size derivation: with no explicit size, a file shorter than its
/// block size gets a buffer of its own length and any other file a buffer of
/// its block size, which is the default where the platform reports none;
/// without metadata the size is the default.
pub proof fn derived_buffer_size(meta: Option<FileMeta>)
    ensures
        meta matches Some(m) ==> {
            &&& (m.len as int) < block_size_of(m) ==> chosen_buf_size(None, meta) == m.len as int
            &&& (m.len as int) >= block_size_of(m) ==> chosen_buf_size(None, meta)
                == block_size_of(m) as int
        },
        meta is None ==> chosen_buf_size(None, meta) == DEFAULT_BUF_SIZE as int,
{
}

/// Chooses the buffer size for reading a file from the requested size and
/// the file's metadata, when that lookup succeeded.
pub fn finalize_buf_size(buf_size: Option<usize>, meta: Option<FileMeta>) -> (r: usize)
    ensures
        r == chosen_buf_size(buf_size, meta),
{
    match meta {
        Some(m) => {
            let wanted: usize = match buf_size {
                Some(b) => b,
                None => get_block_size(&m),
            };
            if m.len < wanted as u64 {
                m.len as usize
            } else {
                wanted
            }
        },
        None => match buf_size {
            Some(b) => b,
            None => DEFAULT_BUF_SIZE,
        },
    }
}

/// The block size reported in `meta`, or the default where there is none.
pub fn get_block_size(meta: &FileMeta) -> (r: usize)
    ensures
        r == block_size_of(*meta),
{
    match meta.block_size {
        Some(b) => b,
        None => DEFAULT_BUF_SIZE,
    }
}

/// Makes room in `buf` for the next read: a buffer with no spare capacity
/// grows by `buf_size`; one with spare capacity is left as it is.
pub fn make_room(buf: &mut bytes::BytesMut, buf_size: usize)
    requires
        buffer_bytes(*old(buf)).len() + buf_size <= isize::MAX,
    ensures
        buffer_bytes(*final(buf)) == buffer_bytes(*old(buf)),
        buffer_cap(*old(buf)) == buffer_bytes(*old(buf)).len() ==> buffer_cap(*final(buf))
            >= buffer_bytes(*old(buf)).len() + buf_size,
        buffer_cap(*old(buf)) > buffer_bytes(*old(buf)).len() ==> *final(buf) == *old(buf),
{
    if buffer_capacity(buf) == buffer_len(buf) {
        reserve(buf, buf_size);
    }
}

} // verus!

verus! {

/// Where a read stream stands. `F` is the open file handle, owned by the
/// state while no step is in flight and by the worker while one is.
pub enum ReadState<F> {
    /// Nothing opened yet; holds the requested buffer size.
    Init(Option<usize>),
    /// The step that opens the file and reads its first chunk is in flight.
    Opening,
    /// A read of the next chunk is in flight; holds the chunk size.
    Working(usize),
    /// Idle between reads: holds the file and the chunk size.
    Ready(F, usize),
    /// The file is exhausted: the stream has ended for good.
    Eof,
    /// A step failed: the stream must not be polled again.
    Failed,
}

/// The state after a poll decides its next step in state `s`.
pub open spec fn polled_state<F>(s: ReadState<F>) -> ReadState<F> {
    match s {
        ReadState::Init(_) => ReadState::Opening,
        ReadState::Ready(_, size) => ReadState::Working(size),
        _ => s,
    }
}

/// The state after `n` polls that each only decide the next step.
pub open spec fn polled_times<F>(s: ReadState<F>, n: nat) -> ReadState<F>
    decreases n,
{
    if n == 0 {
        s
    } else {
        polled_times(polled_state(s), (n - 1) as nat)
    }
}

/// The end is terminal: however often an ended stream is polled it stays
/// ended, and so each of those polls reports the end and dispatches nothing.
pub proof fn end_is_terminal<F>(n: nat)
    ensures
        polled_times(ReadState::<F>::Eof, n) == ReadState::<F>::Eof,
    decreases n,
{
    if n > 0 {
        end_is_terminal::<F>((n - 1) as nat);
    }
}

/// The state after the step in flight in state `s` hands back `file` and
/// `chunk`: an empty chunk ends the stream; otherwise the stream goes idle
/// with the file, keeping its chunk size, or after the first read taking the
/// capacity of the buffer that came back.
pub open spec fn state_after_read<F>(s: ReadState<F>, file: F, chunk: bytes::BytesMut) -> ReadState<F> {
    if buffer_bytes(chunk).len() == 0 {
        ReadState::Eof
    } else {
        match s {
            ReadState::Working(size) => ReadState::Ready(file, size),
            _ => ReadState::Ready(file, buffer_cap(chunk) as usize),
        }
    }
}

/// An empty read ends the stream for good: once a step hands back an empty
/// chunk, as the first read of an empty file does, the stream has ended and
/// every later poll leaves it ended, reporting the end and dispatching nothing.
pub proof fn empty_read_ends_stream<F>(s: ReadState<F>, file: F, chunk: bytes::BytesMut, n: nat)
    requires
        s is Opening || s is Working,
        buffer_bytes(chunk).len() == 0,
    ensures
        state_after_read(s, file, chunk) == ReadState::<F>::Eof,
        polled_times(state_after_read(s, file, chunk), n) == ReadState::<F>::Eof,
{
    end_is_terminal::<F>(n);
}

/// What the poll loop is to do next for a read stream.
pub enum ReadAction<F> {
    /// Dispatch a step that opens the file and reads its first chunk, with the
    /// requested buffer size.
    OpenAndRead(Option<usize>),
    /// Dispatch a step that reads the next chunk from the file into the
    /// buffer, making room for a chunk of the given size.
    ReadNext(F, usize, bytes::BytesMut),
    /// A step is in flight: poll its completion and hand back its outcome.
    Await,
    /// Report the end of the stream.
    End,
    /// The stream reported a failure earlier and was polled again.
    Poisoned,
}

/// What a finished read step gives the consumer.
pub enum ReadYield {
    /// The next chunk of the file.
    Chunk(bytes::Bytes),
    /// The end of the stream.
    End,
}

/// The decisions behind a stream of chunks read from one file: which step to
/// dispatch, and what each finished step yields.
pub struct ReadMachine<F> {
    buffer: bytes::BytesMut,
    state: ReadState<F>,
}

impl<F> ReadMachine<F> {
    /// Where the stream stands.
    pub closed spec fn state(&self) -> ReadState<F> {
        self.state
    }

    /// The scratch buffer is empty between polls: every filled chunk has been
    /// detached for the consumer, only spare capacity stays.
    pub closed spec fn wf(&self) -> bool {
        buffer_bytes(self.buffer).len() == 0
    }

    /// A stream of the file at a path, not opened yet.
    pub fn new(opts: ReadOptions) -> (r: Self)
        ensures
            r.wf(),
            r.state() == ReadState::<F>::Init(opts.buffer_size),
    {
        ReadMachine { buffer: empty_buffer(), state: ReadState::Init(opts.buffer_size) }
    }

    /// A stream of a file that is already open, with its metadata where the
    /// lookup succeeded; it starts idle, with the chunk size chosen at once.
    pub fn from_file(file: F, opts: ReadOptions, meta: Option<FileMeta>) -> (r: Self)
        ensures
            r.wf(),
            r.state() == ReadState::<F>::Ready(file, chosen_buf_size(opts.buffer_size, meta) as usize),
    {
        let size = finalize_buf_size(opts.buffer_size, meta);
        ReadMachine { buffer: empty_buffer(), state: ReadState::Ready(file, size) }
    }

    /// Decides the next step of a poll. From `Init` and `Ready` it hands out
    /// a step to dispatch (with the file and the emptied scratch buffer) and
    /// moves to the matching in-flight state; while a step is in flight it
    /// asks for its outcome; at the end it reports the end, and changes nothing.
    pub fn next_action(&mut self) -> (r: ReadAction<F>)
        requires
            old(self).wf(),
        ensures
            final(self).wf(),
            final(self).state() == polled_state(old(self).state()),
            match old(self).state() {
                ReadState::Init(size) => {
                    &&& r == ReadAction::<F>::OpenAndRead(size)
                },
                ReadState::Ready(file, size) => {
                    &&& (r matches ReadAction::ReadNext(f, n, b) && f == file && n == size
                        && buffer_bytes(b).len() == 0)
                },
                ReadState::Opening => {
                    &&& r is Await
                },
                ReadState::Working(_) => {
                    &&& r is Await
                },
                ReadState::Eof => {
                    &&& r is End
                },
                ReadState::Failed => {
                    &&& r is Poisoned
                },
            },
    {
        let mut current = ReadState::Failed;
        std::mem::swap(&mut self.state, &mut current);
        match current {
            ReadState::Init(size) => {
                self.state = ReadState::Opening;
                ReadAction::OpenAndRead(size)
            },
            ReadState::Ready(file, size) => {
                let buf = split_off(&mut self.buffer, 0);
                self.state = ReadState::Working(size);
                ReadAction::ReadNext(file, size, buf)
            },
            ReadState::Opening => {
                self.state = ReadState::Opening;
                ReadAction::Await
            },
            ReadState::Working(size) => {
                self.state = ReadState::Working(size);
                ReadAction::Await
            },
            ReadState::Eof => {
                self.state = ReadState::Eof;
                ReadAction::End
            },
            ReadState::Failed => ReadAction::Poisoned,
        }
    }

    /// Takes the outcome of the step in flight: the file back and the chunk
    /// that was read. An empty chunk ends the stream. Otherwise the stream
    /// goes idle holding the file and yields the chunk; after the first read
    /// the chunk size is the capacity of the buffer that came back, and it is
    /// kept from then on.
    pub fn finish_read(&mut self, file: F, chunk: bytes::BytesMut) -> (r: ReadYield)
        requires
            old(self).wf(),
            old(self).state() is Opening || old(self).state() is Working,
        ensures
            final(self).wf(),
            buffer_bytes(chunk).len() == 0 ==> {
                &&& r is End
                &&& final(self).state() is Eof
            },
            buffer_bytes(chunk).len() > 0 ==> (r matches ReadYield::Chunk(c) && chunk_bytes(c)
                == buffer_bytes(chunk)),
            final(self).state() == state_after_read(old(self).state(), file, chunk),
    {
        let size: usize = match self.state {
            ReadState::Working(n) => n,
            _ => buffer_capacity(&chunk),
        };
        self.handle_read(file, chunk, size)
    }

    /// Records a failed step: the stream ends in failure.
    pub fn fail(&mut self)
        ensures
            final(self).wf() == old(self).wf(),
            final(self).state() is Failed,
    {
        self.state = ReadState::Failed;
    }

    fn handle_read(&mut self, file: F, chunk: bytes::BytesMut, size: usize) -> (r: ReadYield)
        requires
            old(self).wf(),
        ensures
            final(self).wf(),
            buffer_bytes(chunk).len() == 0 ==> {
                &&& r is End
                &&& final(self).state() is Eof
            },
            buffer_bytes(chunk).len() > 0 ==> {
                &&& (r matches ReadYield::Chunk(c) && chunk_bytes(c) == buffer_bytes(chunk))
                &&& final(self).state() == ReadState::<F>::Ready(file, size)
            },
    {
        if buffer_len(&chunk) == 0 {
            self.state = ReadState::Eof;
            ReadYield::End
        } else {
            self.buffer = chunk;
            self.state = ReadState::Ready(file, size);
            ReadYield::Chunk(freeze(take(&mut self.buffer)))
        }
    }
}

} // verus!
