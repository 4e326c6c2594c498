//! The log channel: a cloneable write end and a single read end that share
//! one ordered stream of bytes. Each write travels as one chunk through a
//! std channel, so a write is never split or interleaved with another, and
//! the read end learns that the stream has ended once every write end is gone.
use std::sync::mpsc::{Receiver, Sender};
use vstd::prelude::*;
use vstd::slice::slice_to_vec;
use vstd::string::*;

verus! {

#[verifier::external_type_specification]
#[verifier::external_body]
#[verifier::reject_recursive_types(T)]
pub struct ExSender<T>(Sender<T>);

#[verifier::external_type_specification]
#[verifier::external_body]
#[verifier::reject_recursive_types(T)]
pub struct ExReceiver<T>(Receiver<T>);

/// The bytes of one write; never empty.
pub struct LogChunk {
    bytes: Vec<u8>,
}

impl LogChunk {
    #[verifier::type_invariant]
    spec fn inv(&self) -> bool {
        self.bytes@.len() > 0
    }
}

/// Relies on std::sync::mpsc::channel: a fresh connected pair.
#[verifier::external_body]
fn open_chunk_channel() -> (r: (Sender<LogChunk>, Receiver<LogChunk>)) {
    std::sync::mpsc::channel()
}

/// Relies on Sender::clone: another handle on the same channel.
#[verifier::external_body]
fn clone_chunk_sender(s: &Sender<LogChunk>) -> (r: Sender<LogChunk>) {
    s.clone()
}

/// Relies on Sender::send: queues the chunk behind every chunk sent before it;
/// fails only when the read end is gone.
#[verifier::external_body]
fn send_chunk(s: &Sender<LogChunk>, c: LogChunk) -> (r: bool) {
    s.send(c).is_ok()
}

/// Relies on Receiver::recv: blocks until a chunk is queued, which it hands
/// out in the order sent, or until every sender has been dropped and the
/// queue is empty, which gives `None`.
#[verifier::external_body]
fn receive_chunk(r: &Receiver<LogChunk>) -> (c: Option<LogChunk>) {
    r.recv().ok()
}

/// Which of a deployment's two streams a channel end belongs to.
#[derive(PartialEq, Eq, Structural, Clone, Copy, Debug)]
pub enum StreamRole {
    Info,
    Error,
}

/// The write end of a log channel. Clones write into the same stream.
pub struct LogWriter {
    sender: Sender<LogChunk>,
    role: Ghost<StreamRole>,
}

impl LogWriter {
    /// The stream this end writes to.
    pub closed spec fn role(&self) -> StreamRole {
        self.role@
    }

    /// Appends `bytes` to the stream as one whole write. Returns the number
    /// of bytes taken, which is all of them.
    pub fn write(&self, bytes: &[u8]) -> (r: usize)
        ensures
            r == bytes@.len(),
    {
        if bytes.len() > 0 {
            let chunk = LogChunk { bytes: slice_to_vec(bytes) };
            let _ = send_chunk(&self.sender, chunk);
        }
        bytes.len()
    }

    /// Appends the characters of `text` to the stream as one whole write.
    pub fn write_str(&self, text: &str) -> (r: usize)
        ensures
            r == text.spec_bytes().len(),
    {
        self.write(text.as_bytes())
    }

    /// A second write end on the same stream.
    pub fn duplicate(&self) -> (r: LogWriter)
        ensures
            r.role() == self.role(),
    {
        LogWriter { sender: clone_chunk_sender(&self.sender), role: self.role }
    }
}

/// The read end of a log channel.
pub struct MutexVecDequeRead {
    receiver: Receiver<LogChunk>,
    role: Ghost<StreamRole>,
    pending: Vec<u8>,
    closed: bool,
}

/// `n` bytes handed out of `pending`, at most `max` of them: all it holds
/// when it holds no more than `max`.
pub open spec fn take_count(pending_len: nat, max: nat) -> nat {
    if pending_len <= max {
        pending_len
    } else {
        max
    }
}

/// `r` is what a read of at most `max` bytes hands out when the read end
/// goes from `before` to `after`. Nothing but the end of the stream gives an
/// empty result. Pending bytes go first, in order, as many as fit; once the
/// stream is closed nothing new arrives, and a closed stream stays closed.
pub open spec fn is_read(before: MutexVecDequeRead, after: MutexVecDequeRead, r: Seq<u8>, max: nat) -> bool {
    &&& r.len() == 0 <==> (before.pending().len() == 0 && after.is_closed())
    &&& before.pending().len() > 0 ==> r + after.pending() == before.pending() && r.len()
        == take_count(before.pending().len(), max)
    &&& before.pending().len() > 0 ==> after.is_closed() == before.is_closed()
    &&& before.is_closed() ==> after.is_closed() && r + after.pending() == before.pending()
    &&& r.len() <= max
}

/// Reads keep the stream whole and in order: what two successive reads hand
/// out, followed by what is still pending, is what was pending before, as
/// long as the first read found bytes pending and the second read found
/// bytes left or the stream closed. A read returns nothing only at the end
/// of the stream, and after that every read returns nothing.
pub proof fn lemma_reads_keep_order(
    a: MutexVecDequeRead,
    b: MutexVecDequeRead,
    c: MutexVecDequeRead,
    r1: Seq<u8>,
    r2: Seq<u8>,
    max1: nat,
    max2: nat,
)
    requires
        is_read(a, b, r1, max1),
        is_read(b, c, r2, max2),
        a.pending().len() > 0,
        b.pending().len() > 0 || b.is_closed(),
    ensures
        r1 + r2 + c.pending() == a.pending(),
        r2.len() == 0 ==> c.is_closed() && c.pending().len() == 0,
        r2.len() == 0 ==> forall|d: MutexVecDequeRead, r3: Seq<u8>, m: nat|
            is_read(c, d, r3, m) ==> r3.len() == 0,
{
    if b.pending().len() > 0 {
        assert(r1 + r2 + c.pending() =~= r1 + (r2 + c.pending()));
    } else {
        assert(r2.len() == 0);
        assert(r2 + c.pending() == b.pending());
        assert(r1 + r2 + c.pending() =~= r1 + b.pending());
    }
}

impl MutexVecDequeRead {
    /// The stream this end reads.
    pub closed spec fn role(&self) -> StreamRole {
        self.role@
    }

    /// Bytes received and not yet handed out, in stream order.
    pub closed spec fn pending(&self) -> Seq<u8> {
        self.pending@
    }

    /// Whether the stream has ended: every write end was dropped and all it
    /// wrote was received.
    pub closed spec fn is_closed(&self) -> bool {
        self.closed
    }

    /// Hands out the next bytes of the stream, at most `max` of them (`max`
    /// is at least one). Blocks while nothing is pending and some write end
    /// is alive. An empty result means the end of the stream, and nothing
    /// else: the stream is closed and nothing is left. Bytes come out in the
    /// order they were written and pending bytes go first.
    pub fn read(&mut self, max: usize) -> (r: Vec<u8>)
        requires
            max > 0,
        ensures
            is_read(*old(self), *final(self), r@, max as nat),
    {
        if self.pending.len() == 0 && !self.closed {
            match receive_chunk(&self.receiver) {
                Some(chunk) => {
                    proof {
                        use_type_invariant(&chunk);
                    }
                    self.pending = chunk.bytes;
                },
                None => {
                    self.closed = true;
                },
            }
        }
        self.take_pending(max)
    }

    /// Moves the first `take_count(pending, max)` pending bytes out.
    fn take_pending(&mut self, max: usize) -> (r: Vec<u8>)
        ensures
            r@ + final(self).pending() == old(self).pending(),
            r@.len() == take_count(old(self).pending().len(), max as nat),
            final(self).is_closed() == old(self).is_closed(),
    {
        let n = if self.pending.len() <= max {
            self.pending.len()
        } else {
            max
        };
        let rest = self.pending.split_off(n);
        let mut out: Vec<u8> = Vec::new();
        out.append(&mut self.pending);
        self.pending = rest;
        proof {
            assert(out@ + self.pending@ =~= old(self).pending@);
        }
        out
    }
}

/// The write ends of a deployment's two log streams: information and errors.
pub struct DeploymentHandle {
    inner_info: LogWriter,
    inner_error: LogWriter,
}

impl DeploymentHandle {
    /// The information end writes the information stream, the error end
    /// the error stream.
    #[verifier::type_invariant]
    spec fn wf(&self) -> bool {
        self.inner_info.role() == StreamRole::Info && self.inner_error.role() == StreamRole::Error
    }

    /// The information stream.
    pub fn info(&self) -> (r: &LogWriter)
        ensures
            r.role() == StreamRole::Info,
    {
        proof {
            use_type_invariant(self);
        }
        &self.inner_info
    }

    /// The error stream.
    pub fn error(&self) -> (r: &LogWriter)
        ensures
            r.role() == StreamRole::Error,
    {
        proof {
            use_type_invariant(self);
        }
        &self.inner_error
    }

    /// Write ends on the same two streams.
    pub fn duplicate(&self) -> (r: DeploymentHandle) {
        proof {
            use_type_invariant(self);
        }
        DeploymentHandle { inner_info: self.inner_info.duplicate(), inner_error: self.inner_error.duplicate() }
    }
}

/// The read ends of a deployment's two log streams.
pub struct DeploymentLogs {
    inner_info: MutexVecDequeRead,
    inner_error: MutexVecDequeRead,
}

impl DeploymentLogs {
    /// The read end of the information stream.
    pub closed spec fn info_stream(&self) -> MutexVecDequeRead {
        self.inner_info
    }

    /// The read end of the error stream.
    pub closed spec fn error_stream(&self) -> MutexVecDequeRead {
        self.inner_error
    }

    /// The information stream.
    pub fn info(&mut self) -> (r: &mut MutexVecDequeRead)
        ensures
            *r == old(self).info_stream(),
            final(self).info_stream() == *final(r),
            final(self).error_stream() == old(self).error_stream(),
    {
        &mut self.inner_info
    }

    /// The error stream.
    pub fn error(&mut self) -> (r: &mut MutexVecDequeRead)
        ensures
            *r == old(self).error_stream(),
            final(self).error_stream() == *final(r),
            final(self).info_stream() == old(self).info_stream(),
    {
        &mut self.inner_error
    }

    /// Both read ends: information first, then errors.
    pub fn into_read(self) -> (r: (MutexVecDequeRead, MutexVecDequeRead))
        ensures
            r.0 == self.info_stream(),
            r.1 == self.error_stream(),
    {
        (self.inner_info, self.inner_error)
    }
}

/// One stream: a write end and its read end, with nothing written yet.
fn open_stream(Ghost(role): Ghost<StreamRole>) -> (r: (LogWriter, MutexVecDequeRead))
    ensures
        r.0.role() == role,
        r.1.role() == role,
        r.1.pending().len() == 0,
        !r.1.is_closed(),
{
    let (s, rx) = open_chunk_channel();
    (
        LogWriter { sender: s, role: Ghost(role) },
        MutexVecDequeRead { receiver: rx, role: Ghost(role), pending: Vec::new(), closed: false },
    )
}

/// A fresh pair of log streams for one deployment.
pub fn message_channel() -> (r: (DeploymentHandle, DeploymentLogs))
    ensures
        r.1.info_stream().role() == StreamRole::Info,
        r.1.error_stream().role() == StreamRole::Error,
        r.1.info_stream().pending().len() == 0,
        !r.1.info_stream().is_closed(),
        r.1.error_stream().pending().len() == 0,
        !r.1.error_stream().is_closed(),
{
    let info = open_stream(Ghost(StreamRole::Info));
    let err = open_stream(Ghost(StreamRole::Error));
    (
        DeploymentHandle { inner_info: info.0, inner_error: err.0 },
        DeploymentLogs { inner_info: info.1, inner_error: err.1 },
    )
}

} // verus!
