//! Capturing what a child writes to a pipe, under a byte cap.
//!
//! The caller reads the pipe chunk by chunk and hands each chunk to
//! [`Capture::absorb`], which keeps what still fits and says whether to read
//! on. An empty chunk stands for the end of the stream.

use vstd::prelude::*;

verus! {

/// The most bytes kept of a child's standard output: 256 MiB.
pub const STDOUT_CAP: usize = 268435456;

/// The most bytes kept of a child's standard error: 2 KiB.
pub const STDERR_CAP: usize = 2048;

/// The size of the buffer with which a pipe is read.
pub const READ_CHUNK: usize = 8192;

/// The first `cap` items of a stream, or all of it where it is shorter.
pub open spec fn capped(stream: Seq<u8>, cap: nat) -> Seq<u8> {
    if stream.len() <= cap {
        stream
    } else {
        stream.take(cap as int)
    }
}

/// All the chunks of a stream, one after the other.
pub open spec fn joined(chunks: Seq<Seq<u8>>) -> Seq<u8>
    decreases chunks.len(),
{
    if chunks.len() == 0 {
        Seq::empty()
    } else {
        joined(chunks.drop_last()) + chunks.last()
    }
}

/// What is held after the chunks were absorbed one by one, starting from
/// nothing.
pub open spec fn absorbed(chunks: Seq<Seq<u8>>, cap: nat) -> Seq<u8>
    decreases chunks.len(),
{
    if chunks.len() == 0 {
        Seq::empty()
    } else {
        capped(absorbed(chunks.drop_last(), cap) + chunks.last(), cap)
    }
}

/// What the caller does after a chunk was absorbed.
#[derive(Clone, Copy, Debug, PartialEq, Eq, Structural)]
pub enum ReadAction {
    /// Read the next chunk and hand it over.
    ReadMore,
    /// Read no more from this pipe.
    Stop,
}

/// The bytes captured from one pipe.
#[derive(Debug)]
pub struct Capture {
    data: Vec<u8>,
    cap: usize,
    stop_at_cap: bool,
}

impl Capture {
    /// The bytes held.
    pub closed spec fn bytes(&self) -> Seq<u8> {
        self.data@
    }

    /// The most bytes that are ever held.
    pub closed spec fn cap(&self) -> nat {
        self.cap as nat
    }

    /// Whether reading ends once the cap is reached. Where it does not, the
    /// rest of the stream is read and dropped.
    pub closed spec fn stops_at_cap(&self) -> bool {
        self.stop_at_cap
    }

    /// No more is held than the cap allows.
    pub open spec fn wf(&self) -> bool {
        self.bytes().len() <= self.cap()
    }

    /// Whether as many bytes were offered as the cap allows, or more.
    pub open spec fn reached_cap(&self) -> bool {
        self.bytes().len() == self.cap()
    }

    /// An empty capture with the given cap and policy.
    pub fn new(cap: usize, stop_at_cap: bool) -> (c: Capture)
        ensures
            c.wf(),
            c.bytes() == Seq::<u8>::empty(),
            c.cap() == cap,
            c.stops_at_cap() == stop_at_cap,
    {
        Capture { data: Vec::new(), cap, stop_at_cap }
    }

    /// The capture for standard output: the stream is drained to its end
    /// whatever its length.
    pub fn stdout() -> (c: Capture)
        ensures
            c.wf(),
            c.bytes() == Seq::<u8>::empty(),
            c.cap() == STDOUT_CAP,
            !c.stops_at_cap(),
    {
        Capture::new(STDOUT_CAP, false)
    }

    /// The capture for a standard error that is read with nobody waiting
    /// on its writer: reading ends at the cap.
    pub fn stderr() -> (c: Capture)
        ensures
            c.wf(),
            c.bytes() == Seq::<u8>::empty(),
            c.cap() == STDERR_CAP,
            c.stops_at_cap(),
    {
        Capture::new(STDERR_CAP, true)
    }

    /// Takes one chunk that was read from the pipe; an empty chunk is the
    /// end of the stream. Keeps the bytes that still fit under the cap and
    /// drops the rest.
    pub fn absorb(&mut self, chunk: &[u8]) -> (action: ReadAction)
        requires
            old(self).wf(),
        ensures
            final(self).wf(),
            final(self).cap() == old(self).cap(),
            final(self).stops_at_cap() == old(self).stops_at_cap(),
            final(self).bytes() == capped(old(self).bytes() + chunk@, old(self).cap()),
            action == ReadAction::Stop <==> chunk@.len() == 0 || (old(self).stops_at_cap()
                && final(self).reached_cap()),
    {
        let ghost before = self.data@;
        let room: usize = self.cap - self.data.len();
        let take: usize = if chunk.len() < room {
            chunk.len()
        } else {
            room
        };
        let kept = vstd::slice::slice_subrange(chunk, 0, take);
        self.data.extend_from_slice(kept);
        assert(self.data@ =~= capped(before + chunk@, self.cap as nat));
        if chunk.len() == 0 || (self.stop_at_cap && self.data.len() == self.cap) {
            ReadAction::Stop
        } else {
            ReadAction::ReadMore
        }
    }

    /// Whether the stream reached the cap.
    pub fn limit_reached(&self) -> (r: bool)
        requires
            self.wf(),
        ensures
            r == self.reached_cap(),
    {
        self.data.len() == self.cap
    }

    /// Gives up the captured bytes.
    pub fn into_bytes(self) -> (v: Vec<u8>)
        ensures
            v@ == self.bytes(),
    {
        self.data
    }
}

/// A capped stream is never longer than the cap, and is a prefix of the
/// stream.
pub proof fn lemma_capped_is_bounded_prefix(stream: Seq<u8>, cap: nat)
    ensures
        capped(stream, cap).len() <= cap,
        capped(stream, cap).len() <= stream.len(),
        capped(stream, cap) == stream.take(capped(stream, cap).len() as int),
        capped(stream, cap).len() == cap <==> stream.len() >= cap,
{
    assert(stream.take(stream.len() as int) =~= stream);
}

/// Capping a stream that was capped before and then grew is capping the
/// grown stream.
pub proof fn lemma_capped_twice(stream: Seq<u8>, more: Seq<u8>, cap: nat)
    ensures
        capped(capped(stream, cap) + more, cap) == capped(stream + more, cap),
{
    assert(capped(capped(stream, cap) + more, cap) =~= capped(stream + more, cap));
}

/// Absorbing a stream chunk by chunk holds the same bytes as capping the
/// whole stream at once, however the stream was cut into chunks.
pub proof fn lemma_absorbed_is_capped_stream(chunks: Seq<Seq<u8>>, cap: nat)
    ensures
        absorbed(chunks, cap) == capped(joined(chunks), cap),
    decreases chunks.len(),
{
    if chunks.len() > 0 {
        let front = chunks.drop_last();
        lemma_absorbed_is_capped_stream(front, cap);
        assert(capped(capped(joined(front), cap) + chunks.last(), cap) =~= capped(
            joined(front) + chunks.last(),
            cap,
        ));
    }
}

/// What was absorbed never exceeds the cap, and reaches it exactly when the
/// stream held at least that many bytes.
pub proof fn lemma_absorbed_bounded(chunks: Seq<Seq<u8>>, cap: nat)
    ensures
        absorbed(chunks, cap).len() <= cap,
        absorbed(chunks, cap).len() == cap <==> joined(chunks).len() >= cap,
{
    lemma_absorbed_is_capped_stream(chunks, cap);
    lemma_capped_is_bounded_prefix(joined(chunks), cap);
}

} // verus!
