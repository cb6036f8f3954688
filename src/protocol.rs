//! Framing of the byte stream, and the traits of protocol messages.
//!
//! Frames are newline-terminated. [`FrameDecoder`] is a resumable state
//! machine: it is handed whatever bytes the transport has, takes as many as
//! it needs, and keeps a partial frame between calls, so that the same
//! decoder serves a blocking reader and a reader that may suspend.
use vstd::prelude::*;

use crate::error::GpsdJsonError;

pub mod v3;

verus! {

/// The byte that ends a frame.
pub const NEWLINE: u8 = 10;

/// True when `s` holds no newline byte.
pub open spec fn newline_free(s: Seq<u8>) -> bool {
    forall|i: int| 0 <= i < s.len() ==> s[i] != NEWLINE
}

/// The view of an optional byte vector.
pub open spec fn opt_bytes(v: Option<Vec<u8>>) -> Option<Seq<u8>> {
    match v {
        Some(b) => Some(b@),
        None => None,
    }
}

/// One feeding step of the decoder: with `before` buffered, `chunk` offered,
/// the decoder takes `taken` bytes, keeps `after`, and completes `frame`.
///
/// When `chunk` holds a newline, the step takes the chunk up to and
/// including the first one, and the frame is the buffered bytes followed by
/// what was taken; nothing stays buffered. Otherwise it takes the whole
/// chunk, buffers it after what was there, and completes no frame.
pub open spec fn feeds(
    before: Seq<u8>,
    chunk: Seq<u8>,
    after: Seq<u8>,
    taken: int,
    frame: Option<Seq<u8>>,
) -> bool {
    if newline_free(chunk) {
        &&& taken == chunk.len()
        &&& after == before + chunk
        &&& frame is None
    } else {
        &&& 0 < taken <= chunk.len()
        &&& chunk[taken - 1] == NEWLINE
        &&& newline_free(chunk.take(taken - 1))
        &&& frame == Some(before + chunk.take(taken))
        &&& after == Seq::<u8>::empty()
    }
}

/// What parsing a complete frame gave.
#[derive(Debug)]
pub enum Parsed<M> {
    /// A message.
    Message(M),
    /// The parser reached the end of the input inside a value: the frame is
    /// only the start of a message that goes on in the next frame.
    Incomplete,
    /// The frame is malformed; the text says why.
    Invalid(String),
}

/// The outcome of one decoding step.
#[derive(Debug)]
pub enum Decoded<M> {
    /// A message is available.
    Message(M),
    /// More bytes are needed before anything can be said.
    NeedMore,
    /// The stream has ended.
    Ended,
    /// The frame could not be decoded.
    Failed(GpsdJsonError),
}

impl<M> Decoded<M> {
    /// The step as a reply: `Some(Ok(Some(m)))` for a message,
    /// `Some(Ok(None))` when the stream ended, `Some(Err(e))` for a frame
    /// that could not be decoded, and `None` while more bytes are needed.
    pub fn into_reply(self) -> (r: Option<Result<Option<M>, GpsdJsonError>>)
        ensures
            match self {
                Decoded::Message(m) => r == Some(Ok::<Option<M>, GpsdJsonError>(Some(m))),
                Decoded::Ended => r == Some(Ok::<Option<M>, GpsdJsonError>(None)),
                Decoded::Failed(e) => r == Some(Err::<Option<M>, GpsdJsonError>(e)),
                Decoded::NeedMore => r is None,
            },
    {
        match self {
            Decoded::Message(m) => Some(Ok(Some(m))),
            Decoded::Ended => Some(Ok(None)),
            Decoded::Failed(e) => Some(Err(e)),
            Decoded::NeedMore => None,
        }
    }
}

/// Settling `frame`, parsed as `parsed`, with `before` buffered leaves
/// `after` buffered and yields `r`: a message or a malformed frame leaves
/// the buffer as it was, and a frame that only starts a message is put back
/// in front of it.
pub open spec fn settles<M>(
    before: Seq<u8>,
    frame: Seq<u8>,
    parsed: Parsed<M>,
    after: Seq<u8>,
    r: Decoded<M>,
) -> bool {
    match parsed {
        Parsed::Message(m) => after == before && r == Decoded::Message(m),
        Parsed::Incomplete => after == frame + before && r is NeedMore,
        Parsed::Invalid(e) => after == before && r == Decoded::<M>::Failed(
            GpsdJsonError::SerdeError(e),
        ),
    }
}

/// Accumulates the bytes of a frame until its terminating newline arrives.
#[derive(Debug)]
pub struct FrameDecoder {
    buf: Vec<u8>,
}

impl View for FrameDecoder {
    type V = Seq<u8>;

    /// The bytes of the unfinished frame.
    closed spec fn view(&self) -> Seq<u8> {
        self.buf@
    }
}

impl FrameDecoder {
    /// A decoder with nothing buffered.
    pub fn new() -> (r: FrameDecoder)
        ensures
            r@ == Seq::<u8>::empty(),
    {
        FrameDecoder { buf: Vec::new() }
    }

    /// The number of bytes buffered.
    pub fn buffered_len(&self) -> (r: usize)
        ensures
            r == self@.len(),
    {
        self.buf.len()
    }

    /// Offers `chunk` to the decoder. Returns how many bytes of it were
    /// taken, which the caller must consume from its source, and the frame
    /// completed by them, newline included, if any.
    pub fn feed(&mut self, chunk: &[u8]) -> (r: (usize, Option<Vec<u8>>))
        ensures
            feeds(old(self)@, chunk@, final(self)@, r.0 as int, opt_bytes(r.1)),
    {
        let mut i: usize = 0;
        while i < chunk.len()
            invariant
                i <= chunk@.len(),
                newline_free(chunk@.take(i as int)),
                self@ == old(self)@ + chunk@.take(i as int),
            decreases chunk@.len() - i,
        {
            let b = chunk[i];
            self.buf.push(b);
            assert(chunk@.take(i + 1) == chunk@.take(i as int).push(b));
            if b == NEWLINE {
                let mut frame: Vec<u8> = Vec::new();
                core::mem::swap(&mut frame, &mut self.buf);
                assert(!newline_free(chunk@)) by {
                    assert(chunk@[i as int] == NEWLINE);
                }
                return (i + 1, Some(frame));
            }
            i = i + 1;
        }
        assert(chunk@.take(i as int) == chunk@);
        (i, None)
    }

    /// Settles a frame that `feed` completed, once the caller has parsed
    /// it. A message or a malformed frame ends the frame; a frame that
    /// holds only the start of a message is put back in front of the
    /// buffer, so that the next frame continues it.
    pub fn settle<M>(&mut self, frame: Vec<u8>, parsed: Parsed<M>) -> (r: Decoded<M>)
        ensures
            settles(old(self)@, frame@, parsed, final(self)@, r),
    {
        match parsed {
            Parsed::Message(m) => Decoded::Message(m),
            Parsed::Incomplete => {
                let mut joined = frame;
                let mut rest: Vec<u8> = Vec::new();
                core::mem::swap(&mut rest, &mut self.buf);
                let ghost j0 = joined@;
                let mut i: usize = 0;
                while i < rest.len()
                    invariant
                        i <= rest@.len(),
                        joined@ == j0 + rest@.take(i as int),
                    decreases rest@.len() - i,
                {
                    joined.push(rest[i]);
                    assert(rest@.take(i + 1) == rest@.take(i as int).push(rest@[i as int]));
                    i = i + 1;
                }
                assert(rest@.take(i as int) == rest@);
                self.buf = joined;
                Decoded::NeedMore
            },
            Parsed::Invalid(e) => Decoded::Failed(GpsdJsonError::SerdeError(e)),
        }
    }

    /// The source has ended: an unterminated trailing frame is dropped.
    pub fn end_of_stream<M>(&mut self) -> (r: Decoded<M>)
        ensures
            final(self)@ == Seq::<u8>::empty(),
            r is Ended,
    {
        self.buf.clear();
        Decoded::Ended
    }

    /// Drops whatever is buffered.
    pub fn clear(&mut self)
        ensures
            final(self)@ == Seq::<u8>::empty(),
    {
        self.buf.clear();
    }
}

/// Splitting a message at any point and offering the two halves one after
/// the other gives the same frame as offering it whole: the first half is
/// only buffered, and the second completes the frame `m` followed by a
/// newline.
pub proof fn lemma_split_feed_same_frame(
    m: Seq<u8>,
    k: int,
    whole_after: Seq<u8>,
    whole_taken: int,
    whole_frame: Option<Seq<u8>>,
    first_after: Seq<u8>,
    first_taken: int,
    first_frame: Option<Seq<u8>>,
    second_after: Seq<u8>,
    second_taken: int,
    second_frame: Option<Seq<u8>>,
)
    requires
        newline_free(m),
        0 <= k <= m.len(),
        feeds(Seq::empty(), m.push(NEWLINE), whole_after, whole_taken, whole_frame),
        feeds(Seq::empty(), m.take(k), first_after, first_taken, first_frame),
        feeds(first_after, m.skip(k).push(NEWLINE), second_after, second_taken, second_frame),
    ensures
        first_frame is None,
        whole_frame == Some(m.push(NEWLINE)),
        second_frame == whole_frame,
        whole_taken == m.len() + 1,
        first_taken + second_taken == m.len() + 1,
{
    let w = m.push(NEWLINE);
    assert(w[m.len() as int] == NEWLINE);
    assert(!newline_free(w));
    // The first newline of `w` is its last byte.
    if whole_taken < w.len() {
        assert(w.take(whole_taken - 1)[whole_taken - 1] == NEWLINE) by {
            assert(w[whole_taken - 1] == m[whole_taken - 1]);
        }
    }
    assert(w.take(whole_taken) == w);
    assert(newline_free(m.take(k))) by {
        assert forall|i: int| 0 <= i < m.take(k).len() implies m.take(k)[i] != NEWLINE by {
            assert(m.take(k)[i] == m[i]);
        }
    }
    assert(first_after == m.take(k));
    let s = m.skip(k).push(NEWLINE);
    assert(s[s.len() - 1] == NEWLINE);
    assert(!newline_free(s));
    if second_taken < s.len() {
        assert(s[second_taken - 1] == m[k + second_taken - 1]);
    }
    assert(second_taken == s.len());
    assert(s.take(second_taken) == s);
    assert(m.take(k) + m.skip(k).push(NEWLINE) =~= w);
}

/// Offering no bytes, when none are available yet, takes nothing, keeps
/// every buffered byte and completes no frame.
pub proof fn lemma_empty_feed_keeps_buffer(
    before: Seq<u8>,
    after: Seq<u8>,
    taken: int,
    frame: Option<Seq<u8>>,
)
    requires
        feeds(before, Seq::empty(), after, taken, frame),
    ensures
        after == before,
        taken == 0,
        frame is None,
{
    assert(before + Seq::<u8>::empty() == before);
}

/// Marks a message type that a decoded frame can become.
pub trait GpsdJsonResponse {
}

/// A command that can be written on the wire.
pub trait GpsdJsonRequest {
    /// The command line of the request.
    spec fn command_spec(&self) -> Seq<char>;

    /// The command line of the request, ready to be sent.
    fn to_command(&self) -> (r: String)
        ensures
            r@ == self.command_spec(),
    ;
}

} // verus!
