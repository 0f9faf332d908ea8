//! The body of a response that may be rewritten.
//!
//! A body is pulled chunk by chunk. The library never pulls itself: whoever
//! drives it pulls the wrapped body and hands over what came, and the library
//! answers with what goes out. For a body that is rewritten the answer is
//! "not yet" until the wrapped body is complete, then the one chunk that holds
//! the converted page, then "no more".

use vstd::prelude::*;

use crate::buffer::{buffer_bytes, buffer_slice, chunk_bytes, chunk_slice};
use crate::convert::{converted_chunk, page_bytes};

verus! {

/// The size a body declares before it is pulled.
#[derive(Clone, Copy, Debug, PartialEq, Eq, Structural)]
pub enum BodySize {
    /// No body; nothing is announced to the peer.
    Absent,
    /// A body of zero bytes.
    Empty,
    /// A body of exactly this many bytes.
    Sized(usize),
    /// A body of exactly this many bytes, counted in 64 bits.
    Sized64(u64),
    /// A body whose length is only known once it has ended.
    Stream,
}

impl BodySize {
    /// The byte count that is declared, where one is.
    pub open spec fn exact(self) -> Option<nat> {
        match self {
            BodySize::Absent => Some(0nat),
            BodySize::Empty => Some(0nat),
            BodySize::Sized(n) => Some(n as nat),
            BodySize::Sized64(n) => Some(n as nat),
            BodySize::Stream => None,
        }
    }

    /// Whether `len` gathered bytes make up the declared count.
    pub open spec fn reached(self, len: nat) -> bool {
        self.exact() matches Some(n) && n <= len
    }
}

/// The most that can be gathered: half of what one allocation can hold, so
/// that the buffer can always grow to take a chunk in.
pub open spec fn gather_limit() -> int {
    isize::MAX / 2
}

/// Where the gathering of a rewritten body stands.
#[derive(Clone, Copy, Debug, PartialEq, Eq, Structural)]
pub enum Phase {
    /// Chunks are still being gathered; nothing has gone out.
    Accumulating,
    /// The converted page has gone out.
    Complete,
    /// The wrapped body failed; the failure has gone out and no page ever will.
    Errored,
}

/// What one pull of a body gives.
#[derive(Debug)]
pub enum Pulled<E> {
    /// The next chunk.
    Chunk(bytes::Bytes),
    /// The body failed.
    Failed(E),
    /// No more chunks.
    End,
    /// Nothing yet.
    Pending,
}

/// What a body answers to one pull: the item, and whether the one who pulled
/// must be woken at once because the body can go on without waiting.
#[derive(Debug)]
pub struct Polled<E> {
    pub item: Pulled<E>,
    pub wake: bool,
}

/// A `Pulled` with the chunk as plain bytes.
pub enum PulledView<E> {
    Chunk(Seq<u8>),
    Failed(E),
    End,
    Pending,
}

/// A `Polled` with the chunk as plain bytes.
pub struct PolledView<E> {
    pub item: PulledView<E>,
    pub wake: bool,
}

impl<E> View for Pulled<E> {
    type V = PulledView<E>;

    open spec fn view(&self) -> PulledView<E> {
        match *self {
            Pulled::Chunk(chunk) => PulledView::Chunk(chunk_bytes(chunk)),
            Pulled::Failed(e) => PulledView::Failed(e),
            Pulled::End => PulledView::End,
            Pulled::Pending => PulledView::Pending,
        }
    }
}

impl<E> View for Polled<E> {
    type V = PolledView<E>;

    open spec fn view(&self) -> PolledView<E> {
        PolledView { item: self.item@, wake: self.wake }
    }
}

impl<E> PolledView<E> {
    /// An answer that asks for no wake-up.
    pub open spec fn quiet(item: PulledView<E>) -> PolledView<E> {
        PolledView { item, wake: false }
    }

    /// "Not yet, but ask again at once."
    pub open spec fn retry() -> PolledView<E> {
        PolledView { item: PulledView::Pending, wake: true }
    }
}

/// The state of a rewritten body, as the contracts speak of it.
pub struct BodyState {
    /// The size that the wrapped body declared.
    pub size: BodySize,
    /// What has been gathered so far.
    pub buffered: Seq<u8>,
    pub phase: Phase,
}

impl BodyState {
    /// The state before the first pull.
    pub open spec fn start(size: BodySize) -> BodyState {
        BodyState { size, buffered: Seq::empty(), phase: Phase::Accumulating }
    }

    /// Whether the declared count has been gathered.
    pub open spec fn is_complete(self) -> bool {
        self.size.reached(self.buffered.len())
    }

    /// Whether what was pulled can be taken in: a chunk that is to be
    /// gathered must leave the buffer within `gather_limit`.
    pub open spec fn fits<E>(self, pulled: PulledView<E>) -> bool {
        self.phase is Accumulating ==> (pulled matches PulledView::Chunk(bytes)
            ==> self.buffered.len() + bytes.len() <= gather_limit())
    }

    /// The state after one pull of the wrapped body gave `pulled`, and the
    /// answer that goes out.
    ///
    /// While gathering, a chunk is added to the buffer; if that makes up the
    /// declared count the page goes out, and else the answer is "not yet, ask
    /// again". The end of the wrapped body sends the page of what was
    /// gathered. A failure goes out as it came and ends the body. When the
    /// wrapped body has nothing yet, neither has this one. Once the page or a
    /// failure has gone out, every answer is "no more".
    pub open spec fn step<E>(self, pulled: PulledView<E>) -> (BodyState, PolledView<E>) {
        match self.phase {
            Phase::Accumulating => match pulled {
                PulledView::Chunk(bytes) => {
                    let grown = BodyState { buffered: self.buffered + bytes, ..self };
                    if grown.is_complete() {
                        (
                            BodyState { phase: Phase::Complete, ..grown },
                            PolledView::quiet(PulledView::Chunk(page_bytes(grown.buffered))),
                        )
                    } else {
                        (grown, PolledView::retry())
                    }
                },
                PulledView::End => (
                    BodyState { phase: Phase::Complete, ..self },
                    PolledView::quiet(PulledView::Chunk(page_bytes(self.buffered))),
                ),
                PulledView::Failed(e) => (
                    BodyState { phase: Phase::Errored, ..self },
                    PolledView::quiet(PulledView::Failed(e)),
                ),
                PulledView::Pending => (self, PolledView::quiet(PulledView::Pending)),
            },
            _ => (self, PolledView::quiet(PulledView::End)),
        }
    }
}

/// An empty buffer, with room for the declared size where one is declared
/// and a buffer of that size can exist.
pub fn get_buffer_with_capacity(capacity: BodySize) -> (buffer: bytes::BytesMut)
    ensures
        buffer_bytes(buffer) == Seq::<u8>::empty(),
{
    match capacity {
        BodySize::Sized(n) => {
            if n <= isize::MAX as usize {
                bytes::BytesMut::with_capacity(n)
            } else {
                bytes::BytesMut::new()
            }
        },
        BodySize::Sized64(n) => {
            if n <= isize::MAX as u64 {
                bytes::BytesMut::with_capacity(n as usize)
            } else {
                bytes::BytesMut::new()
            }
        },
        _ => bytes::BytesMut::new(),
    }
}

/// A body that is being rewritten: the wrapped body, and what has been
/// gathered from it.
pub struct MarkdownBody<B> {
    body: B,
    size: BodySize,
    buffer: bytes::BytesMut,
    phase: Phase,
}

impl<B> View for MarkdownBody<B> {
    type V = BodyState;

    closed spec fn view(&self) -> BodyState {
        BodyState { size: self.size, buffered: buffer_bytes(self.buffer), phase: self.phase }
    }
}

impl<B> MarkdownBody<B> {
    /// The wrapped body. The library holds it and never touches it.
    pub closed spec fn wrapped(&self) -> B {
        self.body
    }

    /// Wraps `body`, which declares `size`. Nothing is gathered yet.
    pub fn new(body: B, size: BodySize) -> (made: Self)
        ensures
            made.wrapped() == body,
            made@ == BodyState::start(size),
    {
        MarkdownBody {
            body,
            size,
            buffer: get_buffer_with_capacity(size),
            phase: Phase::Accumulating,
        }
    }

    /// The wrapped body.
    pub fn body(&self) -> (body: &B)
        ensures
            *body == self.wrapped(),
    {
        &self.body
    }

    /// The wrapped body, to pull it.
    pub fn body_mut(&mut self) -> (body: &mut B)
        ensures
            *body == old(self).wrapped(),
            final(self).wrapped() == *final(body),
            final(self)@ == old(self)@,
    {
        &mut self.body
    }

    /// The size that the wrapped body declared.
    pub fn declared_size(&self) -> (size: BodySize)
        ensures
            size == self@.size,
    {
        self.size
    }

    /// Where the gathering stands.
    pub fn phase(&self) -> (phase: Phase)
        ensures
            phase == self@.phase,
    {
        self.phase
    }

    /// How many bytes have been gathered.
    pub fn buffered_len(&self) -> (len: usize)
        ensures
            len == self@.buffered.len(),
    {
        self.buffer.len()
    }

    /// Whether the declared count has been gathered. A body that declares no
    /// count is complete only when it ends.
    pub fn is_complete(&self) -> (complete: bool)
        ensures
            complete == self@.is_complete(),
    {
        match self.size {
            BodySize::Absent | BodySize::Empty => true,
            BodySize::Sized(size) => size <= self.buffer.len(),
            BodySize::Sized64(size) => size <= self.buffer.len() as u64,
            BodySize::Stream => false,
        }
    }

    /// Whether `pulled` can be taken in.
    pub fn fits<E>(&self, pulled: &Pulled<E>) -> (ok: bool)
        ensures
            ok == self@.fits(pulled@),
    {
        match self.phase {
            Phase::Accumulating => match pulled {
                Pulled::Chunk(chunk) => {
                    let have = self.buffer.len();
                    let more = chunk_slice(chunk).len();
                    let limit = (isize::MAX / 2) as usize;
                    have <= limit && more <= limit - have
                },
                _ => true,
            },
            _ => true,
        }
    }

    /// Takes in what one pull of the wrapped body gave and answers the pull
    /// of this body.
    pub fn on_pulled<E>(&mut self, pulled: Pulled<E>) -> (out: Polled<E>)
        requires
            old(self)@.fits(pulled@),
        ensures
            (final(self)@, out@) == old(self)@.step(pulled@),
            final(self).wrapped() == old(self).wrapped(),
    {
        match self.phase {
            Phase::Accumulating => match pulled {
                Pulled::Chunk(chunk) => {
                    self.buffer.extend_from_slice(chunk_slice(&chunk));
                    if self.is_complete() {
                        self.phase = Phase::Complete;
                        let page = converted_chunk(buffer_slice(&self.buffer));
                        Polled { item: Pulled::Chunk(page), wake: false }
                    } else {
                        Polled { item: Pulled::Pending, wake: true }
                    }
                },
                Pulled::End => {
                    self.phase = Phase::Complete;
                    let page = converted_chunk(buffer_slice(&self.buffer));
                    Polled { item: Pulled::Chunk(page), wake: false }
                },
                Pulled::Failed(e) => {
                    self.phase = Phase::Errored;
                    Polled { item: Pulled::Failed(e), wake: false }
                },
                Pulled::Pending => Polled { item: Pulled::Pending, wake: false },
            },
            _ => Polled { item: Pulled::End, wake: false },
        }
    }
}

} // verus!
