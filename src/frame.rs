//! Frame hand-off buffer: a single-slot, latest-value-wins cell holding the
//! most recent frame produced by the guest and a dirty flag.
//!
//! The producer replaces the stored frame with `set_frame`; the consumer
//! drains it with `borrow_frame`, which yields the frame only when a new one
//! arrived since the previous drain. The pixel buffer is cleared and refilled
//! in place, so its capacity is reused across frames of equal or smaller size.
use vstd::prelude::*;

verus! {

/// Abstract state of the hand-off buffer.
pub struct FrameState {
    pub width: i32,
    pub height: i32,
    pub pixels: Seq<u8>,
    pub dirty: bool,
}

/// The state after a frame of the given size and bytes was stored into `s`:
/// nothing of `s` survives.
pub open spec fn stored(s: FrameState, width: i32, height: i32, pixels: Seq<u8>) -> FrameState {
    FrameState { width, height, pixels, dirty: true }
}

/// The state after the consumer drained `s`.
pub open spec fn drained(s: FrameState) -> FrameState {
    FrameState { dirty: false, ..s }
}

/// What the consumer observes when draining `s`.
pub open spec fn observed(s: FrameState) -> Option<(i32, i32, Seq<u8>)> {
    if s.dirty {
        Some((s.width, s.height, s.pixels))
    } else {
        None
    }
}

/// Shared state between the guest and the host: the latest frame.
pub struct HostInterface {
    frame_width: i32,
    frame_height: i32,
    frame_buffer: Vec<u8>,
    frame_dirty: bool,
}

impl View for HostInterface {
    type V = FrameState;

    closed spec fn view(&self) -> FrameState {
        FrameState {
            width: self.frame_width,
            height: self.frame_height,
            pixels: self.frame_buffer@,
            dirty: self.frame_dirty,
        }
    }
}

impl HostInterface {
    /// An empty buffer: no frame, nothing to drain.
    pub fn new() -> (r: Self)
        ensures
            r@ == (FrameState { width: 0, height: 0, pixels: Seq::<u8>::empty(), dirty: false }),
    {
        HostInterface {
            frame_width: 0,
            frame_height: 0,
            frame_buffer: Vec::new(),
            frame_dirty: false,
        }
    }

    /// Replace the stored frame with `len` bytes of `src` starting at
    /// `start`, and mark it dirty.
    pub fn set_frame_from(&mut self, width: i32, height: i32, src: &[u8], start: usize, len: usize)
        requires
            start + len <= src@.len(),
        ensures
            final(self)@ == stored(old(self)@, width, height, src@.subrange(start as int, start + len)),
    {
        self.frame_width = width;
        self.frame_height = height;
        self.frame_buffer.clear();
        self.frame_buffer.reserve(len);
        let n: usize = src.len();
        let mut i: usize = 0;
        while i < len
            invariant
                n == src@.len(),
                start + len <= n,
                i <= len,
                self.frame_buffer@ == src@.subrange(start as int, start + i),
                self.frame_width == width,
                self.frame_height == height,
            decreases len - i,
        {
            self.frame_buffer.push(src[start + i]);
            i = i + 1;
            assert(self.frame_buffer@ =~= src@.subrange(start as int, start + i));
        }
        self.frame_dirty = true;
    }

    /// Replace the stored frame with `pixels` and mark it dirty.
    pub fn set_frame(&mut self, width: i32, height: i32, pixels: &[u8])
        ensures
            final(self)@ == stored(old(self)@, width, height, pixels@),
    {
        self.set_frame_from(width, height, pixels, 0, pixels.len());
        assert(pixels@.subrange(0, pixels@.len() as int) =~= pixels@);
    }

    /// Drain the buffer: the stored frame if it is new since the last drain,
    /// else `None`. Either way the buffer is no longer dirty afterwards.
    pub fn borrow_frame(&mut self) -> (r: Option<(i32, i32, &[u8])>)
        ensures
            final(self)@ == drained(old(self)@),
            r matches Some(f) ==> observed(old(self)@) == Some((f.0, f.1, f.2@)),
            r is None <==> observed(old(self)@) is None,
    {
        if self.frame_dirty {
            self.frame_dirty = false;
            Some((self.frame_width, self.frame_height, self.frame_buffer.as_slice()))
        } else {
            None
        }
    }

    /// Width and height of the stored frame, whether drained or not.
    pub fn frame_dimensions(&self) -> (r: (i32, i32))
        ensures
            r == (self@.width, self@.height),
    {
        (self.frame_width, self.frame_height)
    }
}

impl Default for HostInterface {
    fn default() -> (r: Self)
        ensures
            r@ == (FrameState { width: 0, height: 0, pixels: Seq::<u8>::empty(), dirty: false }),
    {
        Self::new()
    }
}

/// Draining twice with no store in between: a freshly stored frame is
/// observed by the first drain, and the second drain observes nothing.
pub proof fn lemma_take_twice(s: FrameState, width: i32, height: i32, pixels: Seq<u8>)
    ensures
        observed(stored(s, width, height, pixels)) == Some((width, height, pixels)),
        observed(drained(stored(s, width, height, pixels))) is None,
{
}

/// Storing twice with no drain in between leaves only the second frame: the
/// state equals the one reached by storing the second frame alone, and a
/// drain observes the second frame.
pub proof fn lemma_store_overwrites(
    s: FrameState,
    w1: i32,
    h1: i32,
    p1: Seq<u8>,
    w2: i32,
    h2: i32,
    p2: Seq<u8>,
)
    ensures
        stored(stored(s, w1, h1, p1), w2, h2, p2) == stored(s, w2, h2, p2),
        observed(stored(stored(s, w1, h1, p1), w2, h2, p2)) == Some((w2, h2, p2)),
{
}

} // verus!
