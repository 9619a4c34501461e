//! The received frame as a bounded, read-only byte range, and the one routine
//! through which every read of it goes.

use vstd::prelude::*;

verus! {

/// A read would have run past the end of the frame.
#[derive(Clone, Copy, Debug, PartialEq, Eq)]
pub struct Truncated;

/// One received frame: the bytes of `memory` from `start` up to `end`.
///
/// The view of a frame buffer is exactly that byte range; offsets handed to
/// [`ptr_at`] are relative to `start`.
pub struct FrameBuffer<'a> {
    memory: &'a [u8],
    start: usize,
    end: usize,
}

impl<'a> View for FrameBuffer<'a> {
    type V = Seq<u8>;

    closed spec fn view(&self) -> Seq<u8> {
        self.memory@.subrange(self.start as int, self.end as int)
    }
}

impl<'a> FrameBuffer<'a> {
    #[verifier::type_invariant]
    closed spec fn well_formed(self) -> bool {
        self.start <= self.end <= self.memory@.len()
    }

    /// A frame that spans all of `memory`.
    pub fn new(memory: &'a [u8]) -> (frame: Self)
        ensures
            frame@ == memory@,
    {
        let frame = FrameBuffer { memory, start: 0, end: memory.len() };
        assert(frame@ =~= memory@);
        frame
    }

    /// The frame that occupies `memory[start..end]`, if those bounds lie
    /// inside `memory` and are in order.
    pub fn with_bounds(memory: &'a [u8], start: usize, end: usize) -> (frame: Option<Self>)
        ensures
            frame is Some <==> start <= end <= memory@.len(),
            frame matches Some(f) ==> f@ == memory@.subrange(start as int, end as int),
    {
        if start <= end && end <= memory.len() {
            Some(FrameBuffer { memory, start, end })
        } else {
            None
        }
    }

    /// Number of bytes in the frame.
    pub fn len(&self) -> (n: usize)
        ensures
            n == self@.len(),
    {
        proof {
            use_type_invariant(self);
        }
        self.end - self.start
    }
}

/// The bytes that a read of `len` bytes at `offset` sees in `frame`.
pub open spec fn window(frame: Seq<u8>, offset: int, len: int) -> Seq<u8> {
    frame.subrange(offset, offset + len)
}

/// Bounds-checked access: the `len` bytes of the frame that begin at
/// `offset`, or `Truncated` when they do not all lie inside the frame.
///
/// The sum `offset + len` is never formed in machine arithmetic, so no choice
/// of the two can wrap around and slip past the check.
pub fn ptr_at<'a>(ctx: &FrameBuffer<'a>, offset: usize, len: usize) -> (view: Result<
    &'a [u8],
    Truncated,
>)
    ensures
        view is Ok <==> offset + len <= ctx@.len(),
        view matches Ok(bytes) ==> bytes@ == window(ctx@, offset as int, len as int),
{
    proof {
        use_type_invariant(ctx);
    }
    let available = ctx.end - ctx.start;
    if offset > available || len > available - offset {
        return Err(Truncated);
    }
    let first = ctx.start + offset;
    let bytes = vstd::slice::slice_subrange(ctx.memory, first, first + len);
    assert(bytes@ =~= window(ctx@, offset as int, len as int));
    Ok(bytes)
}

} // verus!
