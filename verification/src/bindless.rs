use vstd::prelude::*;

verus! {

/// Bytes of one `vec4` of 32-bit floats, the element of both storage
/// buffers of the background-dot shader.
pub const VEC4_BYTES: u32 = 16;

/// Invocations per work-group of the background-dot shader.
pub const DOTS_PER_WORKGROUP: u32 = 64;

/// Buffer size and work-group count of one background-dot dispatch.
#[derive(Debug, PartialEq, Eq, Structural)]
pub struct BackgroundDispatch {
    /// Bytes of each of the two storage buffers: one `vec4` per dot.
    pub buffer_bytes: u32,
    /// Work-groups of 64 invocations that cover every dot.
    pub workgroups: u32,
}

/// Sizes the dispatch that generates `count` background dots.
pub fn background_dispatch(count: u32) -> (dispatch: BackgroundDispatch)
    requires
        count * 16 <= u32::MAX,
    ensures
        dispatch.buffer_bytes == count * 16,
        dispatch.workgroups == (count + 63) / 64,
{
    BackgroundDispatch {
        buffer_bytes: count * VEC4_BYTES,
        workgroups: (count + (DOTS_PER_WORKGROUP - 1)) / DOTS_PER_WORKGROUP,
    }
}

/// How many dots can be read back: dots are read in order while both the
/// position and the colour buffer still hold a whole `vec4` for the next
/// one, and at most `count` of them.
pub open spec fn readable_dots(count: int, position_bytes: int, colour_bytes: int) -> int {
    vstd::math::min(count, vstd::math::min(position_bytes / 16, colour_bytes / 16))
}

/// Number of dots parsed from the read-back buffers, whose lengths in
/// bytes are `position_bytes` and `colour_bytes`: dot `i` is read from
/// byte offset `16 * i` of both, and reading stops at the first dot that
/// one of them does not hold whole.
pub fn readable_dot_count(count: u32, position_bytes: usize, colour_bytes: usize) -> (n: usize)
    requires
        count * 16 <= u32::MAX,
    ensures
        n == readable_dots(count as int, position_bytes as int, colour_bytes as int),
{
    let mut i: usize = 0;
    while i < count as usize
        invariant
            i <= count,
            count * 16 <= u32::MAX,
            i * 16 <= position_bytes,
            i * 16 <= colour_bytes,
        decreases count - i,
    {
        let off = i * 16;
        if off + 16 > position_bytes || off + 16 > colour_bytes {
            return i;
        }
        i += 1;
    }
    i
}

} // verus!
