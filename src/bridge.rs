//! Memory bridge: the one host function a guest may call. It checks a frame
//! request against the bounds of the guest's linear memory and, when the
//! request fits, copies the frame's bytes into the hand-off buffer.
use vstd::prelude::*;
use crate::frame::{HostInterface, stored};

verus! {

/// Bytes per pixel: red, green, blue and alpha channels.
pub const BYTES_PER_PIXEL: u64 = 4;

/// Byte length of a frame of `width` by `height` pixels.
pub open spec fn frame_len(width: int, height: int) -> int {
    width * height * 4
}

/// Guest address of a frame pointer: the 32-bit pattern read as unsigned.
pub open spec fn guest_address(pixels_ptr: i32) -> int {
    (pixels_ptr as u32) as int
}

/// Whether a frame request lies inside a linear memory of `mem_len` bytes.
pub open spec fn frame_in_bounds(width: i32, height: i32, pixels_ptr: i32, mem_len: int) -> bool {
    &&& width >= 0
    &&& height >= 0
    &&& guest_address(pixels_ptr) + frame_len(width as int, height as int) <= mem_len
}

/// Length in bytes of the frame request, when it lies inside a linear memory
/// of `mem_len` bytes; `None` for negative sizes and for requests that reach
/// past the end of memory.
pub fn frame_region(width: i32, height: i32, pixels_ptr: i32, mem_len: usize) -> (r: Option<usize>)
    ensures
        r is Some <==> frame_in_bounds(width, height, pixels_ptr, mem_len as int),
        r matches Some(len) ==> len == frame_len(width as int, height as int),
{
    if width < 0 || height < 0 {
        return None;
    }
    let w = width as u64;
    let h = height as u64;
    assert(w * h <= 0x7fff_ffffu64 * 0x7fff_ffffu64) by (nonlinear_arith)
        requires
            w <= 0x7fff_ffffu64,
            h <= 0x7fff_ffffu64,
    ;
    let len: u64 = w * h * BYTES_PER_PIXEL;
    let start = (pixels_ptr as u32) as u64;
    let mem = mem_len as u64;
    if len <= mem && start <= mem - len {
        Some(len as usize)
    } else {
        None
    }
}

/// Handle a guest's frame request: when it lies inside `memory`, copy the
/// `width * height * 4` bytes at the guest address into the hand-off buffer
/// and return `true`; otherwise copy nothing, leave the buffer as it was and
/// return `false`, so that the caller can report the dropped request.
pub fn update_frame(
    host: &mut HostInterface,
    memory: &[u8],
    width: i32,
    height: i32,
    pixels_ptr: i32,
) -> (copied: bool)
    ensures
        copied == frame_in_bounds(width, height, pixels_ptr, memory@.len() as int),
        copied ==> final(host)@ == stored(
            old(host)@,
            width,
            height,
            memory@.subrange(
                guest_address(pixels_ptr),
                guest_address(pixels_ptr) + frame_len(width as int, height as int),
            ),
        ),
        !copied ==> final(host)@ == old(host)@,
{
    match frame_region(width, height, pixels_ptr, memory.len()) {
        Some(len) => {
            let start = pixels_ptr as u32 as usize;
            host.set_frame_from(width, height, memory, start, len);
            true
        },
        None => false,
    }
}

} // verus!
