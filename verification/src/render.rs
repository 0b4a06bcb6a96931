//! Painting the display into a frame of pixels for the host's window.

use vstd::prelude::*;

verus! {

/// Number of bytes that one pixel takes in a frame: red, green, blue and
/// alpha.
pub const BYTES_PER_PIXEL: usize = 4;

/// The byte at position `k` of the frame that shows `screen`: a lit pixel
/// is white, an unlit one black, and every pixel is opaque.
pub open spec fn frame_byte(screen: Seq<bool>, k: int) -> u8 {
    if k % 4 == 3 || screen[k / 4] {
        0xff
    } else {
        0x00
    }
}

/// Paints a display into a frame of four bytes per pixel, pixel `i` of the
/// display into bytes `4 * i` to `4 * i + 3`.
///
/// Bytes at the end of the frame that do not make up a whole pixel are left
/// as they are. The display has to hold a pixel for each whole pixel of the
/// frame.
pub fn draw_screen(screen: &[bool], frame: &mut [u8])
    requires
        old(frame)@.len() / 4 <= screen@.len(),
    ensures
        final(frame)@.len() == old(frame)@.len(),
        forall|k: int|
            0 <= k < old(frame)@.len() ==> final(frame)@[k] == if k / 4 < old(frame)@.len() / 4 {
                frame_byte(screen@, k)
            } else {
                old(frame)@[k]
            },
{
    let pixels = frame.len() / BYTES_PER_PIXEL;
    let mut i: usize = 0;
    while i < pixels
        invariant
            i <= pixels,
            pixels == old(frame)@.len() / 4,
            pixels <= screen@.len(),
            frame@.len() == old(frame)@.len() <= usize::MAX,
            forall|k: int|
                0 <= k < frame@.len() ==> frame@[k] == if k / 4 < i {
                    frame_byte(screen@, k)
                } else {
                    old(frame)@[k]
                },
        decreases pixels - i,
    {
        let shade: u8 = if screen[i] {
            0xff
        } else {
            0x00
        };
        let at = i * BYTES_PER_PIXEL;
        frame[at] = shade;
        frame[at + 1] = shade;
        frame[at + 2] = shade;
        frame[at + 3] = 0xff;
        i += 1;
    }
}

} // verus!
