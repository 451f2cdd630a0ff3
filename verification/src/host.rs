//! Helpers for the host adaptor: the input codes delivered on each sync and
//! the pixel format of the screen buffer.

use vstd::prelude::*;

verus! {

/// The position code for cursor coordinates: the screen is row-major, so the
/// cursor at column `x` of row `y` is word `y * 256 + x`.
pub open spec fn pos_code_of(x: u16, y: u16) -> u16
    recommends
        x < 256,
        y < 256,
{
    (y * 256 + x) as u16
}

/// The key code bitmask: one bit per button, A through Start from the lowest
/// bit up.
pub open spec fn key_code_of(
    a: bool,
    b: bool,
    up: bool,
    down: bool,
    left: bool,
    right: bool,
    select: bool,
    start: bool,
) -> u16 {
    ((if a { 1int } else { 0int }) + (if b { 2int } else { 0int }) + (if up { 4int } else { 0int })
        + (if down { 8int } else { 0int }) + (if left { 16int } else { 0int }) + (if right {
        32int
    } else {
        0int
    }) + (if select { 64int } else { 0int }) + (if start { 128int } else { 0int })) as u16
}

/// Packs the cursor position and the button states into the two input words
/// delivered by a host sync.
pub fn input_code(
    x: u16,
    y: u16,
    a: bool,
    b: bool,
    up: bool,
    down: bool,
    left: bool,
    right: bool,
    select: bool,
    start: bool,
) -> (codes: (u16, u16))
    requires
        x < 256,
        y < 256,
    ensures
        codes.0 == pos_code_of(x, y),
        codes.1 == key_code_of(a, b, up, down, left, right, select, start),
{
    let pos_code: u16 = y * 256 + x;
    let mut key_code: u16 = 0;
    if a {
        key_code = key_code + 1;
    }
    if b {
        key_code = key_code + 2;
    }
    if up {
        key_code = key_code + 4;
    }
    if down {
        key_code = key_code + 8;
    }
    if left {
        key_code = key_code + 16;
    }
    if right {
        key_code = key_code + 32;
    }
    if select {
        key_code = key_code + 64;
    }
    if start {
        key_code = key_code + 128;
    }
    (pos_code, key_code)
}

/// The five red bits of an RGB565 word.
pub open spec fn red5(w: u16) -> u16 {
    (w >> 11) & 0x1f
}

/// The six green bits of an RGB565 word.
pub open spec fn green6(w: u16) -> u16 {
    (w >> 5) & 0x3f
}

/// The five blue bits of an RGB565 word.
pub open spec fn blue5(w: u16) -> u16 {
    w & 0x1f
}

/// A five-bit channel expanded to eight bits by shift-and-replicate.
pub open spec fn expand5(c: u16) -> u8 {
    ((c << 3) | (c >> 2)) as u8
}

/// A six-bit channel expanded to eight bits by shift-and-replicate.
pub open spec fn expand6(c: u16) -> u8 {
    ((c << 2) | (c >> 4)) as u8
}

/// The 8-bit red, green and blue channels of an RGB565 screen word.
pub open spec fn rgb888_of(w: u16) -> (u8, u8, u8) {
    (expand5(red5(w)), expand6(green6(w)), expand5(blue5(w)))
}

/// Splits an RGB565 screen word into 8-bit red, green and blue channels, each
/// expanded by the customary shift-and-replicate.
pub fn rgb565_to_rgb888(w: u16) -> (rgb: (u8, u8, u8))
    ensures
        rgb == rgb888_of(w),
{
    let r = (w >> 11) & 0x1f;
    let g = (w >> 5) & 0x3f;
    let b = w & 0x1f;
    proof {
        assert(((w >> 11) & 0x1f) < 32 && ((w >> 5) & 0x3f) < 64 && (w & 0x1f) < 32)
            by (bit_vector);
        assert(r < 32 ==> ((r << 3) | (r >> 2)) < 256) by (bit_vector);
        assert(g < 64 ==> ((g << 2) | (g >> 4)) < 256) by (bit_vector);
        assert(b < 32 ==> ((b << 3) | (b >> 2)) < 256) by (bit_vector);
    }
    let r8 = ((r << 3) | (r >> 2)) as u8;
    let g8 = ((g << 2) | (g >> 4)) as u8;
    let b8 = ((b << 3) | (b >> 2)) as u8;
    (r8, g8, b8)
}

/// Converts a whole screen buffer to 8-bit channel triples, one per word; a
/// display front end only has to pack them into its pixel type.
pub fn screen_to_rgb888(screen: &Vec<u16>) -> (pixels: Vec<(u8, u8, u8)>)
    ensures
        pixels@.len() == screen@.len(),
        forall|i: int| 0 <= i < screen@.len() ==> (#[trigger] pixels@[i]) == rgb888_of(screen@[i]),
{
    let mut pixels: Vec<(u8, u8, u8)> = Vec::new();
    let mut i: usize = 0;
    while i < screen.len()
        invariant
            i <= screen@.len(),
            pixels@.len() == i,
            forall|j: int| 0 <= j < i ==> (#[trigger] pixels@[j]) == rgb888_of(screen@[j]),
        decreases screen@.len() - i,
    {
        pixels.push(rgb565_to_rgb888(screen[i]));
        i = i + 1;
    }
    pixels
}

} // verus!
