//! The one-bit frame buffer that the surface draws into, and its conversion
//! into the RGBA pixels of the page's canvas.
//!
//! Pixel `i` of the frame buffer is bit `7 - i % 8` of byte `i / 8`: the
//! leftmost pixel of each byte is its most significant bit. A set bit shows
//! colour 1 of the palette, a clear bit colour 0; each colour is the four
//! RGBA bytes at `4 * colour` in the palette.

use vstd::prelude::*;

verus! {

/// The number of bytes that `pixels` one-bit pixels take, rounded up.
pub open spec fn framebuffer_len(pixels: int) -> int {
    (pixels + 7) / 8
}

/// The colour index (0 or 1) of pixel `i` of the frame buffer `fb`.
pub open spec fn pixel_bit(fb: Seq<u8>, i: int) -> u8 {
    (fb[i / 8] >> ((7 - i % 8) as u8)) & 1u8
}

/// The RGBA bytes of the first `pixels` pixels of `fb` under `palette`.
pub open spec fn rgba_image(fb: Seq<u8>, palette: Seq<u8>, pixels: nat) -> Seq<u8> {
    Seq::new(pixels * 4, |j: int| palette[4 * pixel_bit(fb, j / 4) + j % 4])
}

/// The number of frame-buffer bytes that a `width` x `height` surface needs.
pub fn framebuffer_size(width: usize, height: usize) -> (n: usize)
    requires
        width * height + 7 <= usize::MAX,
    ensures
        n == framebuffer_len(width * height),
        width * height <= 8 * n < width * height + 8,
{
    (width * height + 7) / 8
}

/// Whether a canvas memory of `mem_len` bytes holds exactly `width` x `height`
/// RGBA pixels.
pub fn canvas_matches(mem_len: usize, width: usize, height: usize) -> (ok: bool)
    ensures
        ok == (mem_len == width * height * 4),
{
    match width.checked_mul(height) {
        Some(pixels) => match pixels.checked_mul(4) {
            Some(bytes) => bytes == mem_len,
            None => false,
        },
        None => {
            assert(width * height * 4 > usize::MAX) by (nonlinear_arith)
                requires
                    width * height > usize::MAX,
            ;
            false
        },
    }
}

/// The colour index of pixel `i`, read from its byte.
fn pixel_bit_at(fb: &[u8], i: usize) -> (bit: u8)
    requires
        i / 8 < fb@.len(),
    ensures
        bit == pixel_bit(fb@, i as int),
        bit == (fb@[i as int / 8] >> ((7 - i as int % 8) as u8)) & 1u8,
        bit <= 1,
{
    let byte = fb[i / 8];
    let shift: u8 = (7 - i % 8) as u8;
    let bit = (byte >> shift) & 1u8;
    assert(bit <= 1) by (bit_vector)
        requires
            bit == (byte >> shift) & 1u8,
    ;
    bit
}

/// Writes the RGBA bytes of the first `pixels` pixels of the frame buffer
/// `fb` into `mem`, four bytes per pixel, taking each colour from `palette`.
pub fn paint(fb: &[u8], palette: &[u8], mem: &mut [u8], pixels: usize)
    requires
        palette@.len() >= 8,
        pixels <= 8 * fb@.len(),
        old(mem)@.len() == pixels * 4,
    ensures
        final(mem)@ == rgba_image(fb@, palette@, pixels as nat),
        forall|p: int, k: int|
            0 <= p < pixels && 0 <= k < 4 ==> #[trigger] final(mem)@[4 * p + k] == palette@[4 * ((
            fb@[p / 8] >> ((7 - p % 8) as u8)) & 1u8) + k],
{
    let mem_len = mem.len();
    let mut i: usize = 0;
    while i < pixels
        invariant
            i <= pixels,
            mem_len == mem@.len(),
            palette@.len() >= 8,
            pixels <= 8 * fb@.len(),
            mem@.len() == pixels * 4,
            forall|j: int|
                0 <= j < 4 * i ==> #[trigger] mem@[j] == palette@[4 * pixel_bit(fb@, j / 4) + j % 4],
        decreases pixels - i,
    {
        let bit = pixel_bit_at(fb, i);
        let base: usize = 4 * (bit as usize);
        let at: usize = 4 * i;
        mem[at] = palette[base];
        mem[at + 1] = palette[base + 1];
        mem[at + 2] = palette[base + 2];
        mem[at + 3] = palette[base + 3];
        i = i + 1;
    }
    assert(mem@ =~= rgba_image(fb@, palette@, pixels as nat));
    assert forall|p: int, k: int| 0 <= p < pixels && 0 <= k < 4 implies #[trigger] mem@[4 * p + k]
        == palette@[4 * ((fb@[p / 8] >> ((7 - p % 8) as u8)) & 1u8) + k] by {
        painted_pixel_reads_its_bit(fb@, palette@, pixels as nat, p, k);
    }
}

/// Byte `k` of painted pixel `p` is byte `k` of the palette colour that bit
/// `7 - p % 8` of frame-buffer byte `p / 8` selects: the canvas shows each
/// pixel of the frame buffer at its own place, for canvases of any size.
pub proof fn painted_pixel_reads_its_bit(fb: Seq<u8>, palette: Seq<u8>, pixels: nat, p: int, k: int)
    requires
        palette.len() >= 8,
        0 <= p < pixels,
        pixels <= 8 * fb.len(),
        0 <= k < 4,
    ensures
        rgba_image(fb, palette, pixels)[4 * p + k] == palette[4 * ((fb[p / 8] >> ((7 - p % 8) as u8))
            & 1u8) + k],
{
    assert((4 * p + k) / 4 == p);
    assert((4 * p + k) % 4 == k);
    let byte = fb[p / 8];
    let shift = (7 - p % 8) as u8;
    assert((byte >> shift) & 1u8 <= 1u8) by (bit_vector);
}

/// Every pixel of a painted canvas shows one of the two palette colours:
/// colour 1 where its frame-buffer bit is set, colour 0 where it is clear.
pub proof fn painted_pixel_is_palette_colour(fb: Seq<u8>, palette: Seq<u8>, pixels: nat, p: int)
    requires
        palette.len() >= 8,
        0 <= p < pixels,
        pixels <= 8 * fb.len(),
    ensures
        pixel_bit(fb, p) == 0 || pixel_bit(fb, p) == 1,
        rgba_image(fb, palette, pixels).subrange(4 * p, 4 * p + 4) == palette.subrange(
            4 * pixel_bit(fb, p),
            4 * pixel_bit(fb, p) + 4,
        ),
{
    let byte = fb[p / 8];
    let shift = (7 - p % 8) as u8;
    assert((byte >> shift) & 1u8 <= 1u8) by (bit_vector);
    let img = rgba_image(fb, palette, pixels);
    assert forall|k: int| 0 <= k < 4 implies #[trigger] img.subrange(4 * p, 4 * p + 4)[k]
        == palette.subrange(4 * pixel_bit(fb, p), 4 * pixel_bit(fb, p) + 4)[k] by {
        assert((4 * p + k) / 4 == p);
        assert((4 * p + k) % 4 == k);
    }
    assert(img.subrange(4 * p, 4 * p + 4) =~= palette.subrange(
        4 * pixel_bit(fb, p),
        4 * pixel_bit(fb, p) + 4,
    ));
}

} // verus!
