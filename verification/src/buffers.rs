//! The byte buffers that the front-end keeps from one call of the page to
//! the next: the palette, the one-bit frame buffer of the surface, and the
//! staging copies of the last XML document and media package that the page
//! handed over.

use vstd::prelude::*;
use vstd::string::*;
use vstd::utf8::*;

use bytes::BytesMut;

use crate::buffer::{
    buffer_as_mut_slice, buffer_as_slice, buffer_bytes, buffer_from_slice, buffer_len,
    buffer_resize, buffer_zeroed,
};
use crate::framebuffer::{canvas_matches, framebuffer_len, framebuffer_size, paint, rgba_image};
use crate::text::{framed_bitmap, framed_bitmap_text, utf8_str};

verus! {

/// The number of palette bytes: two RGBA colours.
pub const PALETTE_LEN: usize = 8;

/// The palette that the front-end starts with: dark grey for a clear pixel,
/// pale blue for a set one.
pub open spec fn default_palette() -> Seq<u8> {
    seq![48u8, 48u8, 48u8, 255u8, 220u8, 220u8, 255u8, 255u8]
}

/// The single zero byte that an empty buffer starts with.
pub open spec fn blank_buffer() -> Seq<u8> {
    seq![0u8]
}

/// `old` resized to `len` bytes: truncated, or extended with zero bytes.
pub open spec fn resized(old: Seq<u8>, len: nat) -> Seq<u8> {
    if len <= old.len() {
        old.take(len as int)
    } else {
        old + Seq::new((len - old.len()) as nat, |i: int| 0u8)
    }
}

/// The new palette after the colour bytes `rgb` are written over `old`:
/// as many leading bytes as both hold are taken from `rgb`.
pub open spec fn palette_after(old: Seq<u8>, rgb: Seq<u8>) -> Seq<u8> {
    let n = if rgb.len() < old.len() {
        rgb.len()
    } else {
        old.len()
    };
    rgb.take(n as int) + old.skip(n as int)
}

/// The buffers of the front-end.
pub struct Buffers {
    palette: BytesMut,
    screen: BytesMut,
    xml: BytesMut,
    pkg: BytesMut,
}

/// Copies `data` into `buf`, which ends up holding exactly `data`.
fn stage(buf: &mut BytesMut, data: &[u8])
    requires
        data@.len() <= isize::MAX,
    ensures
        buffer_bytes(*final(buf)) == data@,
{
    let n = data.len();
    buffer_resize(buf, n, 0);
    let s = buffer_as_mut_slice(buf);
    let mut i: usize = 0;
    while i < n
        invariant
            i <= n,
            n == data@.len(),
            s@.len() == n,
            forall|j: int| 0 <= j < i ==> s@[j] == data@[j],
        decreases n - i,
    {
        s[i] = data[i];
        i = i + 1;
    }
    assert(s@ =~= data@);
}

impl Buffers {
    /// The palette bytes.
    pub closed spec fn palette_bytes(&self) -> Seq<u8> {
        buffer_bytes(self.palette)
    }

    /// The frame-buffer bytes.
    pub closed spec fn screen_bytes(&self) -> Seq<u8> {
        buffer_bytes(self.screen)
    }

    /// The bytes of the last XML document staged.
    pub closed spec fn xml_bytes(&self) -> Seq<u8> {
        buffer_bytes(self.xml)
    }

    /// The bytes of the last media package staged.
    pub closed spec fn pkg_bytes(&self) -> Seq<u8> {
        buffer_bytes(self.pkg)
    }

    /// The palette always holds two RGBA colours.
    pub open spec fn wf(&self) -> bool {
        self.palette_bytes().len() == PALETTE_LEN
    }

    /// The buffers at start-up: the default palette, and a single zero byte
    /// in each of the others.
    pub fn new() -> (b: Self)
        ensures
            b.wf(),
            b.palette_bytes() == default_palette(),
            b.screen_bytes() == blank_buffer(),
            b.xml_bytes() == blank_buffer(),
            b.pkg_bytes() == blank_buffer(),
    {
        let colours: [u8; 8] = [48u8, 48u8, 48u8, 255u8, 220u8, 220u8, 255u8, 255u8];
        let palette = buffer_from_slice(colours.as_slice());
        let screen = buffer_zeroed(1);
        let xml = buffer_zeroed(1);
        let pkg = buffer_zeroed(1);
        assert(buffer_bytes(palette) =~= default_palette());
        assert(buffer_bytes(screen) =~= blank_buffer());
        assert(buffer_bytes(xml) =~= blank_buffer());
        assert(buffer_bytes(pkg) =~= blank_buffer());
        Buffers { palette, screen, xml, pkg }
    }

    /// Drops the frame buffer and the staged document and package, leaving a
    /// single zero byte in each; the palette stays.
    pub fn reset(&mut self)
        requires
            old(self).wf(),
        ensures
            final(self).wf(),
            final(self).palette_bytes() == old(self).palette_bytes(),
            final(self).screen_bytes() == blank_buffer(),
            final(self).xml_bytes() == blank_buffer(),
            final(self).pkg_bytes() == blank_buffer(),
    {
        self.screen = buffer_zeroed(1);
        self.xml = buffer_zeroed(1);
        self.pkg = buffer_zeroed(1);
        assert(buffer_bytes(self.screen) =~= blank_buffer());
        assert(buffer_bytes(self.xml) =~= blank_buffer());
        assert(buffer_bytes(self.pkg) =~= blank_buffer());
    }

    /// A copy of the palette bytes.
    pub fn palette(&self) -> (colours: Vec<u8>)
        ensures
            colours@ == self.palette_bytes(),
    {
        vstd::slice::slice_to_vec(buffer_as_slice(&self.palette))
    }

    /// Writes the colour bytes `rgb` over the palette, as far as both reach.
    pub fn set_palette(&mut self, rgb: &[u8])
        requires
            old(self).wf(),
        ensures
            final(self).wf(),
            final(self).palette_bytes() == palette_after(old(self).palette_bytes(), rgb@),
            forall|i: int|
                0 <= i < PALETTE_LEN ==> #[trigger] final(self).palette_bytes()[i] == (if i < rgb@.len() {
                    rgb@[i]
                } else {
                    old(self).palette_bytes()[i]
                }),
            final(self).screen_bytes() == old(self).screen_bytes(),
            final(self).xml_bytes() == old(self).xml_bytes(),
            final(self).pkg_bytes() == old(self).pkg_bytes(),
    {
        let ghost before = buffer_bytes(self.palette);
        let len = buffer_len(&self.palette);
        let n = if rgb.len() < len {
            rgb.len()
        } else {
            len
        };
        let colours = buffer_as_mut_slice(&mut self.palette);
        let mut i: usize = 0;
        while i < n
            invariant
                i <= n,
                n <= rgb@.len(),
                n <= len,
                len == before.len(),
                colours@.len() == len,
                forall|j: int| 0 <= j < i ==> colours@[j] == rgb@[j],
                forall|j: int| i <= j < len ==> colours@[j] == before[j],
            decreases n - i,
        {
            colours[i] = rgb[i];
            i = i + 1;
        }
        assert(colours@ =~= palette_after(before, rgb@));
        proof {
            palette_write_byte_by_byte(before, rgb@);
        }
    }

    /// Stages a copy of the XML document `data`.
    pub fn load_xml(&mut self, data: &str)
        requires
            old(self).wf(),
            data.spec_bytes().len() <= isize::MAX,
        ensures
            final(self).wf(),
            final(self).xml_bytes() == data.spec_bytes(),
            final(self).palette_bytes() == old(self).palette_bytes(),
            final(self).screen_bytes() == old(self).screen_bytes(),
            final(self).pkg_bytes() == old(self).pkg_bytes(),
    {
        stage(&mut self.xml, data.as_bytes());
    }

    /// The staged XML document as text, where its bytes are valid UTF-8.
    pub fn staged_xml(&self) -> (text: Option<&str>)
        ensures
            text is Some <==> valid_utf8(self.xml_bytes()),
            text matches Some(t) ==> t.spec_bytes() == self.xml_bytes() && t@ == decode_utf8(
                self.xml_bytes(),
            ),
    {
        let text = utf8_str(buffer_as_slice(&self.xml));
        proof {
            if let Some(t) = text {
                encode_utf8_decode_utf8(t@);
            }
        }
        text
    }

    /// Stages a copy of the media package `data`.
    pub fn load_pkg(&mut self, data: &[u8])
        requires
            old(self).wf(),
            data@.len() <= isize::MAX,
        ensures
            final(self).wf(),
            final(self).pkg_bytes() == data@,
            final(self).palette_bytes() == old(self).palette_bytes(),
            final(self).screen_bytes() == old(self).screen_bytes(),
            final(self).xml_bytes() == old(self).xml_bytes(),
    {
        stage(&mut self.pkg, data);
    }

    /// The staged media package.
    pub fn staged_pkg(&self) -> (data: &[u8])
        ensures
            data@ == self.pkg_bytes(),
    {
        buffer_as_slice(&self.pkg)
    }

    /// Sizes the frame buffer for a `width` x `height` surface: one bit per
    /// pixel, rounded up to whole bytes. Bytes that stay keep their value;
    /// new ones are zero.
    pub fn fit_framebuffer(&mut self, width: usize, height: usize)
        requires
            old(self).wf(),
            width * height + 7 <= usize::MAX,
        ensures
            final(self).wf(),
            final(self).screen_bytes() == resized(
                old(self).screen_bytes(),
                framebuffer_len(width * height) as nat,
            ),
            final(self).screen_bytes().len() == (width * height + 7) / 8,
            forall|i: int|
                0 <= i < final(self).screen_bytes().len() ==> #[trigger] final(self).screen_bytes()[i]
                    == (if i < old(self).screen_bytes().len() {
                    old(self).screen_bytes()[i]
                } else {
                    0u8
                }),
            final(self).palette_bytes() == old(self).palette_bytes(),
            final(self).xml_bytes() == old(self).xml_bytes(),
            final(self).pkg_bytes() == old(self).pkg_bytes(),
    {
        let ghost before = buffer_bytes(self.screen);
        let size = framebuffer_size(width, height);
        if buffer_len(&self.screen) != size {
            buffer_resize(&mut self.screen, size, 0);
        } else {
            assert(buffer_bytes(self.screen).take(size as int) =~= buffer_bytes(self.screen));
        }
        proof {
            resized_keeps_and_zero_fills(before, size as nat);
        }
    }

    /// Readies the buffers for painting a `width` x `height` canvas whose
    /// memory holds `mem_len` bytes: where the memory holds exactly four bytes
    /// per pixel, sizes the frame buffer as `fit_framebuffer` does and answers
    /// `true`; otherwise changes nothing and answers `false`.
    pub fn prepare_render(&mut self, mem_len: usize, width: usize, height: usize) -> (ok: bool)
        requires
            old(self).wf(),
        ensures
            final(self).wf(),
            ok == (mem_len == width * height * 4),
            final(self).screen_bytes() == (if ok {
                resized(old(self).screen_bytes(), framebuffer_len(width * height) as nat)
            } else {
                old(self).screen_bytes()
            }),
            final(self).palette_bytes() == old(self).palette_bytes(),
            final(self).xml_bytes() == old(self).xml_bytes(),
            final(self).pkg_bytes() == old(self).pkg_bytes(),
    {
        if !canvas_matches(mem_len, width, height) {
            return false;
        }
        self.fit_framebuffer(width, height);
        true
    }

    /// The frame buffer, for the surface to draw into.
    pub fn framebuffer_mut(&mut self) -> (fb: &mut [u8])
        ensures
            fb@ == old(self).screen_bytes(),
            final(self).screen_bytes() == final(fb)@,
            final(self).palette_bytes() == old(self).palette_bytes(),
            final(self).xml_bytes() == old(self).xml_bytes(),
            final(self).pkg_bytes() == old(self).pkg_bytes(),
    {
        buffer_as_mut_slice(&mut self.screen)
    }

    /// Paints the `width` x `height` frame buffer into the canvas memory
    /// `mem`, four RGBA bytes per pixel in the palette's colours.
    pub fn paint(&self, mem: &mut [u8], width: usize, height: usize)
        requires
            self.wf(),
            old(mem)@.len() == width * height * 4,
            width * height <= 8 * self.screen_bytes().len(),
        ensures
            final(mem)@ == rgba_image(self.screen_bytes(), self.palette_bytes(), (width * height) as nat),
            forall|p: int, k: int|
                0 <= p < width * height && 0 <= k < 4 ==> #[trigger] final(mem)@[4 * p + k]
                    == self.palette_bytes()[4 * ((self.screen_bytes()[p / 8] >> ((7 - p % 8) as u8))
                    & 1u8) + k],
    {
        let mem_len = mem.len();
        assert(width * height <= mem_len);
        let pixels = width * height;
        paint(buffer_as_slice(&self.screen), buffer_as_slice(&self.palette), mem, pixels);
    }

    /// The framed text picture of the `width` x `height` frame buffer.
    pub fn framebuffer_text(&self, width: usize, height: usize) -> (text: String)
        requires
            width * height <= usize::MAX,
        ensures
            text@ == framed_bitmap_text(width, height, self.screen_bytes()),
    {
        framed_bitmap(width, height, buffer_as_slice(&self.screen))
    }
}

/// A frame buffer sized for `pixels` pixels holds a bit for each of them,
/// whatever it held before: after `fit_framebuffer` or a successful
/// `prepare_render`, `paint` can cover the whole surface.
pub proof fn fitted_framebuffer_covers(old: Seq<u8>, pixels: nat)
    ensures
        resized(old, framebuffer_len(pixels as int) as nat).len() == framebuffer_len(pixels as int),
        pixels <= 8 * resized(old, framebuffer_len(pixels as int) as nat).len(),
{
}

/// Resizing gives exactly `len` bytes: those that were there keep their
/// value and every new one is zero.
pub proof fn resized_keeps_and_zero_fills(old: Seq<u8>, len: nat)
    ensures
        resized(old, len).len() == len,
        forall|i: int|
            0 <= i < len ==> #[trigger] resized(old, len)[i] == (if i < old.len() {
                old[i]
            } else {
                0u8
            }),
{
}

/// Sizing the frame buffer twice for the same surface changes nothing the
/// second time.
pub proof fn fit_is_idempotent(old: Seq<u8>, len: nat)
    ensures
        resized(resized(old, len), len) == resized(old, len),
{
    assert(resized(resized(old, len), len) =~= resized(old, len));
}

/// Writing colours over the palette keeps its length, so the palette always
/// holds two colours; colour bytes that reach over the whole palette replace
/// it, and `palette` then reads them back.
pub proof fn palette_write_read_back(old: Seq<u8>, rgb: Seq<u8>)
    requires
        old.len() == PALETTE_LEN,
    ensures
        palette_after(old, rgb).len() == PALETTE_LEN,
        rgb.len() >= PALETTE_LEN ==> palette_after(old, rgb) == rgb.take(PALETTE_LEN as int),
        rgb.len() < PALETTE_LEN ==> palette_after(old, rgb).skip(rgb.len() as int) == old.skip(
            rgb.len() as int,
        ),
{
    if rgb.len() >= PALETTE_LEN {
        assert(palette_after(old, rgb) =~= rgb.take(PALETTE_LEN as int));
    } else {
        assert(palette_after(old, rgb).skip(rgb.len() as int) =~= old.skip(rgb.len() as int));
    }
}

/// Writing colours over the palette sets each of its eight bytes that `rgb`
/// reaches to the `rgb` byte at the same place and leaves every later one as
/// it was.
pub proof fn palette_write_byte_by_byte(old: Seq<u8>, rgb: Seq<u8>)
    requires
        old.len() == PALETTE_LEN,
    ensures
        palette_after(old, rgb).len() == PALETTE_LEN,
        forall|i: int|
            0 <= i < PALETTE_LEN ==> #[trigger] palette_after(old, rgb)[i] == (if i < rgb.len() {
                rgb[i]
            } else {
                old[i]
            }),
{
}

/// A staged XML document always reads back: the bytes that `load_xml`
/// stages for `data` are valid UTF-8, and `staged_xml` decodes them to
/// `data` again.
pub proof fn staged_xml_reads_back(data: &str)
    ensures
        valid_utf8(data.spec_bytes()),
        decode_utf8(data.spec_bytes()) == data@,
{
    encode_utf8_valid_utf8(data@);
    encode_utf8_decode_utf8(data@);
}

} // verus!
