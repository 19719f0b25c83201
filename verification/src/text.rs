//! Text that the front-end hands back to the page: UTF-8 decoding of the
//! engine's byte output, and the framed text picture of the frame buffer.

use vstd::prelude::*;
use vstd::string::*;
use vstd::utf8::*;

verus! {

/// `core::str::from_utf8`: the bytes seen as a string slice where they are
/// valid UTF-8, and nothing (the error, dropped) where they are not.
#[verifier::external_body]
pub(crate) fn utf8_str(bytes: &[u8]) -> (text: Option<&str>)
    ensures
        text is Some <==> valid_utf8(bytes@),
        text matches Some(t) ==> t.spec_bytes() == bytes@,
{
    core::str::from_utf8(bytes).ok()
}

/// The text that `bytes` encode as UTF-8, or the empty text where they are
/// not valid UTF-8.
pub open spec fn text_or_empty_spec(bytes: Seq<u8>) -> Seq<char> {
    if valid_utf8(bytes) {
        decode_utf8(bytes)
    } else {
        Seq::empty()
    }
}

/// Valid UTF-8 bytes decode to the whole text that they encode: encoding the
/// text again gives back every one of the bytes.
pub proof fn text_encodes_back(bytes: Seq<u8>)
    requires
        valid_utf8(bytes),
    ensures
        encode_utf8(text_or_empty_spec(bytes)) == bytes,
{
    decode_utf8_encode_utf8(bytes);
}

/// Decodes `bytes` as UTF-8 text, falling back to the empty text.
pub fn text_or_empty(bytes: &[u8]) -> (text: String)
    ensures
        text@ == text_or_empty_spec(bytes@),
        valid_utf8(bytes@) ==> encode_utf8(text@) == bytes@,
        !valid_utf8(bytes@) ==> text@.len() == 0,
{
    match utf8_str(bytes) {
        Some(t) => {
            proof {
                encode_utf8_decode_utf8(t@);
            }
            t.to_owned()
        },
        None => String::new(),
    }
}

/// Whether the pixel at `row`, `col` of a `width`-wide image is set, as the
/// writer reads it: the byte is the one that holds the pixel's place
/// `row * width + col` in row order, the bit within it is picked by the
/// column alone (bit `7 - col % 8`), and a byte past the end reads as clear.
pub open spec fn picture_pixel(pixels: Seq<u8>, width: int, row: int, col: int) -> bool {
    let byte = (row * width + col) / 8;
    0 <= byte < pixels.len() && pixels[byte] & (1u8 << ((7 - col % 8) as u8)) != 0u8
}

/// The character for two stacked pixels: blank, upper half block, lower
/// half block or full block.
pub open spec fn block_char(upper: bool, lower: bool) -> char {
    if upper && lower {
        '\u{2588}'
    } else if upper {
        '\u{2580}'
    } else if lower {
        '\u{2584}'
    } else {
        ' '
    }
}

/// The picture line for image rows `row` and `row + 1` (the second one clear
/// where it lies past the bottom): a double vertical bar on each side of
/// one character per column, then a newline.
pub open spec fn picture_line(pixels: Seq<u8>, width: nat, height: nat, row: nat) -> Seq<char> {
    seq!['\u{2551}'] + Seq::new(
        width,
        |col: int|
            block_char(
                picture_pixel(pixels, width as int, row as int, col),
                row + 1 < height && picture_pixel(pixels, width as int, (row + 1) as int, col),
            ),
    ) + seq!['\u{2551}', '\n']
}

/// The picture lines for image rows `row`, `row + 2`, ... up to `height`.
pub open spec fn picture_lines(pixels: Seq<u8>, width: nat, height: nat, row: nat) -> Seq<char>
    decreases height + 2 - row,
{
    if row >= height {
        Seq::empty()
    } else {
        picture_line(pixels, width, height, row) + picture_lines(pixels, width, height, row + 2)
    }
}

/// The framed text picture of a `width` x `height` one-bit image: a top
/// border of double lines `width` wide, a line for each pair of image rows,
/// and a bottom border, each ended by a newline.
pub open spec fn framed_bitmap_text(width: usize, height: usize, pixels: Seq<u8>) -> Seq<char> {
    seq!['\u{2554}'] + Seq::new(width as nat, |i: int| '\u{2550}') + seq!['\u{2557}', '\n']
        + picture_lines(pixels, width as nat, height as nat, 0) + seq!['\u{255a}'] + Seq::new(
        width as nat,
        |i: int| '\u{2550}',
    ) + seq!['\u{255d}', '\n']
}

/// `bitmap_writer::Writer::write` of `bitmap_writer::Bitmap::new(width,
/// height, pixels)` into an empty `String`, with a writer that
/// `Writer::new` made and that was set to `Style::UnicodeBlock1x2`,
/// `Frame::UnicodeDoubleUFrame` and no ANSI cursor restore. The text is
/// claimed to be the picture that `framed_bitmap_text` spells out, as the
/// writer's `_write_bitmap` builds it for these settings (one column per
/// character, two rows per line, little-endian bits, rows not
/// byte-aligned). The writer computes byte offsets up to `width * height`,
/// which `requires` keeps inside `usize`.
#[verifier::external_body]
pub(crate) fn framed_bitmap(width: usize, height: usize, pixels: &[u8]) -> (text: String)
    requires
        width * height <= usize::MAX,
    ensures
        text@ == framed_bitmap_text(width, height, pixels@),
{
    let image = bitmap_writer::Bitmap::new(width, height, pixels);
    let mut text = String::new();
    bitmap_writer::Writer::new()
        .style(bitmap_writer::Style::UnicodeBlock1x2)
        .frame(bitmap_writer::Frame::UnicodeDoubleUFrame)
        .ansi_position_restore(false)
        .write(&mut text, &image);
    text
}

} // verus!
