//! The bitmap drawn at start-up: parsed with `tinybmp`, placed on the display.

use embedded_graphics::pixelcolor::Rgb565;
use tinybmp::Bmp;
use tinybmp::ParseError;
use vstd::prelude::*;

use crate::drawing::Position;

verus! {

#[verifier::external_type_specification]
#[verifier::external_body]
pub struct ExRgb565(Rgb565);

#[verifier::external_type_specification]
#[verifier::external_body]
#[verifier::reject_recursive_types(C)]
pub struct ExBmp<'a, C>(Bmp<'a, C>);

/// Why a BMP file could not be read; one variant for each of
/// `tinybmp::ParseError`, with the same name and fields.
#[derive(Clone, Copy, Debug)]
pub enum BmpError {
    /// The image uses an unsupported bit depth.
    UnsupportedBpp(u16),
    /// Unexpected end of file.
    UnexpectedEndOfFile,
    /// The file does not start with `BM`.
    InvalidFileSignature([u8; 2]),
    /// Unsupported compression method.
    UnsupportedCompressionMethod(u32),
    /// Unsupported header length.
    UnsupportedHeaderLength(u32),
    /// Unsupported channel masks.
    UnsupportedChannelMasks,
    /// Invalid image dimensions.
    InvalidImageDimensions,
}

/// Little-endian 16-bit field of a file at byte `i`.
pub open spec fn u16_le(data: Seq<u8>, i: int) -> nat {
    (data[i] + 256 * data[i + 1]) as nat
}

/// Little-endian 32-bit field of a file at byte `i`.
pub open spec fn u32_le(data: Seq<u8>, i: int) -> nat {
    (data[i] + 256 * data[i + 1] + 65536 * data[i + 2] + 16777216 * data[i + 3]) as nat
}

/// Length of the DIB header (field at byte 14).
pub open spec fn dib_len(data: Seq<u8>) -> nat {
    u32_le(data, 14)
}

/// Bits per pixel (field at byte 28).
pub open spec fn bmp_bits(data: Seq<u8>) -> nat {
    u16_le(data, 28)
}

/// Image width (field at byte 18, read as unsigned).
pub open spec fn bmp_width(data: Seq<u8>) -> nat {
    u32_le(data, 18)
}

/// Number of colours used (field at byte 46).
pub open spec fn colors_used(data: Seq<u8>) -> nat {
    u32_le(data, 46)
}

/// The file header and the DIB header of `data` are accepted: the file
/// starts with `BM`, the DIB header has one of the supported lengths (40,
/// 56, 108 or 124 bytes) and lies within the file, the bit depth is 1, 4, 8,
/// 16, 24 or 32, the compression method is 0 or 3, the width (a signed
/// field) is positive and the height (field at byte 22) is not zero. Only
/// then does `tinybmp` go on to size the colour table and the rows.
pub open spec fn bmp_header_accepted(data: Seq<u8>) -> bool {
    &&& data.len() >= 18
    &&& data[0] == 0x42u8
    &&& data[1] == 0x4du8
    &&& (dib_len(data) == 40 || dib_len(data) == 56 || dib_len(data) == 108 || dib_len(data)
        == 124)
    &&& data.len() >= 14 + dib_len(data)
    &&& (bmp_bits(data) == 1 || bmp_bits(data) == 4 || bmp_bits(data) == 8 || bmp_bits(data) == 16
        || bmp_bits(data) == 24 || bmp_bits(data) == 32)
    &&& (u32_le(data, 30) == 0 || u32_le(data, 30) == 3)
    &&& 0 < bmp_width(data) < 0x8000_0000
    &&& u32_le(data, 22) != 0
}

/// Number of colour table entries: the colours used, or for a bit depth
/// below 16 without that field, one entry per pixel value.
pub open spec fn color_entries(data: Seq<u8>) -> nat {
    if colors_used(data) == 0 && bmp_bits(data) < 16 {
        if bmp_bits(data) == 1 {
            2
        } else if bmp_bits(data) == 4 {
            16
        } else {
            256
        }
    } else {
        colors_used(data)
    }
}

/// The sizes that `tinybmp` computes in `usize` while parsing fit in
/// `usize`. Once the headers are accepted it computes the colour table
/// length, 4 bytes per entry; once the colour table is also within the file
/// it computes a row length in bits plus 31, the width times the bits per
/// pixel. On a 64-bit target these always fit; on a 32-bit target a crafted
/// header can overflow them. (When the bit depth is 16 or 32 with channel
/// masks, `tinybmp` may still refuse the masks before computing the row
/// length; the condition asks the row length to fit there too.)
pub open spec fn bmp_sizes_fit(data: Seq<u8>) -> bool {
    bmp_header_accepted(data) ==> {
        &&& 4 * color_entries(data) <= usize::MAX
        &&& 14 + dib_len(data) + 4 * color_entries(data) <= data.len() ==> bmp_width(data)
            * bmp_bits(data) + 31 <= usize::MAX
    }
}

/// What `tinybmp` makes of the bytes `data` read as an image of RGB565
/// pixels on a target whose `usize` has `usize_bits` bits: the parsed image,
/// or why the file could not be read.
pub uninterp spec fn bmp_parse(data: Seq<u8>, usize_bits: u32) -> Result<
    Bmp<'static, Rgb565>,
    BmpError,
>;

/// Parses `data` with `tinybmp::Bmp::from_slice` as an image of RGB565
/// pixels, and turns a parse error into the `BmpError` of the same name.
///
/// Trusted: the result depends on the bytes and on the width of `usize`
/// alone (`from_slice` reads the header, computes sizes in `usize` and keeps
/// a reference to the image data, allocating nothing); it is named
/// `bmp_parse`. The parser computes the
/// colour table length (`colors_used as usize * 4`) and the row length
/// (`width as usize * bits + 31`) in `usize`, which overflows, and panics in
/// a debug build, on a 32-bit target when `bmp_sizes_fit` fails.
#[verifier::external_body]
fn bmp_from_slice(data: &[u8]) -> (parsed: Result<Bmp<Rgb565>, BmpError>)
    requires
        bmp_sizes_fit(data@),
    ensures
        parsed == bmp_parse(data@, usize::BITS),
{
    match Bmp::<Rgb565>::from_slice(data) {
        Ok(bmp) => Ok(bmp),
        Err(ParseError::UnsupportedBpp(bpp)) => Err(BmpError::UnsupportedBpp(bpp)),
        Err(ParseError::UnexpectedEndOfFile) => Err(BmpError::UnexpectedEndOfFile),
        Err(ParseError::InvalidFileSignature(s)) => Err(BmpError::InvalidFileSignature(s)),
        Err(ParseError::UnsupportedCompressionMethod(m)) => Err(BmpError::UnsupportedCompressionMethod(m)),
        Err(ParseError::UnsupportedHeaderLength(l)) => Err(BmpError::UnsupportedHeaderLength(l)),
        Err(ParseError::UnsupportedChannelMasks) => Err(BmpError::UnsupportedChannelMasks),
        Err(ParseError::InvalidImageDimensions) => Err(BmpError::InvalidImageDimensions),
    }
}

/// Little-endian 16-bit field of `data` at byte `i`.
fn read_u16(data: &[u8], i: usize) -> (v: u128)
    requires
        i + 2 <= data@.len(),
    ensures
        v == u16_le(data@, i as int),
{
    data[i] as u128 + 256 * data[i + 1] as u128
}

/// Little-endian 32-bit field of `data` at byte `i`.
fn read_u32(data: &[u8], i: usize) -> (v: u128)
    requires
        i + 4 <= data@.len(),
    ensures
        v == u32_le(data@, i as int),
{
    data[i] as u128 + 256 * data[i + 1] as u128 + 65536 * data[i + 2] as u128 + 16777216
        * data[i + 3] as u128
}

/// Whether the header sizes of `data` fit in `usize`, so that `crab_image`
/// can parse it.
pub fn bmp_sizes_fit_check(data: &[u8]) -> (ok: bool)
    ensures
        ok == bmp_sizes_fit(data@),
{
    let len = data.len();
    if len < 18 || data[0] != 0x42 || data[1] != 0x4d {
        return true;
    }
    let dib = read_u32(data, 14);
    if !(dib == 40 || dib == 56 || dib == 108 || dib == 124) || (len as u128) < 14 + dib {
        return true;
    }
    // The DIB header lies within the file, so all its fields can be read.
    let bits = read_u16(data, 28);
    let compression = read_u32(data, 30);
    let width = read_u32(data, 18);
    let height = read_u32(data, 22);
    if !(bits == 1 || bits == 4 || bits == 8 || bits == 16 || bits == 24 || bits == 32) || !(
    compression == 0 || compression == 3) || !(0 < width && width < 0x8000_0000) || height == 0 {
        return true;
    }
    let used = read_u32(data, 46);
    let entries: u128 = if used == 0 && bits < 16 {
        if bits == 1 {
            2
        } else if bits == 4 {
            16
        } else {
            256
        }
    } else {
        used
    };
    let max = usize::MAX as u128;
    if 4 * entries > max {
        return false;
    }
    if 14 + dib + 4 * entries <= len as u128 {
        proof {
            assert(width * bits <= 0x8000_0000 * 32) by (nonlinear_arith)
                requires
                    width < 0x8000_0000,
                    bits <= 32,
            ;
        }
        width * bits + 31 <= max
    } else {
        true
    }
}

/// A parsed image and where its top left corner goes.
pub struct PlacedImage<'a> {
    pub image: Bmp<'a, Rgb565>,
    pub top_left: Position,
}

/// Where the start-up image is drawn.
pub open spec fn crab_position() -> Position {
    Position { x: 24, y: 0 }
}

/// The start-up image: the image parsed from the BMP file `data`, placed with
/// its top left corner at (24, 0), or why the file could not be read.
pub fn crab_image<'a>(data: &'a [u8]) -> (placed: Result<PlacedImage<'a>, BmpError>)
    requires
        bmp_sizes_fit(data@),
    ensures
        placed is Ok <==> bmp_parse(data@, usize::BITS) is Ok,
        placed matches Ok(p) ==> p.image == bmp_parse(data@, usize::BITS)->Ok_0 && p.top_left == crab_position(),
        placed matches Err(e) ==> bmp_parse(data@, usize::BITS)->Err_0 == e,
{
    match bmp_from_slice(data) {
        Ok(image) => Ok(PlacedImage { image, top_left: Position { x: 24, y: 0 } }),
        Err(e) => Err(e),
    }
}

} // verus!
