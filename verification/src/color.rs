//! RGB565 colours and the display's colour theme.

use embedded_graphics::pixelcolor::IntoStorage;
use embedded_graphics::pixelcolor::Rgb565;
use vstd::prelude::*;

verus! {

/// The 16-bit storage word of an RGB565 colour: five bits of red, six bits of
/// green and five bits of blue, red in the high bits. Channel values that are
/// too large lose their unused high bits.
pub open spec fn rgb565_bits(r: u8, g: u8, b: u8) -> u16 {
    ((r % 32) as int * 2048 + (g % 64) as int * 32 + (b % 32) as int) as u16
}

/// Builds a colour with `embedded_graphics::pixelcolor::Rgb565::new` and
/// returns its storage word (`IntoStorage::into_storage`).
///
/// Trusted: `Rgb565::new` masks each channel to its width (`r & 0x1f`,
/// `g & 0x3f`, `b & 0x1f`) and shifts red by 11 and green by 5 bits; the
/// storage word is that packed value, which `rgb565_bits` states arithmetically.
#[verifier::external_body]
pub(crate) fn rgb565_storage(r: u8, g: u8, b: u8) -> (raw: u16)
    ensures
        raw == rgb565_bits(r, g, b),
{
    Rgb565::new(r, g, b).into_storage()
}

/// The colour theme of the display, each colour as its RGB565 storage word.
#[derive(Clone, Copy, Debug, PartialEq, Eq, Structural)]
pub struct Theme {
    pub red: u16,
    pub green: u16,
    pub yellow: u16,
    pub blue: u16,
    pub magenta: u16,
    pub cyan: u16,
}

impl Theme {
    /// The default theme: red `#d50458`, green `#00f3d7`, yellow `#fefdc2`,
    /// blue `#a5d5fe`, magenta `#690759`, cyan `#02c3fc`, each 8-bit channel
    /// reduced to the channel width of RGB565.
    pub open spec fn spec_default() -> Theme {
        Theme {
            red: rgb565_bits(0xd5u8 / 8u8, 0x04u8 / 4u8, 0x58u8 / 8u8),
            green: rgb565_bits(0x00u8 / 8u8, 0xf3u8 / 4u8, 0xd7u8 / 8u8),
            yellow: rgb565_bits(0xfeu8 / 8u8, 0xfdu8 / 4u8, 0xc2u8 / 8u8),
            blue: rgb565_bits(0xa5u8 / 8u8, 0xd5u8 / 4u8, 0xfeu8 / 8u8),
            magenta: rgb565_bits(0x69u8 / 8u8, 0x07u8 / 4u8, 0x59u8 / 8u8),
            cyan: rgb565_bits(0x02u8 / 8u8, 0xc3u8 / 4u8, 0xfcu8 / 8u8),
        }
    }
}

impl Default for Theme {
    fn default() -> (theme: Self)
        ensures
            theme == Theme::spec_default(),
    {
        Theme {
            red: rgb565_storage(0xd5 / 8, 0x04 / 4, 0x58 / 8),
            green: rgb565_storage(0x00 / 8, 0xf3 / 4, 0xd7 / 8),
            yellow: rgb565_storage(0xfe / 8, 0xfd / 4, 0xc2 / 8),
            blue: rgb565_storage(0xa5 / 8, 0xd5 / 4, 0xfe / 8),
            magenta: rgb565_storage(0x69 / 8, 0x07 / 4, 0x59 / 8),
            cyan: rgb565_storage(0x02 / 8, 0xc3 / 4, 0xfc / 8),
        }
    }
}

/// Black, the fill colour of the buttons and the background of the query.
pub open spec fn spec_black() -> u16 {
    rgb565_bits(0u8, 0u8, 0u8)
}

} // verus!
