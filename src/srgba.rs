use vstd::prelude::*;

use crate::hex::{hex_byte, push_char, push_hex_byte};
use crate::srgb::sRGB;

verus! {

/// Gamma-encoded color with one byte per channel and a linear alpha byte.
#[allow(non_camel_case_types)]
#[derive(Copy, Clone, Debug, Default, PartialEq, Eq, Hash, Structural)]
pub struct sRGBA {
    pub red: u8,
    pub green: u8,
    pub blue: u8,
    pub alpha: u8,
}

/// Builds a color from its three channels and its alpha.
#[allow(non_snake_case)]
pub fn sRGBA(red: u8, green: u8, blue: u8, alpha: u8) -> (r: sRGBA)
    ensures
        r == (sRGBA { red, green, blue, alpha }),
{
    sRGBA { red, green, blue, alpha }
}

impl sRGBA {
    /// Fully transparent black.
    #[allow(non_snake_case)]
    pub fn TRANSPARENT() -> (r: sRGBA)
        ensures
            r == (sRGBA { red: 0, green: 0, blue: 0, alpha: 0 }),
    {
        sRGBA { red: 0, green: 0, blue: 0, alpha: 0 }
    }

    /// The packed form `0xAABBGGRR`: red in the low byte, alpha in the high one.
    pub open spec fn packed(self) -> int {
        self.red as int + self.green as int * 0x100 + self.blue as int * 0x1_0000
            + self.alpha as int * 0x100_0000
    }

    /// The color whose channels are the four bytes of `v`, red lowest.
    pub open spec fn unpacked(v: int) -> sRGBA {
        sRGBA {
            red: (v % 0x100) as u8,
            green: ((v / 0x100) % 0x100) as u8,
            blue: ((v / 0x1_0000) % 0x100) as u8,
            alpha: ((v / 0x100_0000) % 0x100) as u8,
        }
    }

    /// Drops the alpha channel.
    pub fn rgb(self) -> (r: sRGB)
        ensures
            r == (sRGB { red: self.red, green: self.green, blue: self.blue }),
    {
        sRGB { red: self.red, green: self.green, blue: self.blue }
    }

    /// Packs the color into a `u32` as `0xAABBGGRR`.
    pub fn pack(self) -> (r: u32)
        ensures
            r as int == self.packed(),
    {
        let (red, green, blue, alpha) = (
            self.red as u32,
            self.green as u32,
            self.blue as u32,
            self.alpha as u32,
        );
        let r = red | green << 8u32 | blue << 16u32 | alpha << 24u32;
        assert(r == red + green * 0x100 + blue * 0x1_0000 + alpha * 0x100_0000) by (bit_vector)
            requires
                red < 0x100,
                green < 0x100,
                blue < 0x100,
                alpha < 0x100,
                r == red | green << 8u32 | blue << 16u32 | alpha << 24u32,
        ;
        r
    }

    /// Unpacks a `0xAABBGGRR` value.
    pub fn unpack(value: u32) -> (r: sRGBA)
        ensures
            r == sRGBA::unpacked(value as int),
    {
        let alpha = ((value >> 24u32) & 0xff) as u8;
        let blue = ((value >> 16u32) & 0xff) as u8;
        let green = ((value >> 8u32) & 0xff) as u8;
        let red = (value & 0xff) as u8;
        assert(value & 0xff == value % 0x100 && (value >> 8u32) & 0xff == (value / 0x100) % 0x100
            && (value >> 16u32) & 0xff == (value / 0x1_0000) % 0x100 && (value >> 24u32) & 0xff
            == (value / 0x100_0000) % 0x100) by (bit_vector);
        sRGBA { red, green, blue, alpha }
    }

    /// Renders the color as `#aarrggbb`, in lower case.
    pub fn to_string(self) -> (r: String)
        ensures
            r@ == seq!['#'] + hex_byte(self.alpha, false) + hex_byte(self.red, false) + hex_byte(
                self.green,
                false,
            ) + hex_byte(self.blue, false),
    {
        let mut s = String::new();
        push_char(&mut s, '#');
        push_hex_byte(&mut s, self.alpha, false);
        push_hex_byte(&mut s, self.red, false);
        push_hex_byte(&mut s, self.green, false);
        push_hex_byte(&mut s, self.blue, false);
        assert(s@ =~= seq!['#'] + hex_byte(self.alpha, false) + hex_byte(self.red, false)
            + hex_byte(self.green, false) + hex_byte(self.blue, false));
        s
    }

    /// Renders the packed form as `0xaabbggrr`, with digits in upper or lower case.
    pub fn to_hex(self, upper: bool) -> (r: String)
        ensures
            r@ == seq!['0', 'x'] + hex_byte(self.alpha, upper) + hex_byte(self.blue, upper)
                + hex_byte(self.green, upper) + hex_byte(self.red, upper),
    {
        let mut s = String::new();
        push_char(&mut s, '0');
        push_char(&mut s, 'x');
        push_hex_byte(&mut s, self.alpha, upper);
        push_hex_byte(&mut s, self.blue, upper);
        push_hex_byte(&mut s, self.green, upper);
        push_hex_byte(&mut s, self.red, upper);
        assert(s@ =~= seq!['0', 'x'] + hex_byte(self.alpha, upper) + hex_byte(self.blue, upper)
            + hex_byte(self.green, upper) + hex_byte(self.red, upper));
        s
    }

    /// The channels in memory order: red, green, blue, alpha.
    pub fn to_array(self) -> (r: [u8; 4])
        ensures
            r@ == seq![self.red, self.green, self.blue, self.alpha],
    {
        [self.red, self.green, self.blue, self.alpha]
    }

    /// The color whose channels are red, green, blue and alpha in this order.
    pub fn from_array(a: [u8; 4]) -> (r: sRGBA)
        ensures
            r == (sRGBA { red: a@[0], green: a@[1], blue: a@[2], alpha: a@[3] }),
    {
        sRGBA { red: a[0], green: a[1], blue: a[2], alpha: a[3] }
    }
}

/// Unpacking the packed form of a color gives back that color.
pub proof fn srgba_unpack_pack(c: sRGBA)
    ensures
        sRGBA::unpacked(c.packed()) == c,
{
    let (r, g, b, a) = (c.red as u32, c.green as u32, c.blue as u32, c.alpha as u32);
    let v: u32 = (r + g * 0x100 + b * 0x1_0000 + a * 0x100_0000) as u32;
    assert(v == r + g * 0x100 + b * 0x1_0000 + a * 0x100_0000 && v % 0x100 == r && (v / 0x100)
        % 0x100 == g && (v / 0x1_0000) % 0x100 == b && (v / 0x100_0000) % 0x100 == a)
        by (bit_vector)
        requires
            r < 0x100,
            g < 0x100,
            b < 0x100,
            a < 0x100,
            v == (r + g * 0x100 + b * 0x1_0000 + a * 0x100_0000) as u32,
    ;
}

/// Packing the unpacked form of any 32-bit value gives back that value.
pub proof fn srgba_pack_unpack(v: u32)
    ensures
        sRGBA::unpacked(v as int).packed() == v,
{
    assert(v % 0x100 + (v / 0x100) % 0x100 * 0x100 + (v / 0x1_0000) % 0x100 * 0x1_0000 + (v
        / 0x100_0000) % 0x100 * 0x100_0000 == v) by (bit_vector);
}

impl From<sRGB> for sRGBA {
    /// Makes the color opaque.
    fn from(v: sRGB) -> (r: sRGBA) {
        v.alpha(255)
    }
}

impl vstd::std_specs::convert::FromSpecImpl<sRGB> for sRGBA {
    open spec fn obeys_from_spec() -> bool {
        true
    }

    open spec fn from_spec(v: sRGB) -> sRGBA {
        sRGBA { red: v.red, green: v.green, blue: v.blue, alpha: 255 }
    }
}

impl From<(sRGB, u8)> for sRGBA {
    /// Attaches the given alpha.
    fn from(v: (sRGB, u8)) -> (r: sRGBA) {
        v.0.alpha(v.1)
    }
}

impl vstd::std_specs::convert::FromSpecImpl<(sRGB, u8)> for sRGBA {
    open spec fn obeys_from_spec() -> bool {
        true
    }

    open spec fn from_spec(v: (sRGB, u8)) -> sRGBA {
        sRGBA { red: v.0.red, green: v.0.green, blue: v.0.blue, alpha: v.1 }
    }
}

impl From<[u8; 3]> for sRGBA {
    /// Reads red, green and blue in this order and makes the color opaque.
    fn from(v: [u8; 3]) -> (r: sRGBA) {
        sRGBA { red: v[0], green: v[1], blue: v[2], alpha: 255 }
    }
}

impl vstd::std_specs::convert::FromSpecImpl<[u8; 3]> for sRGBA {
    open spec fn obeys_from_spec() -> bool {
        true
    }

    open spec fn from_spec(v: [u8; 3]) -> sRGBA {
        sRGBA { red: v@[0], green: v@[1], blue: v@[2], alpha: 255 }
    }
}

impl From<([u8; 3], u8)> for sRGBA {
    /// Reads red, green and blue in this order and attaches the given alpha.
    fn from(v: ([u8; 3], u8)) -> (r: sRGBA) {
        sRGBA { red: v.0[0], green: v.0[1], blue: v.0[2], alpha: v.1 }
    }
}

impl vstd::std_specs::convert::FromSpecImpl<([u8; 3], u8)> for sRGBA {
    open spec fn obeys_from_spec() -> bool {
        true
    }

    open spec fn from_spec(v: ([u8; 3], u8)) -> sRGBA {
        sRGBA { red: v.0@[0], green: v.0@[1], blue: v.0@[2], alpha: v.1 }
    }
}

impl From<u32> for sRGBA {
    /// Unpacks a `0xAABBGGRR` value.
    fn from(v: u32) -> (r: sRGBA) {
        sRGBA::unpack(v)
    }
}

impl vstd::std_specs::convert::FromSpecImpl<u32> for sRGBA {
    open spec fn obeys_from_spec() -> bool {
        true
    }

    open spec fn from_spec(v: u32) -> sRGBA {
        sRGBA::unpacked(v as int)
    }
}

impl From<sRGBA> for u32 {
    /// Packs the color as `0xAABBGGRR`.
    fn from(v: sRGBA) -> (r: u32) {
        v.pack()
    }
}

impl vstd::std_specs::convert::FromSpecImpl<sRGBA> for u32 {
    open spec fn obeys_from_spec() -> bool {
        true
    }

    open spec fn from_spec(v: sRGBA) -> u32 {
        v.packed() as u32
    }
}

impl From<[u8; 4]> for sRGBA {
    /// Reads red, green, blue and alpha in this order.
    fn from(v: [u8; 4]) -> (r: sRGBA) {
        sRGBA::from_array(v)
    }
}

impl vstd::std_specs::convert::FromSpecImpl<[u8; 4]> for sRGBA {
    open spec fn obeys_from_spec() -> bool {
        true
    }

    open spec fn from_spec(v: [u8; 4]) -> sRGBA {
        sRGBA { red: v@[0], green: v@[1], blue: v@[2], alpha: v@[3] }
    }
}

impl From<sRGBA> for [u8; 4] {
    /// Lists red, green, blue and alpha in this order.
    fn from(v: sRGBA) -> (r: [u8; 4]) {
        v.to_array()
    }
}

impl vstd::std_specs::convert::FromSpecImpl<sRGBA> for [u8; 4] {
    open spec fn obeys_from_spec() -> bool {
        true
    }

    open spec fn from_spec(v: sRGBA) -> [u8; 4] {
        [v.red, v.green, v.blue, v.alpha]
    }
}

} // verus!
