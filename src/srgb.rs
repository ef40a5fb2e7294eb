use vstd::prelude::*;

use crate::hex::{hex_byte, push_char, push_hex_byte};
use crate::srgba::sRGBA;

verus! {

/// Gamma-encoded color with one byte per channel.
#[allow(non_camel_case_types)]
#[derive(Copy, Clone, Debug, Default, PartialEq, Eq, Hash, Structural)]
pub struct sRGB {
    pub red: u8,
    pub green: u8,
    pub blue: u8,
}

/// Fixed-point weight of red in the luminance: 299/1000 scaled by 2^32, truncated.
pub const LUMA_RED: u64 = 1284195221;

/// Fixed-point weight of green in the luminance: 587/1000 scaled by 2^32, truncated.
pub const LUMA_GREEN: u64 = 2521145802;

/// Fixed-point weight of blue in the luminance: 114/1000 scaled by 2^32, truncated.
pub const LUMA_BLUE: u64 = 489626271;

/// One channel's share of the luminance: `c * weight / 2^32`, rounded down.
pub open spec fn luma_term(c: u8, weight: u64) -> int {
    (c as int * weight as int) / 0x1_0000_0000
}

/// Builds a color from its three channels.
#[allow(non_snake_case)]
pub fn sRGB(red: u8, green: u8, blue: u8) -> (r: sRGB)
    ensures
        r == (sRGB { red, green, blue }),
{
    sRGB { red, green, blue }
}

impl sRGB {
    /// The packed form `0x00BBGGRR`: red in the low byte, blue in the third.
    pub open spec fn packed(self) -> int {
        self.red as int + self.green as int * 0x100 + self.blue as int * 0x1_0000
    }

    /// The color whose channels are the three low bytes of `v`, red lowest.
    pub open spec fn unpacked(v: int) -> sRGB {
        sRGB {
            red: (v % 0x100) as u8,
            green: ((v / 0x100) % 0x100) as u8,
            blue: ((v / 0x1_0000) % 0x100) as u8,
        }
    }

    /// Luminance with the weights 299, 587 and 114 thousandths, each share
    /// computed in fixed point and truncated before the sum.
    pub open spec fn luma(self) -> int {
        luma_term(self.red, LUMA_RED) + luma_term(self.green, LUMA_GREEN) + luma_term(
            self.blue,
            LUMA_BLUE,
        )
    }

    /// Assigns all components the same value.
    pub fn splat(value: u8) -> (r: sRGB)
        ensures
            r == (sRGB { red: value, green: value, blue: value }),
    {
        sRGB { red: value, green: value, blue: value }
    }

    /// Sets the red component.
    pub fn red(self, red: u8) -> (r: sRGB)
        ensures
            r == (sRGB { red, ..self }),
    {
        sRGB { red, green: self.green, blue: self.blue }
    }

    /// Sets the green component.
    pub fn green(self, green: u8) -> (r: sRGB)
        ensures
            r == (sRGB { green, ..self }),
    {
        sRGB { red: self.red, green, blue: self.blue }
    }

    /// Sets the blue component.
    pub fn blue(self, blue: u8) -> (r: sRGB)
        ensures
            r == (sRGB { blue, ..self }),
    {
        sRGB { red: self.red, green: self.green, blue }
    }

    /// Adds an alpha channel.
    pub fn alpha(self, alpha: u8) -> (r: sRGBA)
        ensures
            r == (sRGBA { red: self.red, green: self.green, blue: self.blue, alpha }),
    {
        sRGBA { red: self.red, green: self.green, blue: self.blue, alpha }
    }

    /// Packs the color into a `u32` as `0x00BBGGRR`.
    pub fn pack(self) -> (r: u32)
        ensures
            r as int == self.packed(),
            r < 0x100_0000,
    {
        let (red, green, blue) = (self.red as u32, self.green as u32, self.blue as u32);
        let r = red | green << 8u32 | blue << 16u32;
        assert(r == red + green * 0x100 + blue * 0x1_0000 && r < 0x100_0000) by (bit_vector)
            requires
                red < 0x100,
                green < 0x100,
                blue < 0x100,
                r == red | green << 8u32 | blue << 16u32,
        ;
        r
    }

    /// Unpacks a `0x00BBGGRR` value; the high byte is ignored.
    pub fn unpack(value: u32) -> (r: sRGB)
        ensures
            r == sRGB::unpacked(value as int),
    {
        let red = (value & 0xff) as u8;
        let green = ((value >> 8u32) & 0xff) as u8;
        let blue = ((value >> 16u32) & 0xff) as u8;
        assert(value & 0xff == value % 0x100 && (value >> 8u32) & 0xff == (value / 0x100) % 0x100
            && (value >> 16u32) & 0xff == (value / 0x1_0000) % 0x100) by (bit_vector);
        sRGB { red, green, blue }
    }

    /// Luminance computed in fixed point, identical on every platform.
    pub fn luminance(self) -> (r: u8)
        ensures
            r as int == self.luma(),
    {
        let red = luma_share(self.red, LUMA_RED);
        let green = luma_share(self.green, LUMA_GREEN);
        let blue = luma_share(self.blue, LUMA_BLUE);
        assert(red <= 76 && green <= 149 && blue <= 29) by (nonlinear_arith)
            requires
                red as int == (self.red as int * LUMA_RED as int) / 0x1_0000_0000,
                green as int == (self.green as int * LUMA_GREEN as int) / 0x1_0000_0000,
                blue as int == (self.blue as int * LUMA_BLUE as int) / 0x1_0000_0000,
                self.red <= 255,
                self.green <= 255,
                self.blue <= 255,
        ;
        red + green + blue
    }

    /// The grey of the same luminance.
    pub fn grey(self) -> (r: sRGB)
        ensures
            r == sRGB::splat_spec(self.luma() as u8),
    {
        let y = self.luminance();
        sRGB { red: y, green: y, blue: y }
    }

    /// The channels in memory order: red, green, blue.
    pub fn to_array(self) -> (r: [u8; 3])
        ensures
            r@ == seq![self.red, self.green, self.blue],
    {
        [self.red, self.green, self.blue]
    }

    /// The color whose channels are red, green and blue in this order.
    pub fn from_array(a: [u8; 3]) -> (r: sRGB)
        ensures
            r == (sRGB { red: a@[0], green: a@[1], blue: a@[2] }),
    {
        sRGB { red: a[0], green: a[1], blue: a[2] }
    }

    /// Renders the color as `#rrggbb`, in lower case.
    pub fn to_string(self) -> (r: String)
        ensures
            r@ == seq!['#'] + hex_byte(self.red, false) + hex_byte(self.green, false) + hex_byte(
                self.blue,
                false,
            ),
    {
        let mut s = String::new();
        push_char(&mut s, '#');
        push_hex_byte(&mut s, self.red, false);
        push_hex_byte(&mut s, self.green, false);
        push_hex_byte(&mut s, self.blue, false);
        assert(s@ =~= seq!['#'] + hex_byte(self.red, false) + hex_byte(self.green, false)
            + hex_byte(self.blue, false));
        s
    }

    /// Renders the packed form as `0xbbggrr`, with digits in upper or lower case.
    pub fn to_hex(self, upper: bool) -> (r: String)
        ensures
            r@ == seq!['0', 'x'] + hex_byte(self.blue, upper) + hex_byte(self.green, upper)
                + hex_byte(self.red, upper),
    {
        let mut s = String::new();
        push_char(&mut s, '0');
        push_char(&mut s, 'x');
        push_hex_byte(&mut s, self.blue, upper);
        push_hex_byte(&mut s, self.green, upper);
        push_hex_byte(&mut s, self.red, upper);
        assert(s@ =~= seq!['0', 'x'] + hex_byte(self.blue, upper) + hex_byte(self.green, upper)
            + hex_byte(self.red, upper));
        s
    }

    /// The color with every channel `v`.
    pub open spec fn splat_spec(v: u8) -> sRGB {
        sRGB { red: v, green: v, blue: v }
    }

    /// Channel-wise minimum.
    pub fn min(self, other: sRGB) -> (r: sRGB)
        ensures
            r.red == min_u8(self.red, other.red),
            r.green == min_u8(self.green, other.green),
            r.blue == min_u8(self.blue, other.blue),
    {
        sRGB {
            red: if self.red <= other.red { self.red } else { other.red },
            green: if self.green <= other.green { self.green } else { other.green },
            blue: if self.blue <= other.blue { self.blue } else { other.blue },
        }
    }

    /// Channel-wise maximum.
    pub fn max(self, other: sRGB) -> (r: sRGB)
        ensures
            r.red == max_u8(self.red, other.red),
            r.green == max_u8(self.green, other.green),
            r.blue == max_u8(self.blue, other.blue),
    {
        sRGB {
            red: if self.red >= other.red { self.red } else { other.red },
            green: if self.green >= other.green { self.green } else { other.green },
            blue: if self.blue >= other.blue { self.blue } else { other.blue },
        }
    }
}

/// Named web colors.
#[allow(non_snake_case)]
impl sRGB {
    /// White: `#ffffff`.
    pub fn White() -> (r: sRGB)
        ensures
            r == (sRGB { red: 0xff, green: 0xff, blue: 0xff }),
    {
        sRGB { red: 0xff, green: 0xff, blue: 0xff }
    }

    /// Silver: `#c0c0c0`.
    pub fn Silver() -> (r: sRGB)
        ensures
            r == (sRGB { red: 0xc0, green: 0xc0, blue: 0xc0 }),
    {
        sRGB { red: 0xc0, green: 0xc0, blue: 0xc0 }
    }

    /// Gray: `#808080`.
    pub fn Gray() -> (r: sRGB)
        ensures
            r == (sRGB { red: 0x80, green: 0x80, blue: 0x80 }),
    {
        sRGB { red: 0x80, green: 0x80, blue: 0x80 }
    }

    /// Black: `#000000`.
    pub fn Black() -> (r: sRGB)
        ensures
            r == (sRGB { red: 0x00, green: 0x00, blue: 0x00 }),
    {
        sRGB { red: 0x00, green: 0x00, blue: 0x00 }
    }

    /// Red: `#ff0000`.
    pub fn Red() -> (r: sRGB)
        ensures
            r == (sRGB { red: 0xff, green: 0x00, blue: 0x00 }),
    {
        sRGB { red: 0xff, green: 0x00, blue: 0x00 }
    }

    /// Maroon: `#800000`.
    pub fn Maroon() -> (r: sRGB)
        ensures
            r == (sRGB { red: 0x80, green: 0x00, blue: 0x00 }),
    {
        sRGB { red: 0x80, green: 0x00, blue: 0x00 }
    }

    /// Yellow: `#ffff00`.
    pub fn Yellow() -> (r: sRGB)
        ensures
            r == (sRGB { red: 0xff, green: 0xff, blue: 0x00 }),
    {
        sRGB { red: 0xff, green: 0xff, blue: 0x00 }
    }

    /// Olive: `#808000`.
    pub fn Olive() -> (r: sRGB)
        ensures
            r == (sRGB { red: 0x80, green: 0x80, blue: 0x00 }),
    {
        sRGB { red: 0x80, green: 0x80, blue: 0x00 }
    }

    /// Lime: `#00ff00`.
    pub fn Lime() -> (r: sRGB)
        ensures
            r == (sRGB { red: 0x00, green: 0xff, blue: 0x00 }),
    {
        sRGB { red: 0x00, green: 0xff, blue: 0x00 }
    }

    /// Green: `#008000`.
    pub fn Green() -> (r: sRGB)
        ensures
            r == (sRGB { red: 0x00, green: 0x80, blue: 0x00 }),
    {
        sRGB { red: 0x00, green: 0x80, blue: 0x00 }
    }

    /// Aqua: `#00ffff`.
    pub fn Aqua() -> (r: sRGB)
        ensures
            r == (sRGB { red: 0x00, green: 0xff, blue: 0xff }),
    {
        sRGB { red: 0x00, green: 0xff, blue: 0xff }
    }

    /// Teal: `#008080`.
    pub fn Teal() -> (r: sRGB)
        ensures
            r == (sRGB { red: 0x00, green: 0x80, blue: 0x80 }),
    {
        sRGB { red: 0x00, green: 0x80, blue: 0x80 }
    }

    /// Blue: `#0000ff`.
    pub fn Blue() -> (r: sRGB)
        ensures
            r == (sRGB { red: 0x00, green: 0x00, blue: 0xff }),
    {
        sRGB { red: 0x00, green: 0x00, blue: 0xff }
    }

    /// Navy: `#000080`.
    pub fn Navy() -> (r: sRGB)
        ensures
            r == (sRGB { red: 0x00, green: 0x00, blue: 0x80 }),
    {
        sRGB { red: 0x00, green: 0x00, blue: 0x80 }
    }

    /// Fuchsia: `#ff00ff`.
    pub fn Fuchsia() -> (r: sRGB)
        ensures
            r == (sRGB { red: 0xff, green: 0x00, blue: 0xff }),
    {
        sRGB { red: 0xff, green: 0x00, blue: 0xff }
    }

    /// Purple: `#800080`.
    pub fn Purple() -> (r: sRGB)
        ensures
            r == (sRGB { red: 0x80, green: 0x00, blue: 0x80 }),
    {
        sRGB { red: 0x80, green: 0x00, blue: 0x80 }
    }
}

impl From<u32> for sRGB {
    /// Unpacks a `0x00BBGGRR` value.
    fn from(value: u32) -> (r: sRGB) {
        sRGB::unpack(value)
    }
}

impl vstd::std_specs::convert::FromSpecImpl<u32> for sRGB {
    open spec fn obeys_from_spec() -> bool {
        true
    }

    open spec fn from_spec(v: u32) -> sRGB {
        sRGB::unpacked(v as int)
    }
}

impl From<sRGB> for u32 {
    /// Packs the color as `0x00BBGGRR`.
    fn from(color: sRGB) -> (r: u32) {
        color.pack()
    }
}

impl vstd::std_specs::convert::FromSpecImpl<sRGB> for u32 {
    open spec fn obeys_from_spec() -> bool {
        true
    }

    open spec fn from_spec(v: sRGB) -> u32 {
        v.packed() as u32
    }
}

impl From<[u8; 3]> for sRGB {
    /// Reads the channels in the order red, green, blue.
    fn from(a: [u8; 3]) -> (r: sRGB) {
        sRGB::from_array(a)
    }
}

impl vstd::std_specs::convert::FromSpecImpl<[u8; 3]> for sRGB {
    open spec fn obeys_from_spec() -> bool {
        true
    }

    open spec fn from_spec(v: [u8; 3]) -> sRGB {
        sRGB { red: v@[0], green: v@[1], blue: v@[2] }
    }
}

impl From<sRGB> for [u8; 3] {
    /// Lists the channels in the order red, green, blue.
    fn from(color: sRGB) -> (r: [u8; 3]) {
        color.to_array()
    }
}

impl vstd::std_specs::convert::FromSpecImpl<sRGB> for [u8; 3] {
    open spec fn obeys_from_spec() -> bool {
        true
    }

    open spec fn from_spec(v: sRGB) -> [u8; 3] {
        [v.red, v.green, v.blue]
    }
}

/// Unpacking the packed form of a color gives back that color.
pub proof fn srgb_unpack_pack(c: sRGB)
    ensures
        sRGB::unpacked(c.packed()) == c,
{
    let (r, g, b) = (c.red as u32, c.green as u32, c.blue as u32);
    let v: u32 = (r + g * 0x100 + b * 0x1_0000) as u32;
    assert(v == r + g * 0x100 + b * 0x1_0000 && v % 0x100 == r && (v / 0x100) % 0x100 == g && (v
        / 0x1_0000) % 0x100 == b) by (bit_vector)
        requires
            r < 0x100,
            g < 0x100,
            b < 0x100,
            v == (r + g * 0x100 + b * 0x1_0000) as u32,
    ;
}

/// Packing the unpacked form of a value below `2^24` gives back that value.
pub proof fn srgb_pack_unpack(v: u32)
    requires
        v < 0x100_0000,
    ensures
        sRGB::unpacked(v as int).packed() == v,
{
    assert(v % 0x100 + (v / 0x100) % 0x100 * 0x100 + (v / 0x1_0000) % 0x100 * 0x1_0000 == v)
        by (bit_vector)
        requires
            v < 0x100_0000,
    ;
}

/// The smaller of two bytes.
pub open spec fn min_u8(a: u8, b: u8) -> u8 {
    if a <= b { a } else { b }
}

/// The larger of two bytes.
pub open spec fn max_u8(a: u8, b: u8) -> u8 {
    if a >= b { a } else { b }
}

/// One channel's luminance share: the 64-bit product shifted right by 32.
fn luma_share(c: u8, weight: u64) -> (r: u8)
    requires
        weight < 0x1_0000_0000,
    ensures
        r as int == luma_term(c, weight),
{
    assert((c as int) * (weight as int) < 0x100_0000_0000) by (nonlinear_arith)
        requires
            c < 256,
            weight < 0x1_0000_0000,
    ;
    let p = c as u64 * weight;
    let s = p >> 32u64;
    assert(s == p / 0x1_0000_0000) by (bit_vector)
        requires
            s == p >> 32u64,
    ;
    assert(p / 0x1_0000_0000 < 256) by (nonlinear_arith)
        requires
            p == c as int * weight as int,
            c < 256,
            weight < 0x1_0000_0000,
    ;
    s as u8
}

} // verus!
