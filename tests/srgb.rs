use colors::{sRGB, sRGBA};

#[test]
fn construct_and_set_channels() {
    let c = sRGB(1, 2, 3);
    assert_eq!((c.red, c.green, c.blue), (1, 2, 3));
    assert_eq!(c.red(9), sRGB(9, 2, 3));
    assert_eq!(c.green(9), sRGB(1, 9, 3));
    assert_eq!(c.blue(9), sRGB(1, 2, 9));
    assert_eq!(sRGB::splat(7), sRGB(7, 7, 7));
    assert_eq!(c.alpha(4), sRGBA(1, 2, 3, 4));
}

#[test]
fn grey_packs_to_808080() {
    assert_eq!(sRGB(128, 128, 128).pack(), 0x0080_8080);
}

#[test]
fn pack_puts_red_in_the_low_byte() {
    assert_eq!(sRGB(0x11, 0x22, 0x33).pack(), 0x0033_2211);
    assert_eq!(sRGB::unpack(0x0033_2211), sRGB(0x11, 0x22, 0x33));
    assert_eq!(sRGB::unpack(0xff33_2211), sRGB(0x11, 0x22, 0x33));
}

#[test]
fn pack_round_trip_low_values() {
    for i in 0u32..=255 {
        assert_eq!(sRGB::unpack(i).pack(), i);
        assert_eq!(sRGBA::unpack(i).pack(), i);
    }
}

#[test]
fn pack_round_trip_wide_values() {
    for v in [0u32, 1, 0x100, 0x1_0000, 0xab_cdef, 0xff_ffff] {
        assert_eq!(sRGB::unpack(v).pack(), v);
    }
    for r in (0u8..=255).step_by(17) {
        let c = sRGB(r, 255 - r, r / 3);
        assert_eq!(sRGB::unpack(c.pack()), c);
    }
}

#[test]
fn luminance_fixed_point() {
    assert_eq!(sRGB::Black().luminance(), 0);
    // 76 + 149 + 29: each share is truncated before the sum.
    assert_eq!(sRGB::White().luminance(), 254);
    assert_eq!(sRGB::Red().luminance(), 76);
    assert_eq!(sRGB::Lime().luminance(), 149);
    assert_eq!(sRGB::Blue().luminance(), 29);
    assert_eq!(sRGB(100, 100, 100).luminance(), 29 + 58 + 11);
}

#[test]
fn grey_uses_luminance() {
    let c = sRGB(10, 200, 30);
    let y = c.luminance();
    assert_eq!(c.grey(), sRGB::splat(y));
    assert_eq!(sRGB::Red().grey(), sRGB(76, 76, 76));
}

#[test]
fn channel_min_max() {
    let a = sRGB(10, 200, 30);
    let b = sRGB(20, 100, 30);
    assert_eq!(a.min(b), sRGB(10, 100, 30));
    assert_eq!(a.max(b), sRGB(20, 200, 30));
}

#[test]
fn conversions_with_integers_and_arrays() {
    assert_eq!(sRGB::from(0x0030_2010u32), sRGB(0x10, 0x20, 0x30));
    assert_eq!(u32::from(sRGB(0x10, 0x20, 0x30)), 0x0030_2010);
    assert_eq!(sRGB::from([1u8, 2, 3]), sRGB(1, 2, 3));
    assert_eq!(<[u8; 3]>::from(sRGB(1, 2, 3)), [1, 2, 3]);
    assert_eq!(sRGB(4, 5, 6).to_array(), [4, 5, 6]);
    assert_eq!(sRGB::from_array([4, 5, 6]), sRGB(4, 5, 6));
}

#[test]
fn named_colors() {
    assert_eq!(sRGB::White(), sRGB(0xff, 0xff, 0xff));
    assert_eq!(sRGB::Silver(), sRGB(0xc0, 0xc0, 0xc0));
    assert_eq!(sRGB::Gray(), sRGB(0x80, 0x80, 0x80));
    assert_eq!(sRGB::Maroon(), sRGB(0x80, 0, 0));
    assert_eq!(sRGB::Olive(), sRGB(0x80, 0x80, 0));
    assert_eq!(sRGB::Green(), sRGB(0, 0x80, 0));
    assert_eq!(sRGB::Aqua(), sRGB(0, 0xff, 0xff));
    assert_eq!(sRGB::Teal(), sRGB(0, 0x80, 0x80));
    assert_eq!(sRGB::Navy(), sRGB(0, 0, 0x80));
    assert_eq!(sRGB::Fuchsia(), sRGB(0xff, 0, 0xff));
    assert_eq!(sRGB::Purple(), sRGB(0x80, 0, 0x80));
    assert_eq!(sRGB::Yellow(), sRGB(0xff, 0xff, 0));
}

#[test]
fn text_forms() {
    assert_eq!(sRGB(0x12, 0xab, 0xff).to_string(), "#12abff");
    assert_eq!(sRGB(0, 0, 255).to_string(), "#0000ff");
    assert_eq!(sRGB(0x12, 0xab, 0xff).to_hex(false), "0xffab12");
    assert_eq!(sRGB(0x12, 0xab, 0xff).to_hex(true), "0xFFAB12");
    assert_eq!(sRGB::Black().to_hex(true), "0x000000");
}
