use colors::{sRGB, sRGBA};

#[test]
fn rgba_construct_and_drop_alpha() {
    let c = sRGBA(1, 2, 3, 4);
    assert_eq!((c.red, c.green, c.blue, c.alpha), (1, 2, 3, 4));
    assert_eq!(c.rgb(), sRGB(1, 2, 3));
    assert_eq!(sRGBA::TRANSPARENT(), sRGBA(0, 0, 0, 0));
}

#[test]
fn rgba_pack_layout() {
    assert_eq!(sRGBA(0x11, 0x22, 0x33, 0x44).pack(), 0x4433_2211);
    assert_eq!(sRGBA::unpack(0x4433_2211), sRGBA(0x11, 0x22, 0x33, 0x44));
}

#[test]
fn rgba_pack_round_trip() {
    for v in [0u32, 0xff, 0x8080_8080, 0xdead_beef, u32::MAX] {
        assert_eq!(sRGBA::unpack(v).pack(), v);
    }
    let c = sRGBA(9, 99, 199, 255);
    assert_eq!(sRGBA::unpack(c.pack()), c);
}

#[test]
fn rgba_conversions() {
    assert_eq!(sRGBA::from(sRGB(1, 2, 3)), sRGBA(1, 2, 3, 255));
    assert_eq!(sRGBA::from((sRGB(1, 2, 3), 7u8)), sRGBA(1, 2, 3, 7));
    assert_eq!(sRGBA::from([1u8, 2, 3]), sRGBA(1, 2, 3, 255));
    assert_eq!(sRGBA::from(([1u8, 2, 3], 7u8)), sRGBA(1, 2, 3, 7));
    assert_eq!(sRGBA::from([1u8, 2, 3, 4]), sRGBA(1, 2, 3, 4));
    assert_eq!(<[u8; 4]>::from(sRGBA(1, 2, 3, 4)), [1, 2, 3, 4]);
    assert_eq!(sRGBA::from(0x0403_0201u32), sRGBA(1, 2, 3, 4));
    assert_eq!(u32::from(sRGBA(1, 2, 3, 4)), 0x0403_0201);
    assert_eq!(sRGBA::from_array([5, 6, 7, 8]).to_array(), [5, 6, 7, 8]);
}

#[test]
fn rgba_text_forms() {
    assert_eq!(sRGBA(0x12, 0x34, 0x56, 0x78).to_string(), "#78123456");
    assert_eq!(sRGBA(0, 0, 0, 0).to_string(), "#00000000");
    assert_eq!(sRGBA(0x12, 0x34, 0x56, 0xab).to_hex(false), "0xab563412");
    assert_eq!(sRGBA(0x12, 0x34, 0x56, 0xab).to_hex(true), "0xAB563412");
}
