use mipidsi_async::color::{
    decode_rgb565, decode_rgb666, encode_rgb565, encode_rgb666, Rgb565Color, Rgb666Color,
};

#[test]
fn rgb565_encoding_packs_5_6_5_big_endian() {
    assert_eq!(encode_rgb565(&Rgb565Color::new(31, 0, 0)), vec![0xF8, 0x00]);
    assert_eq!(encode_rgb565(&Rgb565Color::new(0, 63, 0)), vec![0x07, 0xE0]);
    assert_eq!(encode_rgb565(&Rgb565Color::new(0, 0, 31)), vec![0x00, 0x1F]);
    assert_eq!(encode_rgb565(&Rgb565Color::new(31, 63, 31)), vec![0xFF, 0xFF]);
    assert_eq!(encode_rgb565(&Rgb565Color::new(0, 0, 0)), vec![0x00, 0x00]);
    assert_eq!(encode_rgb565(&Rgb565Color::new(16, 32, 8)), vec![0x84, 0x08]);
}

#[test]
fn rgb565_round_trips_for_every_representable_color() {
    for r in 0..32u8 {
        for g in 0..64u8 {
            for b in 0..32u8 {
                let c = Rgb565Color::new(r, g, b);
                let bytes = encode_rgb565(&c);
                assert_eq!(bytes.len(), 2);
                assert_eq!(decode_rgb565(bytes[0], bytes[1]), c);
            }
        }
    }
}

#[test]
fn rgb666_encoding_left_aligns_each_channel() {
    assert_eq!(encode_rgb666(&Rgb666Color::new(63, 0, 0)), vec![0xFC, 0x00, 0x00]);
    assert_eq!(encode_rgb666(&Rgb666Color::new(0, 63, 0)), vec![0x00, 0xFC, 0x00]);
    assert_eq!(encode_rgb666(&Rgb666Color::new(0, 0, 63)), vec![0x00, 0x00, 0xFC]);
    assert_eq!(encode_rgb666(&Rgb666Color::new(1, 2, 3)), vec![0x04, 0x08, 0x0C]);
}

#[test]
fn rgb666_round_trips_with_low_bits_clear() {
    for r in 0..64u8 {
        for g in 0..64u8 {
            for b in 0..64u8 {
                let c = Rgb666Color::new(r, g, b);
                let bytes = encode_rgb666(&c);
                assert_eq!(bytes.len(), 3);
                for byte in &bytes {
                    assert_eq!(byte & 0x03, 0);
                }
                assert_eq!(decode_rgb666(bytes[0], bytes[1], bytes[2]), c);
            }
        }
    }
}
