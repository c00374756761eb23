use lightsync::codec::encode;
use lightsync::color::Rgb;

#[test]
fn encode_layout_and_checksum_exact() {
    let frame = encode(Rgb { red: 200, green: 50, blue: 10 });
    // 0x33 ^ 0x05 ^ 0x02 ^ 200 ^ 50 ^ 10 = 0xC4
    let expected: Vec<u8> = vec![
        0x33, 0x05, 0x02, 200, 50, 10, 0, 0, 0, 0, 0, 0, 0, 0, 0, 0, 0, 0, 0, 0xC4,
    ];
    assert_eq!(frame, expected);
}

#[test]
fn encode_last_byte_is_xor_fold_of_the_rest() {
    for c in [
        Rgb { red: 0, green: 0, blue: 0 },
        Rgb { red: 255, green: 255, blue: 255 },
        Rgb { red: 1, green: 2, blue: 3 },
        Rgb { red: 200, green: 50, blue: 10 },
        Rgb { red: 0x33, green: 0x05, blue: 0x02 },
    ] {
        let frame = encode(c);
        assert_eq!(frame.len(), 20);
        let fold = frame[..19].iter().fold(0u8, |acc, b| acc ^ b);
        assert_eq!(frame[19], fold);
    }
}

#[test]
fn encode_is_deterministic() {
    let c = Rgb { red: 17, green: 230, blue: 99 };
    assert_eq!(encode(c), encode(c));
}

#[test]
fn encode_black_frame() {
    let frame = encode(Rgb { red: 0, green: 0, blue: 0 });
    // 0x33 ^ 0x05 ^ 0x02 = 0x34
    let expected: Vec<u8> = vec![
        0x33, 0x05, 0x02, 0, 0, 0, 0, 0, 0, 0, 0, 0, 0, 0, 0, 0, 0, 0, 0, 0x34,
    ];
    assert_eq!(frame, expected);
}
