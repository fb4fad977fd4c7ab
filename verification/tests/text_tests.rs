use rust64_debug::text::{ascii, bin, hex};

#[test]
fn hex_upper_and_lower() {
    assert_eq!(hex(0xd03f, 4, false), b"d03f".to_vec());
    assert_eq!(hex(0xD03F, 4, true), b"D03F".to_vec());
    assert_eq!(hex(0xAB, 2, true), b"AB".to_vec());
    assert_eq!(hex(0x5, 2, true), b"05".to_vec());
    assert_eq!(hex(0, 4, false), b"0000".to_vec());
    assert_eq!(hex(0xFFFF, 4, true), b"FFFF".to_vec());
}

#[test]
fn hex_matches_std_formatting() {
    for v in [0u32, 1, 9, 10, 15, 16, 0x3ff, 0xbeef, 0xffff] {
        assert_eq!(hex(v, 4, false), format!("{:04x}", v).into_bytes());
        assert_eq!(hex(v, 4, true), format!("{:04X}", v).into_bytes());
    }
    for v in 0u32..256 {
        assert_eq!(hex(v, 2, true), format!("{:02X}", v).into_bytes());
        assert_eq!(bin(v, 8), format!("{:08b}", v).into_bytes());
    }
}

#[test]
fn binary_flags() {
    assert_eq!(bin(0x24, 8), b"00100100".to_vec());
    assert_eq!(bin(0xFF, 8), b"11111111".to_vec());
}

#[test]
fn ascii_bytes() {
    assert_eq!(ascii("*RAM*"), b"*RAM*".to_vec());
    assert_eq!(ascii(""), Vec::<u8>::new());
}
