use nexus::utils::{parse_bytes, printable_ascii, Endian};

#[test]
fn test_parse_u8() {
    let bytes = [251];
    println!("{}", parse_bytes::<u8>(&bytes, Endian::Little));
    assert!(parse_bytes::<u8>(&bytes, Endian::Big) == 251);
    assert!(parse_bytes::<u8>(&bytes, Endian::Little) == 251);
}

#[test]
fn test_parse_u16() {
    let bytes = [1, 0];
    assert!(parse_bytes::<u16>(&bytes, Endian::Big) == 256);
    assert!(parse_bytes::<u16>(&bytes, Endian::Little) == 1);
}

#[test]
fn test_parse_u32() {
    let bytes = [1, 1, 0, 0];
    assert!(parse_bytes::<u32>(&bytes, Endian::Big) == 16842752);
    println!("{}", parse_bytes::<u32>(&bytes, Endian::Little));
    assert!(parse_bytes::<u32>(&bytes, Endian::Little) == 257);
}

#[test]
fn test_parse_u64() {
    let bytes = [1, 0, 1, 0, 0, 0, 0, 1];
    assert!(parse_bytes::<u64>(&bytes, Endian::Big) == 72058693549555713);
    assert!(parse_bytes::<u64>(&bytes, Endian::Little) == 72057594037993473);
}

#[test]
fn parse_reads_only_the_leading_bytes() {
    let bytes = [0x12, 0x34, 0x56];
    assert_eq!(parse_bytes::<u16>(&bytes, Endian::Big), 0x1234);
    assert_eq!(parse_bytes::<u16>(&bytes, Endian::Little), 0x3412);
}

#[test]
fn parse_u128_big_endian() {
    let mut bytes = [0u8; 16];
    bytes[0] = 1;
    bytes[15] = 2;
    assert_eq!(parse_bytes::<u128>(&bytes, Endian::Big), (1u128 << 120) + 2);
    assert_eq!(parse_bytes::<u128>(&bytes, Endian::Little), (2u128 << 120) + 1);
}

#[test]
fn printable_ascii_replaces_unprintable_bytes() {
    assert_eq!(printable_ascii(&[0x68, 0x69, 0x00, 0x7F, 0x20, 0x7E, 0x1F]), "hi.. ~.");
    assert_eq!(printable_ascii(&[]), "");
}
