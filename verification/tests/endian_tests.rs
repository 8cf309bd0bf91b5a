use payment_engine::endian::{parse_frombytes_be, parse_frombytes_le, read_drop_slice, FromEndian};
use payment_engine::errors::BitcoinMessageError;

#[test]
fn read_drop_slice_splits_the_buffer() {
    let buff = vec![1u8, 2, 3, 4, 5];
    let (head, rest) = read_drop_slice(&buff, 2).unwrap();
    assert_eq!(head, &[1, 2]);
    assert_eq!(rest, vec![3, 4, 5]);

    let (head, rest) = read_drop_slice(&buff, 5).unwrap();
    assert_eq!(head, &[1, 2, 3, 4, 5]);
    assert_eq!(rest, Vec::<u8>::new());
}

#[test]
fn read_drop_slice_rejects_short_buffers() {
    let buff = vec![1u8, 2, 3];
    match read_drop_slice(&buff, 4) {
        Err(BitcoinMessageError::SerializationError(_)) => {}
        other => panic!("unexpected result: {:?}", other),
    }
}

#[test]
fn parse_big_endian_values() {
    let buff = vec![0x12u8, 0x34, 0x56, 0x78, 0xff];
    let (v, rest): (u16, Vec<u8>) = parse_frombytes_be(&buff).unwrap();
    assert_eq!(v, 0x1234);
    assert_eq!(rest, vec![0x56, 0x78, 0xff]);

    let (v, rest): (u32, Vec<u8>) = parse_frombytes_be(&buff).unwrap();
    assert_eq!(v, 0x12345678);
    assert_eq!(rest, vec![0xff]);

    let buff = vec![0xffu8, 0xff, 0xff, 0xfe];
    let (v, _): (i32, Vec<u8>) = parse_frombytes_be(&buff).unwrap();
    assert_eq!(v, -2);
}

#[test]
fn parse_little_endian_values() {
    let buff = vec![0x78u8, 0x56, 0x34, 0x12, 0xff];
    let (v, rest): (u32, Vec<u8>) = parse_frombytes_le(&buff).unwrap();
    assert_eq!(v, 0x12345678);
    assert_eq!(rest, vec![0xff]);

    let buff = vec![0x01u8, 0x00, 0x00, 0x00, 0x00, 0x00, 0x00, 0x80];
    let (v, _): (u64, Vec<u8>) = parse_frombytes_le(&buff).unwrap();
    assert_eq!(v, 0x8000000000000001);
    let (v, _): (i64, Vec<u8>) = parse_frombytes_le(&buff).unwrap();
    assert_eq!(v, i64::MIN + 1);
}

#[test]
fn parse_matches_std_conversions() {
    let buff = vec![0xdeu8, 0xad, 0xbe, 0xef, 0x01, 0x02, 0x03, 0x04];
    let (v, _): (u64, Vec<u8>) = parse_frombytes_be(&buff).unwrap();
    assert_eq!(v, u64::from_be_bytes([0xde, 0xad, 0xbe, 0xef, 0x01, 0x02, 0x03, 0x04]));
    let (v, _): (u64, Vec<u8>) = parse_frombytes_le(&buff).unwrap();
    assert_eq!(v, u64::from_le_bytes([0xde, 0xad, 0xbe, 0xef, 0x01, 0x02, 0x03, 0x04]));
    assert_eq!(<u16 as FromEndian>::from_be(&buff[0..2]), 0xdead);
    assert_eq!(<u16 as FromEndian>::from_le(&buff[0..2]), 0xadde);
}

#[test]
fn parse_short_buffer_is_an_error() {
    let buff = vec![0x01u8, 0x02];
    match parse_frombytes_be::<u32>(&buff) {
        Err(BitcoinMessageError::SerializationError(_)) => {}
        other => panic!("unexpected result: {:?}", other),
    }
}
