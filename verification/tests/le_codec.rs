use le_ext::channel::{ByteSink, ByteSource, IoError, MemChannel};
use le_ext::ext::{LittleEndianReadExt, LittleEndianWriteExt};
use le_ext::le::{decode_le, encode_le};

#[test]
fn write_u16_byte_order() {
    let mut ch = MemChannel::new();
    ch.write_u16_le(0x0102).unwrap();
    assert_eq!(ch.into_bytes(), vec![0x02, 0x01]);
}

#[test]
fn write_u32_byte_order() {
    let mut ch = MemChannel::new();
    ch.write_u32_le(0x01020304).unwrap();
    assert_eq!(ch.into_bytes(), vec![0x04, 0x03, 0x02, 0x01]);
}

#[test]
fn write_u64_byte_order() {
    let mut ch = MemChannel::new();
    ch.write_u64_le(0x0102030405060708).unwrap();
    assert_eq!(ch.into_bytes(), vec![0x08, 0x07, 0x06, 0x05, 0x04, 0x03, 0x02, 0x01]);
}

#[test]
fn write_u128_max_gives_sixteen_ff() {
    let mut ch = MemChannel::new();
    ch.write_u128_le(u128::MAX).unwrap();
    assert_eq!(ch.into_bytes(), vec![0xFF; 16]);
}

#[test]
fn write_u128_byte_order() {
    let mut ch = MemChannel::new();
    ch.write_u128_le(0x100F0E0D0C0B0A090807060504030201).unwrap();
    let expected: Vec<u8> = (1..=16).collect();
    assert_eq!(ch.into_bytes(), expected);
}

#[test]
fn read_u16_exact_value() {
    let mut ch = MemChannel::from_bytes(vec![0x34, 0x12]);
    assert_eq!(ch.read_u16_le().unwrap(), 0x1234);
    assert_eq!(ch.len(), 0);
}

#[test]
fn read_u32_consumes_exactly_four_bytes() {
    let mut ch = MemChannel::from_bytes(vec![0x04, 0x03, 0x02, 0x01]);
    assert_eq!(ch.read_u32_le().unwrap(), 0x01020304);
    assert_eq!(ch.len(), 0);
}

#[test]
fn read_u32_short_input_fails_without_consuming() {
    let mut ch = MemChannel::from_bytes(vec![0x04, 0x03, 0x02]);
    assert_eq!(ch.read_u32_le(), Err(IoError::UnexpectedEof));
    assert_eq!(ch.len(), 3);
}

#[test]
fn read_u16_from_empty_channel_fails() {
    let mut ch = MemChannel::new();
    assert_eq!(ch.read_u16_le(), Err(IoError::UnexpectedEof));
}

#[test]
fn read_u64_short_input_fails() {
    let mut ch = MemChannel::from_bytes(vec![0x01; 7]);
    assert_eq!(ch.read_u64_le(), Err(IoError::UnexpectedEof));
    assert_eq!(ch.len(), 7);
}

#[test]
fn round_trip_u16() {
    for v in [0u16, 1, 0x0102, 0x8000, u16::MAX] {
        let mut ch = MemChannel::new();
        ch.write_u16_le(v).unwrap();
        assert_eq!(ch.read_u16_le().unwrap(), v);
        assert_eq!(ch.len(), 0);
    }
}

#[test]
fn round_trip_u32() {
    for v in [0u32, 1, 0x01020304, 0xDEADBEEF, u32::MAX] {
        let mut ch = MemChannel::new();
        ch.write_u32_le(v).unwrap();
        assert_eq!(ch.read_u32_le().unwrap(), v);
        assert_eq!(ch.len(), 0);
    }
}

#[test]
fn round_trip_u64() {
    for v in [0u64, 1, 0x0102030405060708, u64::MAX] {
        let mut ch = MemChannel::new();
        ch.write_u64_le(v).unwrap();
        assert_eq!(ch.read_u64_le().unwrap(), v);
        assert_eq!(ch.len(), 0);
    }
}

#[test]
fn round_trip_u128_encoding() {
    for v in [0u128, 1, 0x100F0E0D0C0B0A090807060504030201, u128::MAX] {
        let bytes = encode_le(v, 16);
        assert_eq!(decode_le(&bytes), v);
    }
}

#[test]
fn interleaved_widths_round_trip() {
    let a: u16 = 0xA1B2;
    let b: u32 = 0xC3D4E5F6;
    let c: u64 = 0x0102030405060708;
    let mut ch = MemChannel::new();
    ch.write_u16_le(a).unwrap();
    ch.write_u32_le(b).unwrap();
    ch.write_u64_le(c).unwrap();
    assert_eq!(ch.len(), 14);
    assert_eq!(ch.read_u16_le().unwrap(), a);
    assert_eq!(ch.read_u32_le().unwrap(), b);
    assert_eq!(ch.read_u64_le().unwrap(), c);
    assert_eq!(ch.len(), 0);
}

#[test]
fn write_all_bytes_appends_in_order() {
    let mut ch = MemChannel::new();
    ch.write_all_bytes(&[1, 2]).unwrap();
    ch.write_all_bytes(&[3]).unwrap();
    ch.write_all_bytes(&[]).unwrap();
    assert_eq!(ch.into_bytes(), vec![1, 2, 3]);
}

#[test]
fn read_exact_n_takes_the_front() {
    let mut ch = MemChannel::from_bytes(vec![9, 8, 7, 6]);
    assert_eq!(ch.read_exact_n(3).unwrap(), vec![9, 8, 7]);
    assert_eq!(ch.into_bytes(), vec![6]);
}

#[test]
fn encode_le_truncates_to_requested_width() {
    assert_eq!(encode_le(0x0102, 1), vec![0x02]);
    assert_eq!(encode_le(0xFFFF, 0), Vec::<u8>::new());
}

#[test]
fn channel_bytes_round_trip() {
    let ch = MemChannel::from_bytes(vec![5, 6, 7]);
    assert_eq!(ch.into_bytes(), vec![5, 6, 7]);
}
