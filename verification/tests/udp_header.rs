use perftest::udp_utils::{micros_timestamp, read_header, write_header, UdpHeader, FLAG_DATA, FLAG_FIN, HEADER_SIZE};

#[test]
fn header_is_written_big_endian() {
    let mut buf = vec![0xAAu8; 30];
    let h = UdpHeader { seq: 0x0102030405060708, sec: 1, usec: 999_999, flags: FLAG_FIN };
    write_header(&mut buf, &h);
    assert_eq!(&buf[0..8], &[1u8, 2, 3, 4, 5, 6, 7, 8][..]);
    assert_eq!(&buf[8..16], &[0u8, 0, 0, 0, 0, 0, 0, 1][..]);
    assert_eq!(&buf[16..24], &999_999u64.to_be_bytes()[..]);
    assert_eq!(&buf[24..28], &[0u8, 0, 0, 1][..]);
    assert_eq!(&buf[28..], &[0xAAu8, 0xAA][..]);
}

#[test]
fn header_round_trips() {
    let mut buf = vec![0u8; 1200];
    let h = UdpHeader { seq: u64::MAX, sec: 1_700_000_000, usec: 123_456, flags: FLAG_DATA };
    write_header(&mut buf, &h);
    assert_eq!(read_header(&mut buf), h);
}

#[test]
fn header_read_from_exact_size_buffer() {
    let mut buf = [0u8; HEADER_SIZE];
    buf[7] = 9;
    buf[27] = 1;
    let h = read_header(&mut buf);
    assert_eq!(h, UdpHeader { seq: 9, sec: 0, usec: 0, flags: FLAG_FIN });
}

#[test]
fn rewriting_a_read_header_keeps_the_bytes() {
    let mut buf: Vec<u8> = (0u8..28).map(|i| i.wrapping_mul(37)).collect();
    let original = buf.clone();
    let h = read_header(&mut buf);
    write_header(&mut buf, &h);
    assert_eq!(buf, original);
}

#[test]
fn micros_from_nanos() {
    assert_eq!(micros_timestamp(1_700_000_000, 999_999_999), (1_700_000_000, 999_999));
    assert_eq!(micros_timestamp(5, 1_999), (5, 1));
    assert_eq!(micros_timestamp(0, 0), (0, 0));
}
