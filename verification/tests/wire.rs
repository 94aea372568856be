use localisationtechniques::tools::{convert_u64_u8, convert_u8_u64, parse_uwb_payload};

const TICK_MODULUS: u64 = 0x100_0000_0000;
const SENTINEL: u64 = 0xFF_FFFF_FFFF;

#[test]
fn encode_known_value() {
    let times: [u64; 10] = [0x12_3456_789A, 0, 0, 0, 0, 0, 0, 0, 0, 0];
    let mut buf = [0u8; 25];
    convert_u64_u8(&times, &mut buf);
    assert_eq!(&buf[0..5], &[0x12, 0x34, 0x56, 0x78, 0x9A]);
    assert_eq!(&buf[5..10], &[0, 0, 0, 0, 0]);
}

#[test]
fn decode_known_value() {
    let buf: [u8; 10] = [0x12, 0x34, 0x56, 0x78, 0x9A, 0xFF, 0xFF, 0xFF, 0xFF, 0xFF];
    assert_eq!(convert_u8_u64(&buf, 0), 0x12_3456_789A);
    assert_eq!(convert_u8_u64(&buf, 1), SENTINEL);
}

#[test]
fn round_trip_all_fields() {
    let times: [u64; 10] = [7, 1_099_511_627_775, 0, 638_997_108, 0x55_AA55_AA55, 0, 0, 0, 0, 0];
    let mut buf = [0u8; 25];
    convert_u64_u8(&times, &mut buf);
    for i in 0..5 {
        assert_eq!(convert_u8_u64(&buf, i), times[i] % TICK_MODULUS);
    }
}

#[test]
fn encoding_truncates_to_forty_bits() {
    let times: [u64; 5] = [0x1FF_FFFF_FFFF, 0x100_0000_0001, 0, 0, 0];
    let mut buf = [0u8; 25];
    convert_u64_u8(&times, &mut buf);
    assert_eq!(convert_u8_u64(&buf, 0), SENTINEL);
    assert_eq!(convert_u8_u64(&buf, 1), 1);
}

#[test]
fn parse_two_field_payload() {
    // 10 bytes of fields plus the 2-byte checksum trailer.
    let payload: [u8; 12] = [0, 0, 0, 3, 232, 0, 0, 0, 4, 76, 0xAB, 0xCD];
    let data = parse_uwb_payload(&payload);
    assert_eq!(data[0], 1000);
    assert_eq!(data[1], 1100);
    for i in 2..6 {
        assert_eq!(data[i], 0);
    }
}

#[test]
fn parse_short_payload_yields_zeroes() {
    let payload: [u8; 1] = [0x42];
    let data = parse_uwb_payload(&payload);
    assert_eq!(data, [0u64; 6]);
}

#[test]
fn parse_caps_at_six_fields() {
    let payload = [0xFFu8; 50];
    let data = parse_uwb_payload(&payload);
    assert_eq!(data, [SENTINEL; 6]);
}
