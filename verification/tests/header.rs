use levin::msg::{Msg, MsgError, MAX_PAYLOAD_LENGTH};
use levin::raw_header::{
    into_array, u32_from_le_bytes, u32_to_le_bytes, u64_from_le_bytes, u64_to_le_bytes,
    RawHeader, LENGTH, SIGNATURE, VERSION,
};

fn sample_header() -> RawHeader {
    RawHeader {
        signature: SIGNATURE,
        length: 0x0102,
        expect_response: 1,
        command: 1001,
        return_code: 0,
        flags: 1,
        version: VERSION,
    }
}

fn sample_bytes() -> [u8; LENGTH] {
    [
        0x01, 0x21, 0x01, 0x01, 0x01, 0x01, 0x01, 0x01, // signature
        0x02, 0x01, 0x00, 0x00, 0x00, 0x00, 0x00, 0x00, // length
        0x01, // expect_response
        0xe9, 0x03, 0x00, 0x00, // command
        0x00, 0x00, 0x00, 0x00, // return_code
        0x01, 0x00, 0x00, 0x00, // flags
        0x01, 0x00, 0x00, 0x00, // version
    ]
}

#[test]
fn header_encodes_to_fixed_layout() {
    let bytes: [u8; LENGTH] = sample_header().into();
    assert_eq!(bytes, sample_bytes());
    assert_eq!(sample_header().to_vec(), sample_bytes().to_vec());
}

#[test]
fn header_decodes_from_fixed_layout() {
    assert_eq!(RawHeader::from(sample_bytes()), sample_header());
}

#[test]
fn header_decode_then_encode_is_identity() {
    let mut bytes = [0u8; LENGTH];
    for (i, b) in bytes.iter_mut().enumerate() {
        *b = (i * 7 + 3) as u8;
    }
    let header = RawHeader::from(bytes);
    assert_eq!(header.signature, 0x342d_261f_1811_0a03);
    assert_eq!(header.length, 0x6c65_5e57_5049_423b);
    assert_eq!(header.expect_response, 115);
    assert_eq!(header.command, 0x8f88_817a);
    let again: [u8; LENGTH] = header.into();
    assert_eq!(again, bytes);
}

#[test]
fn header_encode_then_decode_is_identity() {
    let header = RawHeader {
        signature: 0xfedc_ba98_7654_3210,
        length: u64::MAX,
        expect_response: 0xab,
        command: 0xdead_beef,
        return_code: 0x8000_0001,
        flags: 0x7fff_ffff,
        version: 0xffff_ffff,
    };
    let bytes: [u8; LENGTH] = header.into();
    assert_eq!(&bytes[0..8], &0xfedc_ba98_7654_3210_u64.to_le_bytes());
    assert_eq!(&bytes[8..16], &[0xff; 8]);
    assert_eq!(bytes[16], 0xab);
    assert_eq!(&bytes[17..21], &0xdead_beef_u32.to_le_bytes());
    assert_eq!(RawHeader::from(bytes), header);
}

#[test]
fn little_endian_numbers() {
    assert_eq!(u32_to_le_bytes(0x0102_0304), [4, 3, 2, 1]);
    assert_eq!(u32_from_le_bytes([4, 3, 2, 1]), 0x0102_0304);
    assert_eq!(u64_to_le_bytes(0x0102_0304_0506_0708), [8, 7, 6, 5, 4, 3, 2, 1]);
    assert_eq!(u64_from_le_bytes([8, 7, 6, 5, 4, 3, 2, 1]), 0x0102_0304_0506_0708);
    assert_eq!(u32_from_le_bytes([0xff; 4]), u32::MAX);
    assert_eq!(u64_from_le_bytes([0xff; 8]), u64::MAX);
    assert_eq!(u64_to_le_bytes(SIGNATURE), [0x01, 0x21, 1, 1, 1, 1, 1, 1]);
}

#[test]
fn into_array_copies_the_slice() {
    let v = vec![9u8, 8, 7, 6, 5];
    let a: [u8; 3] = into_array(&v[1..4]);
    assert_eq!(a, [8, 7, 6]);
    let empty: [u8; 0] = into_array(&v[0..0]);
    assert_eq!(empty.len(), 0);
}

#[test]
fn valid_header_is_accepted() {
    let header = Msg::accept_header(sample_bytes(), MAX_PAYLOAD_LENGTH).unwrap();
    assert_eq!(header, sample_header());
}

#[test]
fn wrong_signature_is_invalid_header() {
    let mut header = sample_header();
    header.signature = 0x0101010101012100;
    let r = Msg::accept_header(header.into(), MAX_PAYLOAD_LENGTH);
    assert!(matches!(r, Err(MsgError::InvalidHeader(h)) if h == header));
}

#[test]
fn wrong_version_is_invalid_header() {
    let mut header = sample_header();
    header.version = 2;
    let r = Msg::accept_header(header.into(), MAX_PAYLOAD_LENGTH);
    assert!(matches!(r, Err(MsgError::InvalidHeader(h)) if h == header));
}

#[test]
fn invalid_header_comes_before_too_long() {
    let mut header = sample_header();
    header.version = 0;
    header.length = u64::MAX;
    let r = Msg::accept_header(header.into(), MAX_PAYLOAD_LENGTH);
    assert!(matches!(r, Err(MsgError::InvalidHeader(_))));
}

#[test]
fn length_over_the_maximum_is_too_long() {
    let mut header = sample_header();
    header.length = MAX_PAYLOAD_LENGTH + 1;
    let r = Msg::accept_header(header.into(), MAX_PAYLOAD_LENGTH);
    assert!(matches!(r, Err(MsgError::TooLong(h)) if h == header));
    header.length = 11;
    let r = Msg::accept_header(header.into(), 10);
    assert!(matches!(r, Err(MsgError::TooLong(_))));
}

#[test]
fn length_at_the_maximum_is_accepted() {
    let mut header = sample_header();
    header.length = MAX_PAYLOAD_LENGTH;
    assert_eq!(Msg::accept_header(header.into(), MAX_PAYLOAD_LENGTH).unwrap(), header);
    assert_eq!(MAX_PAYLOAD_LENGTH, 8 * 1024 * 1024);
}
