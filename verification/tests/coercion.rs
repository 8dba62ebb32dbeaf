use levin::handshake::{to_array, to_u32, to_u64, InvalidHandshake};
use levin::section::{array_of_value, u32_of_value, u64_of_value, Value};
use serde_bytes::ByteBuf;
use serde_epee::section::{SectionArray, SectionEntry};
use serde_epee::Section;

#[test]
fn negative_number_fails_integer_coercion() {
    assert_eq!(to_u32(Some(SectionEntry::Int64(-1))), Err(InvalidHandshake));
    assert_eq!(to_u64(Some(SectionEntry::Int64(-1))), Err(InvalidHandshake));
    assert_eq!(to_u64(Some(SectionEntry::Int8(-128))), Err(InvalidHandshake));
    assert_eq!(to_u32(Some(SectionEntry::Int16(-1))), Err(InvalidHandshake));
    assert_eq!(to_u32(Some(SectionEntry::Int32(i32::MIN))), Err(InvalidHandshake));
}

#[test]
fn small_unsigned_number_widens() {
    assert_eq!(to_u32(Some(SectionEntry::UInt8(200))), Ok(200));
    assert_eq!(to_u64(Some(SectionEntry::UInt8(200))), Ok(200));
    assert_eq!(to_u32(Some(SectionEntry::UInt16(65535))), Ok(65535));
    assert_eq!(to_u64(Some(SectionEntry::UInt32(u32::MAX))), Ok(4294967295));
}

#[test]
fn every_integer_variant_is_accepted() {
    assert_eq!(to_u64(Some(SectionEntry::Int64(i64::MAX))), Ok(i64::MAX as u64));
    assert_eq!(to_u64(Some(SectionEntry::Int32(5))), Ok(5));
    assert_eq!(to_u64(Some(SectionEntry::Int16(6))), Ok(6));
    assert_eq!(to_u64(Some(SectionEntry::Int8(7))), Ok(7));
    assert_eq!(to_u64(Some(SectionEntry::UInt64(u64::MAX))), Ok(u64::MAX));
    assert_eq!(to_u32(Some(SectionEntry::Int64(0))), Ok(0));
    assert_eq!(to_u32(Some(SectionEntry::Int32(i32::MAX))), Ok(i32::MAX as u32));
    assert_eq!(to_u32(Some(SectionEntry::Int16(6))), Ok(6));
    assert_eq!(to_u32(Some(SectionEntry::Int8(7))), Ok(7));
    assert_eq!(to_u32(Some(SectionEntry::UInt32(u32::MAX))), Ok(u32::MAX));
}

#[test]
fn number_too_large_for_the_target_fails() {
    assert_eq!(to_u32(Some(SectionEntry::UInt64(4294967296))), Err(InvalidHandshake));
    assert_eq!(to_u32(Some(SectionEntry::Int64(4294967296))), Err(InvalidHandshake));
    assert_eq!(to_u32(Some(SectionEntry::UInt64(4294967295))), Ok(4294967295));
    assert_eq!(to_u32(Some(SectionEntry::Int64(4294967295))), Ok(4294967295));
}

#[test]
fn absent_entry_and_wrong_type_fail_alike() {
    assert_eq!(to_u32(None), Err(InvalidHandshake));
    assert_eq!(to_u64(None), Err(InvalidHandshake));
    assert_eq!(to_array::<32>(None), Err(InvalidHandshake));
    assert_eq!(to_u64(Some(SectionEntry::Bool(true))), Err(InvalidHandshake));
    assert_eq!(to_u64(Some(SectionEntry::Blob(ByteBuf::from(vec![1u8])))), Err(InvalidHandshake));
    assert_eq!(to_u32(Some(SectionEntry::Object(Section::new()))), Err(InvalidHandshake));
    assert_eq!(
        to_u32(Some(SectionEntry::Array(SectionArray::UInt32(vec![1])))),
        Err(InvalidHandshake)
    );
    assert_eq!(to_array::<4>(Some(SectionEntry::UInt32(1))), Err(InvalidHandshake));
}

#[test]
fn blob_must_have_the_exact_length() {
    let short = SectionEntry::Blob(ByteBuf::from(vec![7u8; 31]));
    assert_eq!(to_array::<32>(Some(short)), Err(InvalidHandshake));
    let long = SectionEntry::Blob(ByteBuf::from(vec![7u8; 33]));
    assert_eq!(to_array::<32>(Some(long)), Err(InvalidHandshake));
    let mut bytes = vec![0u8; 32];
    for (i, b) in bytes.iter_mut().enumerate() {
        *b = i as u8;
    }
    let exact = SectionEntry::Blob(ByteBuf::from(bytes.clone()));
    let array = to_array::<32>(Some(exact)).unwrap();
    assert_eq!(array.to_vec(), bytes);
    let empty = SectionEntry::Blob(ByteBuf::from(Vec::new()));
    assert_eq!(to_array::<0>(Some(empty)), Ok([]));
}

#[test]
fn plain_values_coerce_the_same_way() {
    assert_eq!(u64_of_value(Value::Int64(-1)), None);
    assert_eq!(u64_of_value(Value::UInt16(300)), Some(300));
    assert_eq!(u32_of_value(Value::UInt64(1 << 32)), None);
    assert_eq!(u32_of_value(Value::UInt8(200)), Some(200));
    assert_eq!(u32_of_value(Value::Other), None);
    assert_eq!(array_of_value::<2>(Value::Blob(vec![1, 2])), Some([1, 2]));
    assert_eq!(array_of_value::<2>(Value::Blob(vec![1, 2, 3])), None);
    assert_eq!(array_of_value::<2>(Value::UInt8(1)), None);
}
