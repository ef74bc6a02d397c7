use libcanopen_client::canopen::od::{DataType, ObjectId};
use libcanopen_client::canopen::types::{CANopenData, DataTypeConverter, ObjectDictionaryEntry};

#[test]
fn test_basic_type_conversions() {
    // Test u32
    let value: u32 = 0x12345678;
    let bytes = value.to_canopen_bytes();
    assert_eq!(bytes, vec![0x78, 0x56, 0x34, 0x12]); // Little endian

    let decoded = u32::from_canopen_bytes(&bytes).unwrap();
    assert_eq!(decoded, value);

    // Test i16
    let value: i16 = -1000;
    let bytes = value.to_canopen_bytes();
    let decoded = i16::from_canopen_bytes(&bytes).unwrap();
    assert_eq!(decoded, value);

    // Test bool
    let value = true;
    let bytes = value.to_canopen_bytes();
    assert_eq!(bytes, vec![1]);

    let decoded = bool::from_canopen_bytes(&bytes).unwrap();
    assert_eq!(decoded, value);
}

#[test]
fn test_string_conversion() {
    let value = "Hello".to_string();
    let bytes = value.to_canopen_bytes();
    assert_eq!(bytes, b"Hello");

    let decoded = String::from_canopen_bytes(&bytes).unwrap();
    assert_eq!(decoded, value);
}

#[test]
fn test_data_type_validation() {
    // Valid u32 data
    let data = vec![0x12, 0x34, 0x56, 0x78];
    assert!(DataTypeConverter::validate_data_type(&data, DataType::Unsigned32).is_ok());

    // Invalid u32 data (wrong size)
    let data = vec![0x12, 0x34];
    assert!(DataTypeConverter::validate_data_type(&data, DataType::Unsigned32).is_err());

    // Valid visible string
    let data = b"Hello World";
    assert!(DataTypeConverter::validate_data_type(data, DataType::VisibleString).is_ok());

    // Invalid visible string (non-printable character)
    let data = vec![0x01, 0x02, 0x03];
    assert!(DataTypeConverter::validate_data_type(&data, DataType::VisibleString).is_err());
}

#[test]
fn test_minimal_encoding_size() {
    // u32 with minimal representation
    let data = vec![0x12, 0x00, 0x00, 0x00];
    let size = DataTypeConverter::get_minimal_encoding_size(&data, DataType::Unsigned32);
    assert_eq!(size, 1);

    // u32 requiring full representation
    let data = vec![0x12, 0x34, 0x56, 0x78];
    let size = DataTypeConverter::get_minimal_encoding_size(&data, DataType::Unsigned32);
    assert_eq!(size, 4);

    // String (variable length)
    let data = b"Hello";
    let size = DataTypeConverter::get_minimal_encoding_size(data, DataType::VisibleString);
    assert_eq!(size, 5);
}

#[test]
fn test_object_dictionary_entry() {
    let obj_id = ObjectId::new(0x1000, 0x00);
    let entry = ObjectDictionaryEntry::new(obj_id, 0x12345678u32);

    assert_eq!(entry.data_type(), DataType::Unsigned32);
    assert_eq!(entry.to_bytes(), vec![0x78, 0x56, 0x34, 0x12]);

    let reconstructed =
        ObjectDictionaryEntry::<u32>::from_bytes(obj_id, &entry.to_bytes()).unwrap();
    assert_eq!(reconstructed.value, 0x12345678u32);
}


#[test]
fn test_bool_edge_cases() {
    // Test true value
    assert_eq!(true.to_canopen_bytes(), vec![1]);
    assert!(bool::from_canopen_bytes(&[1]).unwrap());

    // Test false value
    assert_eq!(false.to_canopen_bytes(), vec![0]);
    assert!(!bool::from_canopen_bytes(&[0]).unwrap());

    // Test non-zero as true
    assert!(bool::from_canopen_bytes(&[255]).unwrap());
    assert!(bool::from_canopen_bytes(&[42]).unwrap());

    // Test empty data error
    assert!(bool::from_canopen_bytes(&[]).is_err());
}

#[test]
fn test_integer_roundtrip() {
    // u8
    let val: u8 = 255;
    assert_eq!(
        u8::from_canopen_bytes(&val.to_canopen_bytes()).unwrap(),
        val
    );

    // i8
    let val: i8 = -128;
    assert_eq!(
        i8::from_canopen_bytes(&val.to_canopen_bytes()).unwrap(),
        val
    );

    // u16
    let val: u16 = 0xABCD;
    assert_eq!(
        u16::from_canopen_bytes(&val.to_canopen_bytes()).unwrap(),
        val
    );

    // i16
    let val: i16 = -32768;
    assert_eq!(
        i16::from_canopen_bytes(&val.to_canopen_bytes()).unwrap(),
        val
    );

    // u32
    let val: u32 = 0xDEADBEEF;
    assert_eq!(
        u32::from_canopen_bytes(&val.to_canopen_bytes()).unwrap(),
        val
    );

    // i32
    let val: i32 = -2147483648;
    assert_eq!(
        i32::from_canopen_bytes(&val.to_canopen_bytes()).unwrap(),
        val
    );

    // u64
    let val: u64 = 0x0123456789ABCDEF;
    assert_eq!(
        u64::from_canopen_bytes(&val.to_canopen_bytes()).unwrap(),
        val
    );

    // i64
    let val: i64 = -9223372036854775808;
    assert_eq!(
        i64::from_canopen_bytes(&val.to_canopen_bytes()).unwrap(),
        val
    );
}

#[test]
fn test_little_endian_byte_order() {
    // Verify little-endian byte order (CANopen standard)
    let val: u16 = 0x1234;
    assert_eq!(val.to_canopen_bytes(), vec![0x34, 0x12]);

    let val: u32 = 0x12345678;
    assert_eq!(val.to_canopen_bytes(), vec![0x78, 0x56, 0x34, 0x12]);

    let val: u64 = 0x0123456789ABCDEF;
    assert_eq!(
        val.to_canopen_bytes(),
        vec![0xEF, 0xCD, 0xAB, 0x89, 0x67, 0x45, 0x23, 0x01]
    );
}

#[test]
fn test_insufficient_data_errors() {
    // u16 with 1 byte
    assert!(u16::from_canopen_bytes(&[0x12]).is_err());

    // u32 with 3 bytes
    assert!(u32::from_canopen_bytes(&[0x12, 0x34, 0x56]).is_err());

    // u64 with 7 bytes
    assert!(u64::from_canopen_bytes(&[0x01, 0x02, 0x03, 0x04, 0x05, 0x06, 0x07]).is_err());

    // i16 with empty data
    assert!(i16::from_canopen_bytes(&[]).is_err());
}

#[test]
fn test_string_roundtrip() {
    let text = "Hello CANopen!".to_string();
    let bytes = text.to_canopen_bytes();
    let decoded = String::from_canopen_bytes(&bytes).unwrap();
    assert_eq!(decoded, text);

    // Empty string
    let empty = String::new();
    let bytes = empty.to_canopen_bytes();
    let decoded = String::from_canopen_bytes(&bytes).unwrap();
    assert_eq!(decoded, empty);

    // Test with special characters
    let special = "Test\r\n\t!@#$%".to_string();
    let bytes = special.to_canopen_bytes();
    let decoded = String::from_canopen_bytes(&bytes).unwrap();
    assert_eq!(decoded, special);
}

#[test]
fn test_vec_u8_conversion() {
    let data: Vec<u8> = vec![0x01, 0x02, 0x03, 0xFF, 0xAA, 0x55];
    let bytes = data.to_canopen_bytes();
    let decoded = Vec::<u8>::from_canopen_bytes(&bytes).unwrap();
    assert_eq!(decoded, data);

    // Empty vector
    let empty: Vec<u8> = vec![];
    let bytes = empty.to_canopen_bytes();
    let decoded = Vec::<u8>::from_canopen_bytes(&bytes).unwrap();
    assert_eq!(decoded, empty);
}

#[test]
fn types_test_data_type_sizes() {
    assert_eq!(DataType::Boolean.size_bytes(), Some(1));
    assert_eq!(DataType::Integer8.size_bytes(), Some(1));
    assert_eq!(DataType::Unsigned8.size_bytes(), Some(1));
    assert_eq!(DataType::Integer16.size_bytes(), Some(2));
    assert_eq!(DataType::Unsigned16.size_bytes(), Some(2));
    assert_eq!(DataType::Integer32.size_bytes(), Some(4));
    assert_eq!(DataType::Unsigned32.size_bytes(), Some(4));
    assert_eq!(DataType::Real32.size_bytes(), Some(4));
    assert_eq!(DataType::Integer64.size_bytes(), Some(8));
    assert_eq!(DataType::Unsigned64.size_bytes(), Some(8));

    // Variable-length types
    assert_eq!(DataType::VisibleString.size_bytes(), None);
    assert_eq!(DataType::OctetString.size_bytes(), None);
}

#[test]
fn test_negative_integers() {
    // i8 boundary values
    let min_i8: i8 = -128;
    let max_i8: i8 = 127;
    assert_eq!(
        i8::from_canopen_bytes(&min_i8.to_canopen_bytes()).unwrap(),
        min_i8
    );
    assert_eq!(
        i8::from_canopen_bytes(&max_i8.to_canopen_bytes()).unwrap(),
        max_i8
    );

    // i16 boundary values
    let min_i16: i16 = -32768;
    let max_i16: i16 = 32767;
    assert_eq!(
        i16::from_canopen_bytes(&min_i16.to_canopen_bytes()).unwrap(),
        min_i16
    );
    assert_eq!(
        i16::from_canopen_bytes(&max_i16.to_canopen_bytes()).unwrap(),
        max_i16
    );

    // i32 boundary values
    let min_i32: i32 = -2147483648;
    let max_i32: i32 = 2147483647;
    assert_eq!(
        i32::from_canopen_bytes(&min_i32.to_canopen_bytes()).unwrap(),
        min_i32
    );
    assert_eq!(
        i32::from_canopen_bytes(&max_i32.to_canopen_bytes()).unwrap(),
        max_i32
    );
}


#[test]
fn test_canopen_data_type_identification() {
    assert_eq!(bool::canopen_data_type(), DataType::Boolean);
    assert_eq!(u8::canopen_data_type(), DataType::Unsigned8);
    assert_eq!(i8::canopen_data_type(), DataType::Integer8);
    assert_eq!(u16::canopen_data_type(), DataType::Unsigned16);
    assert_eq!(i16::canopen_data_type(), DataType::Integer16);
    assert_eq!(u32::canopen_data_type(), DataType::Unsigned32);
    assert_eq!(i32::canopen_data_type(), DataType::Integer32);
    assert_eq!(u64::canopen_data_type(), DataType::Unsigned64);
    assert_eq!(i64::canopen_data_type(), DataType::Integer64);
    assert_eq!(String::canopen_data_type(), DataType::VisibleString);
    assert_eq!(Vec::<u8>::canopen_data_type(), DataType::OctetString);
}
