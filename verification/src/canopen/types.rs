//! Conversions between Rust values and their CANopen wire encoding, and the
//! checks of raw data against an object's data type.
use vstd::prelude::*;
use vstd::string::StringExecFns;
use vstd::utf8::{valid_utf8, decode_utf8, encode_utf8};
use std::string::FromUtf8Error;
use crate::errors::{CANopenError, Result};
use crate::canopen::le::{
    le_u16, le_u32, le_u64, u16_le_bytes, u32_le_bytes, u64_le_bytes, u16_from_le, u32_from_le,
    u64_from_le, push_u16_le, push_u32_le, push_u64_le, lemma_u16_le_roundtrip,
    lemma_u32_le_roundtrip, lemma_u64_le_roundtrip,
};
use crate::canopen::od::{
    DataType, ObjectId, spec_data_type_size, spec_data_type_name, spec_hex_digit, hex_digit,
};

verus! {

broadcast use {vstd::utf8::encode_utf8_valid_utf8, vstd::utf8::encode_utf8_decode_utf8};

/// Declares `std::string::FromUtf8Error` so that it can be carried.
#[verifier::external_type_specification]
#[verifier::external_body]
pub struct ExFromUtf8Error(FromUtf8Error);

/// `String::from_utf8`: per its documentation it succeeds exactly when the
/// bytes are valid UTF-8, and the string then holds the decoded characters.
#[verifier::external_body]
fn string_from_utf8(bytes: Vec<u8>) -> (r: std::result::Result<String, FromUtf8Error>)
    ensures
        r is Ok <==> valid_utf8(bytes@),
        r matches Ok(s) ==> s@ == decode_utf8(bytes@),
{
    String::from_utf8(bytes)
}

/// The `Display` text of a `FromUtf8Error`; nothing is claimed of its
/// content, which std leaves to its implementation.
#[verifier::external_body]
fn utf8_error_text(e: &FromUtf8Error) -> String {
    e.to_string()
}

/// A Rust type with a CANopen wire encoding.
pub trait CANopenData: Sized {
    /// The CANopen data type of this Rust type.
    spec fn spec_data_type() -> DataType;

    /// Whether `data` is long enough and well formed enough to decode.
    spec fn spec_decodable(data: Seq<u8>) -> bool;

    /// `value` is what `data` decodes to.
    spec fn spec_decodes_to(data: Seq<u8>, value: Self) -> bool;

    /// The wire bytes of `value`.
    spec fn spec_encoding(value: Self) -> Seq<u8>;

    /// Decoding the encoding of a value gives that value back.
    proof fn lemma_encoding_roundtrip(value: Self)
        ensures
            Self::spec_decodable(Self::spec_encoding(value)),
            Self::spec_decodes_to(Self::spec_encoding(value), value),
    ;

    /// The CANopen data type of this Rust type.
    fn canopen_data_type() -> (r: DataType)
        ensures
            r == Self::spec_data_type(),
    ;

    /// Decode from wire bytes; fails with `InvalidData` when the bytes do
    /// not decode.
    fn from_canopen_bytes(data: &[u8]) -> (r: Result<Self>)
        ensures
            r is Ok <==> Self::spec_decodable(data@),
            r matches Ok(v) ==> Self::spec_decodes_to(data@, v),
            r matches Err(e) ==> e is InvalidData,
    ;

    /// Encode to wire bytes.
    fn to_canopen_bytes(&self) -> (r: Vec<u8>)
        ensures
            r@ == Self::spec_encoding(*self),
    ;

    /// The encoded size of the data type, `None` for variable length.
    fn expected_size() -> (r: Option<usize>)
        ensures
            r == spec_data_type_size(Self::spec_data_type()),
    {
        Self::canopen_data_type().size_bytes()
    }
}

/// The `InvalidData` error with the given message.
fn invalid_data(msg: &str) -> (r: CANopenError)
    ensures
        r matches CANopenError::InvalidData(m) && m@ == msg@,
{
    CANopenError::InvalidData(String::from_str(msg))
}

impl CANopenData for bool {
    open spec fn spec_data_type() -> DataType { DataType::Boolean }
    open spec fn spec_decodable(data: Seq<u8>) -> bool { data.len() >= 1 }
    open spec fn spec_decodes_to(data: Seq<u8>, value: bool) -> bool { value == (data[0] != 0) }
    open spec fn spec_encoding(value: bool) -> Seq<u8> { seq![if value { 1u8 } else { 0u8 }] }

    proof fn lemma_encoding_roundtrip(value: bool) {
    }

    fn canopen_data_type() -> (r: DataType) {
        DataType::Boolean
    }

    fn from_canopen_bytes(data: &[u8]) -> (r: Result<bool>)
        ensures
            r matches Err(CANopenError::InvalidData(m)) ==> m@ == "Empty data for boolean"@,
    {
        if data.len() == 0 {
            return Err(invalid_data("Empty data for boolean"));
        }
        Ok(data[0] != 0)
    }

    fn to_canopen_bytes(&self) -> (r: Vec<u8>) {
        let mut out: Vec<u8> = Vec::new();
        out.push(if *self { 1 } else { 0 });
        proof {
            assert(out@ =~= Self::spec_encoding(*self));
        }
        out
    }
}

impl CANopenData for u8 {
    open spec fn spec_data_type() -> DataType { DataType::Unsigned8 }
    open spec fn spec_decodable(data: Seq<u8>) -> bool { data.len() >= 1 }
    open spec fn spec_decodes_to(data: Seq<u8>, value: u8) -> bool { value == data[0] }
    open spec fn spec_encoding(value: u8) -> Seq<u8> { seq![value] }

    proof fn lemma_encoding_roundtrip(value: u8) {
    }

    fn canopen_data_type() -> (r: DataType) {
        DataType::Unsigned8
    }

    fn from_canopen_bytes(data: &[u8]) -> (r: Result<u8>)
        ensures
            r matches Err(CANopenError::InvalidData(m)) ==> m@ == "Empty data for u8"@,
    {
        if data.len() == 0 {
            return Err(invalid_data("Empty data for u8"));
        }
        Ok(data[0])
    }

    fn to_canopen_bytes(&self) -> (r: Vec<u8>) {
        let mut out: Vec<u8> = Vec::new();
        out.push(*self);
        proof {
            assert(out@ =~= Self::spec_encoding(*self));
        }
        out
    }
}

impl CANopenData for i8 {
    open spec fn spec_data_type() -> DataType { DataType::Integer8 }
    open spec fn spec_decodable(data: Seq<u8>) -> bool { data.len() >= 1 }
    open spec fn spec_decodes_to(data: Seq<u8>, value: i8) -> bool { value == data[0] as i8 }
    open spec fn spec_encoding(value: i8) -> Seq<u8> { seq![value as u8] }

    proof fn lemma_encoding_roundtrip(value: i8) {
        assert((value as u8) as i8 == value) by (bit_vector);
    }

    fn canopen_data_type() -> (r: DataType) {
        DataType::Integer8
    }

    fn from_canopen_bytes(data: &[u8]) -> (r: Result<i8>)
        ensures
            r matches Err(CANopenError::InvalidData(m)) ==> m@ == "Empty data for i8"@,
    {
        if data.len() == 0 {
            return Err(invalid_data("Empty data for i8"));
        }
        Ok(data[0] as i8)
    }

    fn to_canopen_bytes(&self) -> (r: Vec<u8>) {
        let mut out: Vec<u8> = Vec::new();
        out.push(*self as u8);
        proof {
            assert(out@ =~= Self::spec_encoding(*self));
        }
        out
    }
}

impl CANopenData for u16 {
    open spec fn spec_data_type() -> DataType { DataType::Unsigned16 }
    open spec fn spec_decodable(data: Seq<u8>) -> bool { data.len() >= 2 }
    open spec fn spec_decodes_to(data: Seq<u8>, value: u16) -> bool { value == le_u16(data[0], data[1]) }
    open spec fn spec_encoding(value: u16) -> Seq<u8> { u16_le_bytes(value) }

    proof fn lemma_encoding_roundtrip(value: u16) {
        lemma_u16_le_roundtrip(value);
    }

    fn canopen_data_type() -> (r: DataType) {
        DataType::Unsigned16
    }

    fn from_canopen_bytes(data: &[u8]) -> (r: Result<u16>)
        ensures
            r matches Err(CANopenError::InvalidData(m)) ==> m@ == "Insufficient data for u16"@,
    {
        if data.len() < 2 {
            return Err(invalid_data("Insufficient data for u16"));
        }
        Ok(u16_from_le(data[0], data[1]))
    }

    fn to_canopen_bytes(&self) -> (r: Vec<u8>) {
        let mut out: Vec<u8> = Vec::new();
        push_u16_le(&mut out, *self);
        proof {
            assert(out@ =~= Self::spec_encoding(*self));
        }
        out
    }
}

impl CANopenData for i16 {
    open spec fn spec_data_type() -> DataType { DataType::Integer16 }
    open spec fn spec_decodable(data: Seq<u8>) -> bool { data.len() >= 2 }
    open spec fn spec_decodes_to(data: Seq<u8>, value: i16) -> bool {
        value == le_u16(data[0], data[1]) as i16
    }
    open spec fn spec_encoding(value: i16) -> Seq<u8> { u16_le_bytes(value as u16) }

    proof fn lemma_encoding_roundtrip(value: i16) {
        lemma_u16_le_roundtrip(value as u16);
        assert((value as u16) as i16 == value) by (bit_vector);
    }

    fn canopen_data_type() -> (r: DataType) {
        DataType::Integer16
    }

    fn from_canopen_bytes(data: &[u8]) -> (r: Result<i16>)
        ensures
            r matches Err(CANopenError::InvalidData(m)) ==> m@ == "Insufficient data for i16"@,
    {
        if data.len() < 2 {
            return Err(invalid_data("Insufficient data for i16"));
        }
        Ok(u16_from_le(data[0], data[1]) as i16)
    }

    fn to_canopen_bytes(&self) -> (r: Vec<u8>) {
        let mut out: Vec<u8> = Vec::new();
        push_u16_le(&mut out, *self as u16);
        proof {
            assert(out@ =~= Self::spec_encoding(*self));
        }
        out
    }
}

impl CANopenData for u32 {
    open spec fn spec_data_type() -> DataType { DataType::Unsigned32 }
    open spec fn spec_decodable(data: Seq<u8>) -> bool { data.len() >= 4 }
    open spec fn spec_decodes_to(data: Seq<u8>, value: u32) -> bool {
        value == le_u32(data[0], data[1], data[2], data[3])
    }
    open spec fn spec_encoding(value: u32) -> Seq<u8> { u32_le_bytes(value) }

    proof fn lemma_encoding_roundtrip(value: u32) {
        lemma_u32_le_roundtrip(value);
    }

    fn canopen_data_type() -> (r: DataType) {
        DataType::Unsigned32
    }

    fn from_canopen_bytes(data: &[u8]) -> (r: Result<u32>)
        ensures
            r matches Err(CANopenError::InvalidData(m)) ==> m@ == "Insufficient data for u32"@,
    {
        if data.len() < 4 {
            return Err(invalid_data("Insufficient data for u32"));
        }
        Ok(u32_from_le(data[0], data[1], data[2], data[3]))
    }

    fn to_canopen_bytes(&self) -> (r: Vec<u8>) {
        let mut out: Vec<u8> = Vec::new();
        push_u32_le(&mut out, *self);
        proof {
            assert(out@ =~= Self::spec_encoding(*self));
        }
        out
    }
}

impl CANopenData for i32 {
    open spec fn spec_data_type() -> DataType { DataType::Integer32 }
    open spec fn spec_decodable(data: Seq<u8>) -> bool { data.len() >= 4 }
    open spec fn spec_decodes_to(data: Seq<u8>, value: i32) -> bool {
        value == le_u32(data[0], data[1], data[2], data[3]) as i32
    }
    open spec fn spec_encoding(value: i32) -> Seq<u8> { u32_le_bytes(value as u32) }

    proof fn lemma_encoding_roundtrip(value: i32) {
        lemma_u32_le_roundtrip(value as u32);
        assert((value as u32) as i32 == value) by (bit_vector);
    }

    fn canopen_data_type() -> (r: DataType) {
        DataType::Integer32
    }

    fn from_canopen_bytes(data: &[u8]) -> (r: Result<i32>)
        ensures
            r matches Err(CANopenError::InvalidData(m)) ==> m@ == "Insufficient data for i32"@,
    {
        if data.len() < 4 {
            return Err(invalid_data("Insufficient data for i32"));
        }
        Ok(u32_from_le(data[0], data[1], data[2], data[3]) as i32)
    }

    fn to_canopen_bytes(&self) -> (r: Vec<u8>) {
        let mut out: Vec<u8> = Vec::new();
        push_u32_le(&mut out, *self as u32);
        proof {
            assert(out@ =~= Self::spec_encoding(*self));
        }
        out
    }
}

impl CANopenData for u64 {
    open spec fn spec_data_type() -> DataType { DataType::Unsigned64 }
    open spec fn spec_decodable(data: Seq<u8>) -> bool { data.len() >= 8 }
    open spec fn spec_decodes_to(data: Seq<u8>, value: u64) -> bool { value == le_u64(data) }
    open spec fn spec_encoding(value: u64) -> Seq<u8> { u64_le_bytes(value) }

    proof fn lemma_encoding_roundtrip(value: u64) {
        lemma_u64_le_roundtrip(value);
    }

    fn canopen_data_type() -> (r: DataType) {
        DataType::Unsigned64
    }

    fn from_canopen_bytes(data: &[u8]) -> (r: Result<u64>)
        ensures
            r matches Err(CANopenError::InvalidData(m)) ==> m@ == "Insufficient data for u64"@,
    {
        if data.len() < 8 {
            return Err(invalid_data("Insufficient data for u64"));
        }
        Ok(u64_from_le(data))
    }

    fn to_canopen_bytes(&self) -> (r: Vec<u8>) {
        let mut out: Vec<u8> = Vec::new();
        push_u64_le(&mut out, *self);
        proof {
            assert(out@ =~= Self::spec_encoding(*self));
        }
        out
    }
}

impl CANopenData for i64 {
    open spec fn spec_data_type() -> DataType { DataType::Integer64 }
    open spec fn spec_decodable(data: Seq<u8>) -> bool { data.len() >= 8 }
    open spec fn spec_decodes_to(data: Seq<u8>, value: i64) -> bool { value == le_u64(data) as i64 }
    open spec fn spec_encoding(value: i64) -> Seq<u8> { u64_le_bytes(value as u64) }

    proof fn lemma_encoding_roundtrip(value: i64) {
        lemma_u64_le_roundtrip(value as u64);
        assert((value as u64) as i64 == value) by (bit_vector);
    }

    fn canopen_data_type() -> (r: DataType) {
        DataType::Integer64
    }

    fn from_canopen_bytes(data: &[u8]) -> (r: Result<i64>)
        ensures
            r matches Err(CANopenError::InvalidData(m)) ==> m@ == "Insufficient data for i64"@,
    {
        if data.len() < 8 {
            return Err(invalid_data("Insufficient data for i64"));
        }
        Ok(u64_from_le(data) as i64)
    }

    fn to_canopen_bytes(&self) -> (r: Vec<u8>) {
        let mut out: Vec<u8> = Vec::new();
        push_u64_le(&mut out, *self as u64);
        proof {
            assert(out@ =~= Self::spec_encoding(*self));
        }
        out
    }
}

impl CANopenData for String {
    open spec fn spec_data_type() -> DataType { DataType::VisibleString }
    open spec fn spec_decodable(data: Seq<u8>) -> bool { valid_utf8(data) }
    open spec fn spec_decodes_to(data: Seq<u8>, value: String) -> bool { value@ == decode_utf8(data) }
    open spec fn spec_encoding(value: String) -> Seq<u8> { encode_utf8(value@) }

    proof fn lemma_encoding_roundtrip(value: String) {
    }

    fn canopen_data_type() -> (r: DataType) {
        DataType::VisibleString
    }

    fn from_canopen_bytes(data: &[u8]) -> (r: Result<String>)
        ensures
            r matches Err(CANopenError::InvalidData(m)) ==> "Invalid UTF-8 string: "@.is_prefix_of(m@),
    {
        match string_from_utf8(vstd::slice::slice_to_vec(data)) {
            Ok(s) => Ok(s),
            Err(e) => {
                let mut msg = String::from_str("Invalid UTF-8 string: ");
                let ghost prefix = msg@;
                msg.append(utf8_error_text(&e).as_str());
                assert(prefix.is_prefix_of(msg@)) by {
                    assert(msg@.subrange(0, prefix.len() as int) =~= prefix);
                }
                Err(CANopenError::InvalidData(msg))
            },
        }
    }

    fn to_canopen_bytes(&self) -> (r: Vec<u8>) {
        vstd::slice::slice_to_vec(self.as_str().as_bytes())
    }
}

impl CANopenData for Vec<u8> {
    open spec fn spec_data_type() -> DataType { DataType::OctetString }
    open spec fn spec_decodable(data: Seq<u8>) -> bool { true }
    open spec fn spec_decodes_to(data: Seq<u8>, value: Vec<u8>) -> bool { value@ == data }
    open spec fn spec_encoding(value: Vec<u8>) -> Seq<u8> { value@ }

    proof fn lemma_encoding_roundtrip(value: Vec<u8>) {
    }

    fn canopen_data_type() -> (r: DataType) {
        DataType::OctetString
    }

    fn from_canopen_bytes(data: &[u8]) -> (r: Result<Vec<u8>>) {
        Ok(vstd::slice::slice_to_vec(data))
    }

    fn to_canopen_bytes(&self) -> (r: Vec<u8>) {
        vstd::slice::slice_to_vec(self.as_slice())
    }
}


/// The decimal digits of `n`.
pub open spec fn spec_decimal(n: nat) -> Seq<char>
    decreases n,
{
    if n < 10 {
        spec_hex_digit(n as int)
    } else {
        spec_decimal(n / 10) + spec_hex_digit((n % 10) as int)
    }
}

/// Append the decimal digits of `n` to `out`.
pub(crate) fn push_decimal(out: &mut String, n: usize)
    ensures
        final(out)@ == old(out)@ + spec_decimal(n as nat),
    decreases n,
{
    if n >= 10 {
        push_decimal(out, n / 10);
    }
    out.append(hex_digit((n % 10) as u16));
}

/// A payload fits a data type: a fixed-size type needs exactly its size,
/// and a visible string holds only printable ASCII (0x20 to 0x7E).
pub open spec fn spec_data_fits_type(data: Seq<u8>, t: DataType) -> bool {
    &&& (spec_data_type_size(t) matches Some(n) ==> data.len() == n)
    &&& (t is VisibleString ==> forall|i: int| 0 <= i < data.len() ==> 0x20 <= #[trigger] data[i] <= 0x7E)
}

/// The message of the error for data that does not fit its type.
pub open spec fn spec_fit_error_message(data: Seq<u8>, t: DataType) -> Seq<char> {
    match spec_data_type_size(t) {
        Some(n) if data.len() != n => "Data size mismatch: expected "@ + spec_decimal(n as nat)
            + " bytes for "@ + spec_data_type_name(t) + ", got "@ + spec_decimal(data.len()),
        _ => "VisibleString contains non-printable characters"@,
    }
}

/// The number of bytes that represent a value of the given type with its
/// zero high-order bytes left out (at least one): 16- and 32-bit integers
/// drop their trailing zero bytes, strings keep their length, and other
/// fixed-size types keep their size.
pub open spec fn spec_minimal_encoding_size(data: Seq<u8>, t: DataType) -> usize {
    if t is Unsigned16 || t is Integer16 {
        if data.len() >= 2 {
            if data[1] == 0 { 1 } else { 2 }
        } else {
            data.len() as usize
        }
    } else if t is Unsigned32 || t is Integer32 {
        if data.len() >= 4 {
            if data[3] != 0 { 4 } else if data[2] != 0 { 3 } else if data[1] != 0 { 2 } else { 1 }
        } else {
            data.len() as usize
        }
    } else if t is VisibleString || t is OctetString || t is UnicodeString {
        data.len() as usize
    } else {
        match spec_data_type_size(t) {
            Some(n) => n,
            None => data.len() as usize,
        }
    }
}

/// Checks and conversions of raw data against data types.
pub struct DataTypeConverter;

impl DataTypeConverter {
    /// Check that `data` fits `expected_type`; the error says why not.
    pub fn validate_data_type(data: &[u8], expected_type: DataType) -> (r: Result<()>)
        ensures
            r is Ok <==> spec_data_fits_type(data@, expected_type),
            r matches Err(e) ==> e is InvalidData,
            r matches Err(CANopenError::InvalidData(m)) ==> m@ == spec_fit_error_message(data@, expected_type),
    {
        if let Some(expected_size) = expected_type.size_bytes() {
            if data.len() != expected_size {
                let mut msg = String::from_str("Data size mismatch: expected ");
                push_decimal(&mut msg, expected_size);
                msg.append(" bytes for ");
                msg.append(expected_type.name());
                msg.append(", got ");
                push_decimal(&mut msg, data.len());
                return Err(CANopenError::InvalidData(msg));
            }
        }
        if let DataType::VisibleString = expected_type {
            let mut i: usize = 0;
            while i < data.len()
                invariant
                    i <= data@.len(),
                    expected_type is VisibleString,
                    forall|j: int| 0 <= j < i ==> 0x20 <= #[trigger] data@[j] <= 0x7E,
                decreases data@.len() - i,
            {
                let byte = data[i];
                if byte < 0x20 || byte > 0x7E {
                    assert(!(0x20 <= data@[i as int] <= 0x7E));

                    return Err(invalid_data("VisibleString contains non-printable characters"));
                }
                i = i + 1;
            }
        }
        Ok(())
    }

    /// Check `data` against `T`'s data type, then decode it.
    pub fn convert_to_type<T: CANopenData>(data: &[u8]) -> (r: Result<T>)
        ensures
            r is Ok <==> (spec_data_fits_type(data@, T::spec_data_type()) && T::spec_decodable(data@)),
            r matches Ok(v) ==> T::spec_decodes_to(data@, v),
            r matches Err(e) ==> e is InvalidData,
    {
        match Self::validate_data_type(data, T::canopen_data_type()) {
            Ok(()) => {},
            Err(e) => return Err(e),
        }
        T::from_canopen_bytes(data)
    }

    /// The wire bytes of `value`.
    pub fn convert_from_type<T: CANopenData>(value: &T) -> (r: Vec<u8>)
        ensures
            r@ == T::spec_encoding(*value),
    {
        value.to_canopen_bytes()
    }

    /// The minimal number of bytes that represent the value in `data`.
    pub fn get_minimal_encoding_size(data: &[u8], data_type: DataType) -> (r: usize)
        ensures
            r == spec_minimal_encoding_size(data@, data_type),
    {
        match data_type {
            DataType::Unsigned16 | DataType::Integer16 => {
                if data.len() >= 2 {
                    if data[1] == 0 { 1 } else { 2 }
                } else {
                    data.len()
                }
            },
            DataType::Unsigned32 | DataType::Integer32 => {
                if data.len() >= 4 {
                    let mut size: usize = 4;
                    let mut i: usize = 3;
                    while i >= 1
                        invariant_except_break
                            i <= 3,
                            data@.len() >= 4,
                            size == i + 1,
                            forall|j: int| i < j < 4 ==> data@[j] == 0,
                        ensures
                            size == i + 1,
                            i <= 3,
                            i == 0 || data@[i as int] != 0,
                            forall|j: int| i < j < 4 ==> data@[j] == 0,
                        decreases i,
                    {
                        if data[i] == 0 {
                            size = i;
                        } else {
                            break;
                        }
                        i = i - 1;
                    }
                    size
                } else {
                    data.len()
                }
            },
            DataType::VisibleString | DataType::OctetString | DataType::UnicodeString => data.len(),
            _ => match data_type.size_bytes() {
                Some(n) => n,
                None => data.len(),
            },
        }
    }
}

/// An object dictionary entry holding a typed value.
pub struct ObjectDictionaryEntry<T: CANopenData> {
    pub object_id: ObjectId,
    pub value: T,
}

impl<T: CANopenData> ObjectDictionaryEntry<T> {
    pub fn new(object_id: ObjectId, value: T) -> (r: ObjectDictionaryEntry<T>)
        ensures
            r.object_id == object_id,
            r.value == value,
    {
        ObjectDictionaryEntry { object_id, value }
    }

    /// The data type of the entry's value.
    pub fn data_type(&self) -> (r: DataType)
        ensures
            r == T::spec_data_type(),
    {
        T::canopen_data_type()
    }

    /// The wire bytes of the entry's value.
    pub fn to_bytes(&self) -> (r: Vec<u8>)
        ensures
            r@ == T::spec_encoding(self.value),
    {
        self.value.to_canopen_bytes()
    }

    /// An entry for `object_id` holding the value that `data` decodes to.
    pub fn from_bytes(object_id: ObjectId, data: &[u8]) -> (r: Result<ObjectDictionaryEntry<T>>)
        ensures
            r is Ok <==> T::spec_decodable(data@),
            r matches Ok(e) ==> e.object_id == object_id && T::spec_decodes_to(data@, e.value),
            r matches Err(e) ==> e is InvalidData,
    {
        match T::from_canopen_bytes(data) {
            Ok(value) => Ok(Self::new(object_id, value)),
            Err(e) => Err(e),
        }
    }
}

} // verus!
