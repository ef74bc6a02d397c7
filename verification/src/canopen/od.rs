//! Object dictionary vocabulary: object identifiers, CiA 301 data types,
//! access types, PDO mapping entries and SDO abort codes.
use vstd::prelude::*;
use vstd::string::StringExecFns;

pub mod device_profile;
pub mod standard_objects;

verus! {

/// Object dictionary index.
pub type ObjectIndex = u16;

/// Object dictionary sub-index.
pub type ObjectSubIndex = u8;

/// An object dictionary entry: index and sub-index.
#[derive(Debug, Clone, Copy, PartialEq, Eq, Hash, Structural)]
pub struct ObjectId {
    pub index: ObjectIndex,
    pub subindex: ObjectSubIndex,
}

/// The upper-case hexadecimal digit of `d` (0 to 15).
pub open spec fn spec_hex_digit(d: int) -> Seq<char> {
    if d == 0 { "0"@ }
    else if d == 1 { "1"@ }
    else if d == 2 { "2"@ }
    else if d == 3 { "3"@ }
    else if d == 4 { "4"@ }
    else if d == 5 { "5"@ }
    else if d == 6 { "6"@ }
    else if d == 7 { "7"@ }
    else if d == 8 { "8"@ }
    else if d == 9 { "9"@ }
    else if d == 10 { "A"@ }
    else if d == 11 { "B"@ }
    else if d == 12 { "C"@ }
    else if d == 13 { "D"@ }
    else if d == 14 { "E"@ }
    else { "F"@ }
}

/// `0x` followed by the index as 4 hex digits, `:`, and the sub-index as 2
/// hex digits, as in `0x1000:00`.
pub open spec fn spec_object_id_text(index: u16, subindex: u8) -> Seq<char> {
    "0x"@ + spec_hex_digit((index / 4096) as int) + spec_hex_digit(((index / 256) % 16) as int)
        + spec_hex_digit(((index / 16) % 16) as int) + spec_hex_digit((index % 16) as int) + ":"@
        + spec_hex_digit((subindex / 16) as int) + spec_hex_digit((subindex % 16) as int)
}

/// The hexadecimal digit of `d` as a one-character string.
pub(crate) fn hex_digit(d: u16) -> (r: &'static str)
    requires
        d < 16,
    ensures
        r@ == spec_hex_digit(d as int),
{
    if d == 0 { "0" }
    else if d == 1 { "1" }
    else if d == 2 { "2" }
    else if d == 3 { "3" }
    else if d == 4 { "4" }
    else if d == 5 { "5" }
    else if d == 6 { "6" }
    else if d == 7 { "7" }
    else if d == 8 { "8" }
    else if d == 9 { "9" }
    else if d == 10 { "A" }
    else if d == 11 { "B" }
    else if d == 12 { "C" }
    else if d == 13 { "D" }
    else if d == 14 { "E" }
    else { "F" }
}

impl ObjectId {
    pub fn new(index: ObjectIndex, subindex: ObjectSubIndex) -> (r: ObjectId)
        ensures
            r.index == index,
            r.subindex == subindex,
    {
        ObjectId { index, subindex }
    }

    /// The text form `0xIIII:SS` (upper-case hex).
    pub fn to_string(&self) -> (r: String)
        ensures
            r@ == spec_object_id_text(self.index, self.subindex),
    {
        let i = self.index;
        let s = self.subindex as u16;
        let mut out = String::from_str("0x");
        out.append(hex_digit(i / 4096));
        out.append(hex_digit((i / 256) % 16));
        out.append(hex_digit((i / 16) % 16));
        out.append(hex_digit(i % 16));
        out.append(":");
        out.append(hex_digit(s / 16));
        out.append(hex_digit(s % 16));
        out
    }
}

/// CANopen data types (CiA 301).
#[derive(Debug, Clone, Copy, PartialEq, Eq, Structural)]
pub enum DataType {
    Boolean,
    Integer8,
    Integer16,
    Integer32,
    Unsigned8,
    Unsigned16,
    Unsigned32,
    Real32,
    VisibleString,
    OctetString,
    UnicodeString,
    TimeOfDay,
    TimeDifference,
    Domain,
    Integer24,
    Real64,
    Integer40,
    Integer48,
    Integer56,
    Integer64,
    Unsigned24,
    Unsigned40,
    Unsigned48,
    Unsigned56,
    Unsigned64,
}

/// The CiA 301 type code of each data type.
pub open spec fn spec_data_type_code(t: DataType) -> u8 {
    match t {
        DataType::Boolean => 0x01,
        DataType::Integer8 => 0x02,
        DataType::Integer16 => 0x03,
        DataType::Integer32 => 0x04,
        DataType::Unsigned8 => 0x05,
        DataType::Unsigned16 => 0x06,
        DataType::Unsigned32 => 0x07,
        DataType::Real32 => 0x08,
        DataType::VisibleString => 0x09,
        DataType::OctetString => 0x0A,
        DataType::UnicodeString => 0x0B,
        DataType::TimeOfDay => 0x0C,
        DataType::TimeDifference => 0x0D,
        DataType::Domain => 0x0F,
        DataType::Integer24 => 0x10,
        DataType::Real64 => 0x11,
        DataType::Integer40 => 0x12,
        DataType::Integer48 => 0x13,
        DataType::Integer56 => 0x14,
        DataType::Integer64 => 0x15,
        DataType::Unsigned24 => 0x16,
        DataType::Unsigned40 => 0x18,
        DataType::Unsigned48 => 0x19,
        DataType::Unsigned56 => 0x1A,
        DataType::Unsigned64 => 0x1B,
    }
}

/// The encoded size of each fixed-size type; `None` for the variable-length
/// types (strings and domains).
pub open spec fn spec_data_type_size(t: DataType) -> Option<usize> {
    match t {
        DataType::Boolean => Some(1usize),
        DataType::Integer8 => Some(1usize),
        DataType::Integer16 => Some(2usize),
        DataType::Integer32 => Some(4usize),
        DataType::Unsigned8 => Some(1usize),
        DataType::Unsigned16 => Some(2usize),
        DataType::Unsigned32 => Some(4usize),
        DataType::Real32 => Some(4usize),
        DataType::VisibleString => None,
        DataType::OctetString => None,
        DataType::UnicodeString => None,
        DataType::TimeOfDay => Some(6usize),
        DataType::TimeDifference => Some(6usize),
        DataType::Domain => None,
        DataType::Integer24 => Some(3usize),
        DataType::Real64 => Some(8usize),
        DataType::Integer40 => Some(5usize),
        DataType::Integer48 => Some(6usize),
        DataType::Integer56 => Some(7usize),
        DataType::Integer64 => Some(8usize),
        DataType::Unsigned24 => Some(3usize),
        DataType::Unsigned40 => Some(5usize),
        DataType::Unsigned48 => Some(6usize),
        DataType::Unsigned56 => Some(7usize),
        DataType::Unsigned64 => Some(8usize),
    }
}

/// The name of each data type, as its variant is written.
pub open spec fn spec_data_type_name(t: DataType) -> Seq<char> {
    match t {
        DataType::Boolean => "Boolean"@,
        DataType::Integer8 => "Integer8"@,
        DataType::Integer16 => "Integer16"@,
        DataType::Integer32 => "Integer32"@,
        DataType::Unsigned8 => "Unsigned8"@,
        DataType::Unsigned16 => "Unsigned16"@,
        DataType::Unsigned32 => "Unsigned32"@,
        DataType::Real32 => "Real32"@,
        DataType::VisibleString => "VisibleString"@,
        DataType::OctetString => "OctetString"@,
        DataType::UnicodeString => "UnicodeString"@,
        DataType::TimeOfDay => "TimeOfDay"@,
        DataType::TimeDifference => "TimeDifference"@,
        DataType::Domain => "Domain"@,
        DataType::Integer24 => "Integer24"@,
        DataType::Real64 => "Real64"@,
        DataType::Integer40 => "Integer40"@,
        DataType::Integer48 => "Integer48"@,
        DataType::Integer56 => "Integer56"@,
        DataType::Integer64 => "Integer64"@,
        DataType::Unsigned24 => "Unsigned24"@,
        DataType::Unsigned40 => "Unsigned40"@,
        DataType::Unsigned48 => "Unsigned48"@,
        DataType::Unsigned56 => "Unsigned56"@,
        DataType::Unsigned64 => "Unsigned64"@,
    }
}

impl DataType {
    /// The CiA 301 type code.
    pub fn code(self) -> (r: u8)
        ensures
            r == spec_data_type_code(self),
    {
        match self {
            DataType::Boolean => 0x01,
            DataType::Integer8 => 0x02,
            DataType::Integer16 => 0x03,
            DataType::Integer32 => 0x04,
            DataType::Unsigned8 => 0x05,
            DataType::Unsigned16 => 0x06,
            DataType::Unsigned32 => 0x07,
            DataType::Real32 => 0x08,
            DataType::VisibleString => 0x09,
            DataType::OctetString => 0x0A,
            DataType::UnicodeString => 0x0B,
            DataType::TimeOfDay => 0x0C,
            DataType::TimeDifference => 0x0D,
            DataType::Domain => 0x0F,
            DataType::Integer24 => 0x10,
            DataType::Real64 => 0x11,
            DataType::Integer40 => 0x12,
            DataType::Integer48 => 0x13,
            DataType::Integer56 => 0x14,
            DataType::Integer64 => 0x15,
            DataType::Unsigned24 => 0x16,
            DataType::Unsigned40 => 0x18,
            DataType::Unsigned48 => 0x19,
            DataType::Unsigned56 => 0x1A,
            DataType::Unsigned64 => 0x1B,
        }
    }

    /// The name of the data type, as its variant is written.
    pub fn name(&self) -> (r: &'static str)
        ensures
            r@ == spec_data_type_name(*self),
    {
        match self {
            DataType::Boolean => "Boolean",
            DataType::Integer8 => "Integer8",
            DataType::Integer16 => "Integer16",
            DataType::Integer32 => "Integer32",
            DataType::Unsigned8 => "Unsigned8",
            DataType::Unsigned16 => "Unsigned16",
            DataType::Unsigned32 => "Unsigned32",
            DataType::Real32 => "Real32",
            DataType::VisibleString => "VisibleString",
            DataType::OctetString => "OctetString",
            DataType::UnicodeString => "UnicodeString",
            DataType::TimeOfDay => "TimeOfDay",
            DataType::TimeDifference => "TimeDifference",
            DataType::Domain => "Domain",
            DataType::Integer24 => "Integer24",
            DataType::Real64 => "Real64",
            DataType::Integer40 => "Integer40",
            DataType::Integer48 => "Integer48",
            DataType::Integer56 => "Integer56",
            DataType::Integer64 => "Integer64",
            DataType::Unsigned24 => "Unsigned24",
            DataType::Unsigned40 => "Unsigned40",
            DataType::Unsigned48 => "Unsigned48",
            DataType::Unsigned56 => "Unsigned56",
            DataType::Unsigned64 => "Unsigned64",
        }
    }

    /// The size in bytes of a fixed-size type; `None` for variable length.
    pub fn size_bytes(&self) -> (r: Option<usize>)
        ensures
            r == spec_data_type_size(*self),
    {
        match self {
            DataType::Boolean => Some(1),
            DataType::Integer8 => Some(1),
            DataType::Integer16 => Some(2),
            DataType::Integer32 => Some(4),
            DataType::Unsigned8 => Some(1),
            DataType::Unsigned16 => Some(2),
            DataType::Unsigned32 => Some(4),
            DataType::Real32 => Some(4),
            DataType::VisibleString => None,
            DataType::OctetString => None,
            DataType::UnicodeString => None,
            DataType::TimeOfDay => Some(6),
            DataType::TimeDifference => Some(6),
            DataType::Domain => None,
            DataType::Integer24 => Some(3),
            DataType::Real64 => Some(8),
            DataType::Integer40 => Some(5),
            DataType::Integer48 => Some(6),
            DataType::Integer56 => Some(7),
            DataType::Integer64 => Some(8),
            DataType::Unsigned24 => Some(3),
            DataType::Unsigned40 => Some(5),
            DataType::Unsigned48 => Some(6),
            DataType::Unsigned56 => Some(7),
            DataType::Unsigned64 => Some(8),
        }
    }

    /// Visible and Unicode strings.
    pub fn is_string(&self) -> (r: bool)
        ensures
            r == (*self is VisibleString || *self is UnicodeString),
    {
        match self {
            DataType::VisibleString | DataType::UnicodeString => true,
            _ => false,
        }
    }

    /// The signed integer types.
    pub fn is_integer(&self) -> (r: bool)
        ensures
            r == (*self is Integer8 || *self is Integer16 || *self is Integer24 || *self is Integer32
                || *self is Integer40 || *self is Integer48 || *self is Integer56 || *self is Integer64),
    {
        match self {
            DataType::Integer8 | DataType::Integer16 | DataType::Integer24 | DataType::Integer32
            | DataType::Integer40 | DataType::Integer48 | DataType::Integer56
            | DataType::Integer64 => true,
            _ => false,
        }
    }

    /// The unsigned integer types.
    pub fn is_unsigned(&self) -> (r: bool)
        ensures
            r == (*self is Unsigned8 || *self is Unsigned16 || *self is Unsigned24 || *self is Unsigned32
                || *self is Unsigned40 || *self is Unsigned48 || *self is Unsigned56 || *self is Unsigned64),
    {
        match self {
            DataType::Unsigned8 | DataType::Unsigned16 | DataType::Unsigned24 | DataType::Unsigned32
            | DataType::Unsigned40 | DataType::Unsigned48 | DataType::Unsigned56
            | DataType::Unsigned64 => true,
            _ => false,
        }
    }

    /// The floating-point types.
    pub fn is_real(&self) -> (r: bool)
        ensures
            r == (*self is Real32 || *self is Real64),
    {
        match self {
            DataType::Real32 | DataType::Real64 => true,
            _ => false,
        }
    }
}

/// Access types of object dictionary entries.
#[derive(Debug, Clone, Copy, PartialEq, Eq, Structural)]
pub enum AccessType {
    ReadOnly,
    WriteOnly,
    ReadWrite,
    /// Read/write only in the pre-operational state.
    ReadWriteOnPreOp,
    /// Read/write only during setup.
    ReadWriteOnSetup,
    Constant,
}

/// One entry of a PDO mapping: the mapped object and its length in bits.
#[derive(Debug, Clone, Copy, PartialEq, Eq, Structural)]
pub struct PdoMapping {
    pub index: ObjectIndex,
    pub subindex: ObjectSubIndex,
    pub bit_length: u8,
}

/// The 32-bit mapping value: index in bits 16-31, sub-index in bits 8-15,
/// bit length in bits 0-7.
pub open spec fn spec_pdo_mapping_value(index: u16, subindex: u8, bit_length: u8) -> int {
    index * 0x10000 + subindex * 0x100 + bit_length
}

/// The mapping entry that a 32-bit mapping value describes.
pub open spec fn spec_pdo_mapping_decode(value: u32) -> PdoMapping {
    PdoMapping {
        index: (value / 0x10000) as u16,
        subindex: ((value / 0x100) % 0x100) as u8,
        bit_length: (value % 0x100) as u8,
    }
}

impl PdoMapping {
    pub fn new(index: ObjectIndex, subindex: ObjectSubIndex, bit_length: u8) -> (r: PdoMapping)
        ensures
            r.index == index,
            r.subindex == subindex,
            r.bit_length == bit_length,
    {
        PdoMapping { index, subindex, bit_length }
    }

    /// Encode as the 32-bit mapping value.
    pub fn encode(&self) -> (r: u32)
        ensures
            r == spec_pdo_mapping_value(self.index, self.subindex, self.bit_length),
    {
        let i = self.index;
        let s = self.subindex;
        let b = self.bit_length;
        let r: u32 = ((i as u32) << 16) | ((s as u32) << 8) | (b as u32);
        assert(r == (i as u32) * 0x10000 + (s as u32) * 0x100 + b as u32) by (bit_vector)
            requires r == ((i as u32) << 16) | ((s as u32) << 8) | (b as u32);
        r
    }

    /// Decode a 32-bit mapping value.
    pub fn decode(value: u32) -> (r: PdoMapping)
        ensures
            r == spec_pdo_mapping_decode(value),
            spec_pdo_mapping_value(r.index, r.subindex, r.bit_length) == value,
    {
        let index: u16 = ((value >> 16) & 0xFFFF) as u16;
        let subindex: u8 = ((value >> 8) & 0xFF) as u8;
        let bit_length: u8 = (value & 0xFF) as u8;
        assert((index as u32) * 0x10000 + (subindex as u32) * 0x100 + bit_length as u32 == value)
            by (bit_vector)
            requires
                index == ((value >> 16) & 0xFFFF) as u16,
                subindex == ((value >> 8) & 0xFF) as u8,
                bit_length == (value & 0xFF) as u8;
        assert(index == value / 0x10000 && subindex == (value / 0x100) % 0x100
            && bit_length == value % 0x100) by (bit_vector)
            requires
                index == ((value >> 16) & 0xFFFF) as u16,
                subindex == ((value >> 8) & 0xFF) as u8,
                bit_length == (value & 0xFF) as u8;
        PdoMapping { index, subindex, bit_length }
    }
}

/// Decoding an encoded mapping entry gives the entry back.
pub proof fn lemma_pdo_mapping_roundtrip(m: PdoMapping)
    ensures
        0 <= spec_pdo_mapping_value(m.index, m.subindex, m.bit_length) <= u32::MAX,
        spec_pdo_mapping_decode(spec_pdo_mapping_value(m.index, m.subindex, m.bit_length) as u32) == m,
{
    let i = m.index;
    let s = m.subindex;
    let b = m.bit_length;
    let v: int = i * 0x10000 + s * 0x100 + b;
    assert(0 <= v <= u32::MAX);
    assert(v / 0x10000 == i && (v / 0x100) % 0x100 == s && v % 0x100 == b) by (nonlinear_arith)
        requires v == i * 0x10000 + s * 0x100 + b, 0 <= i < 0x10000, 0 <= s < 0x100, 0 <= b < 0x100;
}

/// SDO abort codes (CiA 301).
#[derive(Debug, Clone, Copy, PartialEq, Eq, Structural)]
pub enum SdoAbortCode {
    ToggleBitNotAlternated,
    SdoProtocolTimeout,
    CommandSpecifierInvalid,
    InvalidBlockSize,
    InvalidSequenceNumber,
    CrcError,
    OutOfMemory,
    UnsupportedAccess,
    AttemptReadWriteOnly,
    AttemptWriteReadOnly,
    ObjectNotExist,
    ObjectCannotMappedPdo,
    MappedObjectsExceedPdo,
    GeneralParameterIncompatibility,
    GeneralInternalIncompatibility,
    HardwareFault,
    TypeMismatch,
    DataTypeLengthTooHigh,
    DataTypeLengthTooLow,
    SubIndexNotExist,
    InvalidValue,
    ValueTooHigh,
    ValueTooLow,
    MaxLessMin,
    NoResourceAvailable,
    GeneralError,
    DataCannotTransferred,
    DataCannotTransferredLocalControl,
    DataCannotTransferredDeviceState,
    ObjectDictionaryNotPresent,
    NoDataAvailable,
}

/// The wire value of each abort code.
pub open spec fn spec_sdo_abort_value(c: SdoAbortCode) -> u32 {
    match c {
        SdoAbortCode::ToggleBitNotAlternated => 0x05030000,
        SdoAbortCode::SdoProtocolTimeout => 0x05040000,
        SdoAbortCode::CommandSpecifierInvalid => 0x05040001,
        SdoAbortCode::InvalidBlockSize => 0x05040002,
        SdoAbortCode::InvalidSequenceNumber => 0x05040003,
        SdoAbortCode::CrcError => 0x05040004,
        SdoAbortCode::OutOfMemory => 0x05040005,
        SdoAbortCode::UnsupportedAccess => 0x06010000,
        SdoAbortCode::AttemptReadWriteOnly => 0x06010001,
        SdoAbortCode::AttemptWriteReadOnly => 0x06010002,
        SdoAbortCode::ObjectNotExist => 0x06020000,
        SdoAbortCode::ObjectCannotMappedPdo => 0x06040041,
        SdoAbortCode::MappedObjectsExceedPdo => 0x06040042,
        SdoAbortCode::GeneralParameterIncompatibility => 0x06040043,
        SdoAbortCode::GeneralInternalIncompatibility => 0x06040047,
        SdoAbortCode::HardwareFault => 0x06060000,
        SdoAbortCode::TypeMismatch => 0x06070010,
        SdoAbortCode::DataTypeLengthTooHigh => 0x06070012,
        SdoAbortCode::DataTypeLengthTooLow => 0x06070013,
        SdoAbortCode::SubIndexNotExist => 0x06090011,
        SdoAbortCode::InvalidValue => 0x06090030,
        SdoAbortCode::ValueTooHigh => 0x06090031,
        SdoAbortCode::ValueTooLow => 0x06090032,
        SdoAbortCode::MaxLessMin => 0x06090036,
        SdoAbortCode::NoResourceAvailable => 0x060A0023,
        SdoAbortCode::GeneralError => 0x08000000,
        SdoAbortCode::DataCannotTransferred => 0x08000020,
        SdoAbortCode::DataCannotTransferredLocalControl => 0x08000021,
        SdoAbortCode::DataCannotTransferredDeviceState => 0x08000022,
        SdoAbortCode::ObjectDictionaryNotPresent => 0x08000023,
        SdoAbortCode::NoDataAvailable => 0x08000024,
    }
}

/// The abort code that a wire value names, if any.
pub open spec fn spec_sdo_abort_from(v: u32) -> Option<SdoAbortCode> {
    if v == 0x05030000 { Some(SdoAbortCode::ToggleBitNotAlternated) }
    else if v == 0x05040000 { Some(SdoAbortCode::SdoProtocolTimeout) }
    else if v == 0x05040001 { Some(SdoAbortCode::CommandSpecifierInvalid) }
    else if v == 0x05040002 { Some(SdoAbortCode::InvalidBlockSize) }
    else if v == 0x05040003 { Some(SdoAbortCode::InvalidSequenceNumber) }
    else if v == 0x05040004 { Some(SdoAbortCode::CrcError) }
    else if v == 0x05040005 { Some(SdoAbortCode::OutOfMemory) }
    else if v == 0x06010000 { Some(SdoAbortCode::UnsupportedAccess) }
    else if v == 0x06010001 { Some(SdoAbortCode::AttemptReadWriteOnly) }
    else if v == 0x06010002 { Some(SdoAbortCode::AttemptWriteReadOnly) }
    else if v == 0x06020000 { Some(SdoAbortCode::ObjectNotExist) }
    else if v == 0x06040041 { Some(SdoAbortCode::ObjectCannotMappedPdo) }
    else if v == 0x06040042 { Some(SdoAbortCode::MappedObjectsExceedPdo) }
    else if v == 0x06040043 { Some(SdoAbortCode::GeneralParameterIncompatibility) }
    else if v == 0x06040047 { Some(SdoAbortCode::GeneralInternalIncompatibility) }
    else if v == 0x06060000 { Some(SdoAbortCode::HardwareFault) }
    else if v == 0x06070010 { Some(SdoAbortCode::TypeMismatch) }
    else if v == 0x06070012 { Some(SdoAbortCode::DataTypeLengthTooHigh) }
    else if v == 0x06070013 { Some(SdoAbortCode::DataTypeLengthTooLow) }
    else if v == 0x06090011 { Some(SdoAbortCode::SubIndexNotExist) }
    else if v == 0x06090030 { Some(SdoAbortCode::InvalidValue) }
    else if v == 0x06090031 { Some(SdoAbortCode::ValueTooHigh) }
    else if v == 0x06090032 { Some(SdoAbortCode::ValueTooLow) }
    else if v == 0x06090036 { Some(SdoAbortCode::MaxLessMin) }
    else if v == 0x060A0023 { Some(SdoAbortCode::NoResourceAvailable) }
    else if v == 0x08000000 { Some(SdoAbortCode::GeneralError) }
    else if v == 0x08000020 { Some(SdoAbortCode::DataCannotTransferred) }
    else if v == 0x08000021 { Some(SdoAbortCode::DataCannotTransferredLocalControl) }
    else if v == 0x08000022 { Some(SdoAbortCode::DataCannotTransferredDeviceState) }
    else if v == 0x08000023 { Some(SdoAbortCode::ObjectDictionaryNotPresent) }
    else if v == 0x08000024 { Some(SdoAbortCode::NoDataAvailable) }
    else { None }
}

impl SdoAbortCode {
    /// The wire value.
    pub fn to_u32(self) -> (r: u32)
        ensures
            r == spec_sdo_abort_value(self),
    {
        match self {
            SdoAbortCode::ToggleBitNotAlternated => 0x05030000,
            SdoAbortCode::SdoProtocolTimeout => 0x05040000,
            SdoAbortCode::CommandSpecifierInvalid => 0x05040001,
            SdoAbortCode::InvalidBlockSize => 0x05040002,
            SdoAbortCode::InvalidSequenceNumber => 0x05040003,
            SdoAbortCode::CrcError => 0x05040004,
            SdoAbortCode::OutOfMemory => 0x05040005,
            SdoAbortCode::UnsupportedAccess => 0x06010000,
            SdoAbortCode::AttemptReadWriteOnly => 0x06010001,
            SdoAbortCode::AttemptWriteReadOnly => 0x06010002,
            SdoAbortCode::ObjectNotExist => 0x06020000,
            SdoAbortCode::ObjectCannotMappedPdo => 0x06040041,
            SdoAbortCode::MappedObjectsExceedPdo => 0x06040042,
            SdoAbortCode::GeneralParameterIncompatibility => 0x06040043,
            SdoAbortCode::GeneralInternalIncompatibility => 0x06040047,
            SdoAbortCode::HardwareFault => 0x06060000,
            SdoAbortCode::TypeMismatch => 0x06070010,
            SdoAbortCode::DataTypeLengthTooHigh => 0x06070012,
            SdoAbortCode::DataTypeLengthTooLow => 0x06070013,
            SdoAbortCode::SubIndexNotExist => 0x06090011,
            SdoAbortCode::InvalidValue => 0x06090030,
            SdoAbortCode::ValueTooHigh => 0x06090031,
            SdoAbortCode::ValueTooLow => 0x06090032,
            SdoAbortCode::MaxLessMin => 0x06090036,
            SdoAbortCode::NoResourceAvailable => 0x060A0023,
            SdoAbortCode::GeneralError => 0x08000000,
            SdoAbortCode::DataCannotTransferred => 0x08000020,
            SdoAbortCode::DataCannotTransferredLocalControl => 0x08000021,
            SdoAbortCode::DataCannotTransferredDeviceState => 0x08000022,
            SdoAbortCode::ObjectDictionaryNotPresent => 0x08000023,
            SdoAbortCode::NoDataAvailable => 0x08000024,
        }
    }

    /// The abort code that a wire value names; `None` for other values.
    pub fn from_u32(code: u32) -> (r: Option<SdoAbortCode>)
        ensures
            r == spec_sdo_abort_from(code),
    {
        if code == 0x05030000 { Some(SdoAbortCode::ToggleBitNotAlternated) }
        else if code == 0x05040000 { Some(SdoAbortCode::SdoProtocolTimeout) }
        else if code == 0x05040001 { Some(SdoAbortCode::CommandSpecifierInvalid) }
        else if code == 0x05040002 { Some(SdoAbortCode::InvalidBlockSize) }
        else if code == 0x05040003 { Some(SdoAbortCode::InvalidSequenceNumber) }
        else if code == 0x05040004 { Some(SdoAbortCode::CrcError) }
        else if code == 0x05040005 { Some(SdoAbortCode::OutOfMemory) }
        else if code == 0x06010000 { Some(SdoAbortCode::UnsupportedAccess) }
        else if code == 0x06010001 { Some(SdoAbortCode::AttemptReadWriteOnly) }
        else if code == 0x06010002 { Some(SdoAbortCode::AttemptWriteReadOnly) }
        else if code == 0x06020000 { Some(SdoAbortCode::ObjectNotExist) }
        else if code == 0x06040041 { Some(SdoAbortCode::ObjectCannotMappedPdo) }
        else if code == 0x06040042 { Some(SdoAbortCode::MappedObjectsExceedPdo) }
        else if code == 0x06040043 { Some(SdoAbortCode::GeneralParameterIncompatibility) }
        else if code == 0x06040047 { Some(SdoAbortCode::GeneralInternalIncompatibility) }
        else if code == 0x06060000 { Some(SdoAbortCode::HardwareFault) }
        else if code == 0x06070010 { Some(SdoAbortCode::TypeMismatch) }
        else if code == 0x06070012 { Some(SdoAbortCode::DataTypeLengthTooHigh) }
        else if code == 0x06070013 { Some(SdoAbortCode::DataTypeLengthTooLow) }
        else if code == 0x06090011 { Some(SdoAbortCode::SubIndexNotExist) }
        else if code == 0x06090030 { Some(SdoAbortCode::InvalidValue) }
        else if code == 0x06090031 { Some(SdoAbortCode::ValueTooHigh) }
        else if code == 0x06090032 { Some(SdoAbortCode::ValueTooLow) }
        else if code == 0x06090036 { Some(SdoAbortCode::MaxLessMin) }
        else if code == 0x060A0023 { Some(SdoAbortCode::NoResourceAvailable) }
        else if code == 0x08000000 { Some(SdoAbortCode::GeneralError) }
        else if code == 0x08000020 { Some(SdoAbortCode::DataCannotTransferred) }
        else if code == 0x08000021 { Some(SdoAbortCode::DataCannotTransferredLocalControl) }
        else if code == 0x08000022 { Some(SdoAbortCode::DataCannotTransferredDeviceState) }
        else if code == 0x08000023 { Some(SdoAbortCode::ObjectDictionaryNotPresent) }
        else if code == 0x08000024 { Some(SdoAbortCode::NoDataAvailable) }
        else { None }
    }
}

/// Every abort code is read back from its own wire value, and a wire value
/// that names an abort code is that code's value.
pub proof fn lemma_sdo_abort_roundtrip(c: SdoAbortCode, v: u32)
    ensures
        spec_sdo_abort_from(spec_sdo_abort_value(c)) == Some(c),
        spec_sdo_abort_from(v) == Some(c) ==> spec_sdo_abort_value(c) == v,
{
}

} // verus!
