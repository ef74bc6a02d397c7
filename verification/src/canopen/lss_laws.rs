//! Laws of LSS response decoding, stated over the bytes a slave sends.
use vstd::prelude::*;
use crate::canopen::le::{u32_le_bytes, lemma_u32_le_roundtrip};
use crate::canopen::lss::{
    spec_inquiry_value, spec_lss_command_code, spec_parse_lss_response, LssCommand, LssError,
    LssResponse,
};

verus! {

/// An inquiry response carries its value as the little-endian `u32` of
/// bytes 1 to 4, all four of them: a slave answering vendor-ID (0x5A),
/// product code (0x5B), revision number (0x5C) or serial number (0x5D)
/// inquiries with `v` is read back as `v`, whatever bytes follow.
pub proof fn lemma_inquiry_response_value(v: u32, rest: Seq<u8>)
    ensures
        spec_parse_lss_response(seq![0x5Au8] + u32_le_bytes(v) + rest) == Some(
            LssResponse::InquireVendorId(v),
        ),
        spec_parse_lss_response(seq![0x5Bu8] + u32_le_bytes(v) + rest) == Some(
            LssResponse::InquireProductCode(v),
        ),
        spec_parse_lss_response(seq![0x5Cu8] + u32_le_bytes(v) + rest) == Some(
            LssResponse::InquireRevisionNumber(v),
        ),
        spec_parse_lss_response(seq![0x5Du8] + u32_le_bytes(v) + rest) == Some(
            LssResponse::InquireSerialNumber(v),
        ),
{
    lemma_u32_le_roundtrip(v);
    let b = u32_le_bytes(v);
    let d1 = seq![0x5Au8] + b + rest;
    let d2 = seq![0x5Bu8] + b + rest;
    let d3 = seq![0x5Cu8] + b + rest;
    let d4 = seq![0x5Du8] + b + rest;
    assert(d1[1] == b[0] && d1[2] == b[1] && d1[3] == b[2] && d1[4] == b[3]);
    assert(d2[1] == b[0] && d2[2] == b[1] && d2[3] == b[2] && d2[4] == b[3]);
    assert(d3[1] == b[0] && d3[2] == b[1] && d3[3] == b[2] && d3[4] == b[3]);
    assert(d4[1] == b[0] && d4[2] == b[1] && d4[3] == b[2] && d4[4] == b[3]);
}

/// An inquiry response shorter than five bytes carries no value and is
/// rejected.
pub proof fn lemma_short_inquiry_response_rejected(cs: u8, d: Seq<u8>)
    requires
        0x5A <= cs <= 0x5D,
        1 <= d.len() < 5,
        d[0] == cs,
    ensures
        spec_parse_lss_response(d) is None,
{
}

/// A node-ID inquiry response (0x5E) carries the node-ID in byte 1.
pub proof fn lemma_node_id_inquiry_response(node_id: u8, rest: Seq<u8>)
    ensures
        spec_parse_lss_response(seq![0x5Eu8, node_id] + rest) == Some(
            LssResponse::InquireNodeId(node_id),
        ),
{
    let d = seq![0x5Eu8, node_id] + rest;
    assert(d[0] == 0x5Eu8 && d[1] == node_id);
}

/// The result byte of a configuration response: 0 success, 1 unsupported
/// command, 2 media access failure, 3 invalid parameter, anything else
/// manufacturer specific.
pub open spec fn lss_result_of(e: u8) -> LssError {
    if e == 0 {
        LssError::Success
    } else if e == 1 {
        LssError::UnsupportedCommand
    } else if e == 2 {
        LssError::MediaAccessFailure
    } else if e == 3 {
        LssError::InvalidParameter
    } else {
        LssError::ManufacturerSpecific
    }
}

/// Configure-node-ID (0x11), configure-bit-timing (0x13) and
/// store-configuration (0x17) responses report the result byte 1 stands
/// for.
pub proof fn lemma_configuration_response_result(e: u8, rest: Seq<u8>)
    ensures
        spec_parse_lss_response(seq![0x11u8, e] + rest) == Some(
            LssResponse::ConfigureNodeId(lss_result_of(e)),
        ),
        spec_parse_lss_response(seq![0x13u8, e] + rest) == Some(
            LssResponse::ConfigureBitRate(lss_result_of(e)),
        ),
        spec_parse_lss_response(seq![0x17u8, e] + rest) == Some(
            LssResponse::StoreConfiguration(lss_result_of(e)),
        ),
{
    let d1 = seq![0x11u8, e] + rest;
    let d2 = seq![0x13u8, e] + rest;
    let d3 = seq![0x17u8, e] + rest;
    assert(d1[0] == 0x11u8 && d1[1] == e);
    assert(d2[0] == 0x13u8 && d2[1] == e);
    assert(d3[0] == 0x17u8 && d3[1] == e);
}

/// An inquiry answered by a slave that echoes the request's command
/// specifier with value `v` yields `v` as the answer to that inquiry, for
/// each of the vendor-ID, product-code, revision-number and serial-number
/// inquiries.
pub proof fn lemma_inquiry_request_answered(command: LssCommand, v: u32, rest: Seq<u8>)
    requires
        command == LssCommand::InquireVendorId || command == LssCommand::InquireProductCode
            || command == LssCommand::InquireRevisionNumber || command
            == LssCommand::InquireSerialNumber,
    ensures
        spec_parse_lss_response(seq![spec_lss_command_code(command)] + u32_le_bytes(v) + rest) matches Some(
            resp,
        ) && spec_inquiry_value(command, resp) == Some(v),
{
    lemma_inquiry_response_value(v, rest);
}

} // verus!
