//! Builders of the CAN frames of each CANopen service.
use vstd::prelude::*;
use crate::errors::{CANopenError, Result};
use crate::canopen::message::{CanMessage, NmtCommand, EmergencyErrorCode, spec_nmt_command_code,
    spec_emergency_error_code};
use crate::canopen::od::{ObjectId, SdoAbortCode, spec_sdo_abort_value};
use crate::canopen::le::{
    u16_le_bytes, u32_le_bytes, push_u16_le, push_u32_le, lemma_u16_le_roundtrip, lemma_u32_le_roundtrip,
};
use crate::canopen::emcy::{EmergencyMessage, spec_is_emcy_cob_id, spec_emcy_decodes_to};
use crate::canopen::sdo::{
    index_lo, index_hi, spec_upload_initiate_frame, spec_download_expedited_frame, spec_abort_frame,
    upload_initiate_frame, download_expedited_frame, abort_frame, SdoTransferView, SdoDirection,
    SdoState, SdoOutcome, spec_sdo_transition, spec_sdo_response_ok,
};
use vstd::string::StringExecFns;

verus! {

/// The `InvalidData` error with the given message.
fn invalid_data(msg: &str) -> (r: CANopenError)
    ensures
        r matches CANopenError::InvalidData(m) && m@ == msg@,
{
    CANopenError::InvalidData(String::from_str(msg))
}

/// Builder of NMT messages.
pub struct NmtMessageBuilder;

impl NmtMessageBuilder {
    /// NMT command for `node_id` (0 for all nodes) on COB-ID 0x000.
    pub fn command(node_id: u8, command: NmtCommand) -> (r: CanMessage)
        ensures
            r.id.0 == 0,
            r.data@ == seq![spec_nmt_command_code(command), node_id],
            !r.remote,
    {
        let data: Vec<u8> = vec![command.to_u8(), node_id];
        CanMessage::new_unchecked(0x000, data)
    }

    /// Node-guard request: an empty remote frame on COB-ID 0x700 + node-ID.
    pub fn node_guard_request(node_id: u8) -> (r: CanMessage)
        ensures
            r.id.0 == 0x700 + node_id,
            r.data@ == Seq::<u8>::empty(),
            r.remote,
    {
        CanMessage::with_timestamp(0x700 + node_id as u16, Vec::new(), true).unwrap()
    }

    /// Heartbeat carrying `state` on COB-ID 0x700 + node-ID.
    pub fn heartbeat(node_id: u8, state: u8) -> (r: CanMessage)
        ensures
            r.id.0 == 0x700 + node_id,
            r.data@ == seq![state],
            !r.remote,
    {
        let data: Vec<u8> = vec![state];
        CanMessage::new_unchecked(0x700 + node_id as u16, data)
    }
}

/// Upload response of an expedited transfer carrying up to 4 bytes.
pub open spec fn spec_upload_response_expedited_frame(index: u16, subindex: u8, data: Seq<u8>) -> Seq<u8> {
    seq![0x43u8 | (((4 - data.len()) as u8) << 2u8), index_lo(index), index_hi(index), subindex]
        + data + Seq::new((4 - data.len()) as nat, |i: int| 0u8)
}

/// An expedited upload response that a server builds for 1 to 4 bytes is
/// taken by a client upload waiting for it, and it completes the upload
/// with exactly those bytes.
pub proof fn lemma_expedited_upload_response_delivers(t: SdoTransferView, index: u16, subindex: u8,
    data: Seq<u8>)
    requires
        t.direction == SdoDirection::Upload,
        t.state == SdoState::InitiateSent,
        1 <= data.len() <= 4,
    ensures
        spec_sdo_response_ok(t, spec_upload_response_expedited_frame(index, subindex, data)),
        spec_sdo_transition(t, spec_upload_response_expedited_frame(index, subindex, data)).result
            == Some(SdoOutcome::Data(data)),
        spec_sdo_transition(t, spec_upload_response_expedited_frame(index, subindex, data)).finished,
{
    let frame = spec_upload_response_expedited_frame(index, subindex, data);
    let n: u8 = (4 - data.len()) as u8;
    let cmd: u8 = 0x43u8 | (n << 2u8);
    assert(frame[0] == cmd);
    assert(cmd & 0x80 == 0 && cmd & 0x43 == 0x43 && ((cmd >> 2u8) & 3u8) == n) by (bit_vector)
        requires
            cmd == 0x43u8 | (n << 2u8),
            n <= 3,
    ;
    assert(frame.len() == 8);
    assert(frame.subrange(4, 4 + data.len() as int) =~= data);
}

/// An abort that a server builds ends any active client transfer, which
/// reports exactly the abort code sent.
pub proof fn lemma_server_abort_delivers(t: SdoTransferView, index: u16, subindex: u8, code: SdoAbortCode)
    ensures
        spec_sdo_response_ok(t, spec_abort_frame(index, subindex, spec_sdo_abort_value(code))),
        spec_sdo_transition(t, spec_abort_frame(index, subindex, spec_sdo_abort_value(code))).result
            == Some(SdoOutcome::Abort(spec_sdo_abort_value(code))),
        spec_sdo_transition(t, spec_abort_frame(index, subindex, spec_sdo_abort_value(code))).finished,
{
    let v = spec_sdo_abort_value(code);
    lemma_u32_le_roundtrip(v);
    assert(0x80u8 & 0x80u8 != 0) by (bit_vector);
}

/// Download (write) confirmation.
pub open spec fn spec_download_response_frame(index: u16, subindex: u8) -> Seq<u8> {
    seq![0x60u8, index_lo(index), index_hi(index), subindex, 0u8, 0u8, 0u8, 0u8]
}

/// Segmented download initiate request announcing `size` bytes.
pub open spec fn spec_segmented_init_frame(index: u16, subindex: u8, size: u32) -> Seq<u8> {
    seq![0x21u8, index_lo(index), index_hi(index), subindex] + u32_le_bytes(size)
}

/// Download segment command byte: toggle in bit 4; for the last segment,
/// bit 0 and the number of unused bytes in bits 1-3.
pub open spec fn spec_download_segment_command(toggle: bool, last: bool, len: nat) -> u8 {
    (if toggle { 0x10u8 } else { 0u8 }) | (if last { 0x01u8 | (((7 - len) as u8) << 1u8) } else { 0u8 })
}

/// Download segment carrying up to 7 bytes, padded with zeros.
pub open spec fn spec_download_segment_builder_frame(toggle: bool, last: bool, data: Seq<u8>) -> Seq<u8> {
    seq![spec_download_segment_command(toggle, last, data.len())] + data
        + Seq::new((7 - data.len()) as nat, |i: int| 0u8)
}

/// `data` followed by zeros up to `n` bytes.
fn padded(data: &[u8], n: usize) -> (r: Vec<u8>)
    requires
        data@.len() <= n,
    ensures
        r@ == data@ + Seq::new((n - data@.len()) as nat, |i: int| 0u8),
{
    let mut out = vstd::slice::slice_to_vec(data);
    while out.len() < n
        invariant
            data@.len() <= out@.len() <= n,
            out@ == data@ + Seq::new((out@.len() - data@.len()) as nat, |i: int| 0u8),
        decreases n - out@.len(),
    {
        out.push(0);
        proof {
            assert(out@ =~= data@ + Seq::new((out@.len() - data@.len()) as nat, |i: int| 0u8));
        }
    }
    out
}

/// Builder of the SDO requests a client sends (COB-ID 0x600 + node-ID).
pub struct SdoClientMessageBuilder;

impl SdoClientMessageBuilder {
    /// Upload (read) request for `object_id`.
    pub fn upload_request(server_node_id: u8, object_id: ObjectId) -> (r: CanMessage)
        ensures
            r.id.0 == 0x600 + server_node_id,
            r.data@ == spec_upload_initiate_frame(object_id.index, object_id.subindex),
            !r.remote,
    {
        let data = upload_initiate_frame(object_id.index, object_id.subindex);
        CanMessage::new_unchecked(0x600 + server_node_id as u16, data)
    }

    /// Expedited download (write) of up to 4 bytes; longer data is refused.
    pub fn download_request_expedited(server_node_id: u8, object_id: ObjectId, data: &[u8]) -> (r:
        Result<CanMessage>)
        ensures
            r is Ok <==> data@.len() <= 4,
            r matches Ok(m) ==> m.id.0 == 0x600 + server_node_id && !m.remote && m.data@
                == spec_download_expedited_frame(object_id.index, object_id.subindex, data@),
            r matches Err(e) ==> (e matches CANopenError::InvalidData(msg)
                && msg@ == "Data too large for expedited transfer"@),
    {
        if data.len() > 4 {
            return Err(invalid_data("Data too large for expedited transfer"));
        }
        let frame = download_expedited_frame(object_id.index, object_id.subindex, data);
        Ok(CanMessage::new_unchecked(0x600 + server_node_id as u16, frame))
    }

    /// Segmented download initiate request announcing `data_size` bytes.
    pub fn download_request_segmented_init(server_node_id: u8, object_id: ObjectId, data_size: u32)
        -> (r: CanMessage)
        ensures
            r.id.0 == 0x600 + server_node_id,
            r.data@ == spec_segmented_init_frame(object_id.index, object_id.subindex, data_size),
            !r.remote,
    {
        let mut data: Vec<u8> = vec![0x21];
        push_u16_le(&mut data, object_id.index);
        data.push(object_id.subindex);
        push_u32_le(&mut data, data_size);
        proof {
            let i = object_id.index;
            assert(u16_le_bytes(i) =~= seq![index_lo(i), index_hi(i)]) by {
                assert((i & 0xff) as u8 == (i % 256) as u8 && ((i >> 8) & 0xff) as u8 == (i / 256) as u8)
                    by (bit_vector);
            }
            assert(data@ =~= spec_segmented_init_frame(object_id.index, object_id.subindex, data_size));
        }
        CanMessage::new_unchecked(0x600 + server_node_id as u16, data)
    }

    /// Download segment of up to 7 bytes; longer data is refused.
    pub fn download_segment(server_node_id: u8, toggle: bool, last_segment: bool, segment_data: &[u8])
        -> (r: Result<CanMessage>)
        ensures
            r is Ok <==> segment_data@.len() <= 7,
            r matches Ok(m) ==> m.id.0 == 0x600 + server_node_id && !m.remote && m.data@
                == spec_download_segment_builder_frame(toggle, last_segment, segment_data@),
            r matches Err(e) ==> (e matches CANopenError::InvalidData(msg)
                && msg@ == "Segment data too large"@),
    {
        if segment_data.len() > 7 {
            return Err(invalid_data("Segment data too large"));
        }
        let toggle_bits: u8 = if toggle { 0x10 } else { 0 };
        let last_bits: u8 = if last_segment {
            0x01 | (((7 - segment_data.len()) as u8) << 1u8)
        } else {
            0
        };
        let command: u8 = toggle_bits | last_bits;
        let mut msg_data: Vec<u8> = vec![command];
        let mut rest = padded(segment_data, 7);
        msg_data.append(&mut rest);
        proof {
            assert(msg_data@ =~= spec_download_segment_builder_frame(toggle, last_segment, segment_data@));
        }
        Ok(CanMessage::new_unchecked(0x600 + server_node_id as u16, msg_data))
    }

    /// Abort of the transfer of `object_id` with `abort_code`.
    pub fn abort_transfer(server_node_id: u8, object_id: ObjectId, abort_code: SdoAbortCode) -> (r: CanMessage)
        ensures
            r.id.0 == 0x600 + server_node_id,
            r.data@ == spec_abort_frame(object_id.index, object_id.subindex, spec_sdo_abort_value(abort_code)),
            !r.remote,
    {
        let data = abort_frame(object_id.index, object_id.subindex, abort_code.to_u32());
        CanMessage::new_unchecked(0x600 + server_node_id as u16, data)
    }
}

/// Builder of the SDO responses a server sends (COB-ID 0x580 + node-ID).
pub struct SdoServerMessageBuilder;

impl SdoServerMessageBuilder {
    /// Expedited upload response carrying up to 4 bytes; longer data is
    /// refused.
    pub fn upload_response_expedited(client_node_id: u8, object_id: ObjectId, data: &[u8]) -> (r:
        Result<CanMessage>)
        ensures
            r is Ok <==> data@.len() <= 4,
            r matches Ok(m) ==> m.id.0 == 0x580 + client_node_id && !m.remote && m.data@
                == spec_upload_response_expedited_frame(object_id.index, object_id.subindex, data@),
            r matches Err(e) ==> (e matches CANopenError::InvalidData(msg)
                && msg@ == "Data too large for expedited transfer"@),
    {
        if data.len() > 4 {
            return Err(invalid_data("Data too large for expedited transfer"));
        }
        let n: u8 = (4 - data.len()) as u8;
        let command: u8 = 0x43 | (n << 2u8);
        let mut msg_data: Vec<u8> = vec![command, (object_id.index % 256) as u8,
            (object_id.index / 256) as u8, object_id.subindex];
        let mut rest = padded(data, 4);
        msg_data.append(&mut rest);
        proof {
            assert(msg_data@ =~= spec_upload_response_expedited_frame(object_id.index, object_id.subindex, data@));
        }
        Ok(CanMessage::new_unchecked(0x580 + client_node_id as u16, msg_data))
    }

    /// Download (write) confirmation for `object_id`.
    pub fn download_response(client_node_id: u8, object_id: ObjectId) -> (r: CanMessage)
        ensures
            r.id.0 == 0x580 + client_node_id,
            r.data@ == spec_download_response_frame(object_id.index, object_id.subindex),
            !r.remote,
    {
        let data: Vec<u8> = vec![0x60, (object_id.index % 256) as u8, (object_id.index / 256) as u8,
            object_id.subindex, 0, 0, 0, 0];
        proof {
            assert(data@ =~= spec_download_response_frame(object_id.index, object_id.subindex));
        }
        CanMessage::new_unchecked(0x580 + client_node_id as u16, data)
    }

    /// Abort of the transfer of `object_id` with `abort_code`.
    pub fn abort_transfer(client_node_id: u8, object_id: ObjectId, abort_code: SdoAbortCode) -> (r: CanMessage)
        ensures
            r.id.0 == 0x580 + client_node_id,
            r.data@ == spec_abort_frame(object_id.index, object_id.subindex, spec_sdo_abort_value(abort_code)),
            !r.remote,
    {
        let data = abort_frame(object_id.index, object_id.subindex, abort_code.to_u32());
        CanMessage::new_unchecked(0x580 + client_node_id as u16, data)
    }
}

/// The 8-byte emergency frame: error code (little-endian), error register,
/// and the 5 manufacturer-specific bytes.
pub open spec fn spec_emergency_frame(error_code: u16, error_register: u8, manufacturer: Seq<u8>) -> Seq<u8> {
    u16_le_bytes(error_code) + seq![error_register] + manufacturer
}

/// An emergency frame built for node 1 to 127 is accepted by the EMCY
/// decoder on that node's COB-ID, and decodes to exactly the fields it was
/// built from.
pub proof fn lemma_emergency_frame_roundtrip(node_id: u8, error_code: u16, error_register: u8,
    manufacturer: Seq<u8>, m: EmergencyMessage)
    requires
        1 <= node_id <= 127,
        manufacturer.len() == 5,
    ensures
        spec_is_emcy_cob_id((0x080 + node_id) as u16),
        spec_emergency_frame(error_code, error_register, manufacturer).len() == 8,
        spec_emcy_decodes_to((0x080 + node_id) as u16, spec_emergency_frame(error_code, error_register,
            manufacturer), m) <==> (m.node_id == node_id && m.error_code == error_code
            && m.error_register == error_register && m.manufacturer_data@ == manufacturer),
{
    let frame = spec_emergency_frame(error_code, error_register, manufacturer);
    lemma_u16_le_roundtrip(error_code);
    assert(frame.subrange(3, 8) =~= manufacturer);
}

/// Builder of emergency messages.
pub struct EmergencyMessageBuilder;

impl EmergencyMessageBuilder {
    /// Emergency frame of `node_id` on COB-ID 0x080 + node-ID.
    pub fn emergency(node_id: u8, error_code: EmergencyErrorCode, error_register: u8,
        manufacturer_specific: &[u8; 5]) -> (r: CanMessage)
        ensures
            r.id.0 == 0x080 + node_id,
            r.data@ == spec_emergency_frame(spec_emergency_error_code(error_code), error_register,
                manufacturer_specific@),
            !r.remote,
    {
        let mut data: Vec<u8> = Vec::new();
        push_u16_le(&mut data, error_code.code());
        data.push(error_register);
        let mut i: usize = 0;
        while i < 5
            invariant
                i <= 5,
                data@ == u16_le_bytes(spec_emergency_error_code(error_code)) + seq![error_register]
                    + manufacturer_specific@.subrange(0, i as int),
            decreases 5 - i,
        {
            data.push(manufacturer_specific[i]);
            proof {
                assert(manufacturer_specific@.subrange(0, i + 1) =~= manufacturer_specific@.subrange(0, i as int)
                    .push(manufacturer_specific@[i as int]));
            }
            i = i + 1;
        }
        proof {
            assert(manufacturer_specific@.subrange(0, 5) =~= manufacturer_specific@);
            assert(data@ =~= spec_emergency_frame(spec_emergency_error_code(error_code), error_register,
                manufacturer_specific@));
        }
        CanMessage::new_unchecked(0x080 + node_id as u16, data)
    }
}

/// Base COB-ID of transmit PDO `n` (0 to 3): 0x180, 0x280, 0x380, 0x480.
pub open spec fn spec_tpdo_base(n: u8) -> u16 {
    (0x180 + n * 0x100) as u16
}

/// Base COB-ID of receive PDO `n` (0 to 3): 0x200, 0x300, 0x400, 0x500.
pub open spec fn spec_rpdo_base(n: u8) -> u16 {
    (0x200 + n * 0x100) as u16
}

/// Builder of PDO messages.
pub struct PdoMessageBuilder;

impl PdoMessageBuilder {
    /// Transmit PDO `pdo_number` (0 to 3) of `node_id`; refuses other PDO
    /// numbers and payloads longer than 8 bytes.
    pub fn tpdo(node_id: u8, pdo_number: u8, data: Vec<u8>) -> (r: Result<CanMessage>)
        ensures
            r is Ok <==> (pdo_number <= 3 && data@.len() <= 8),
            r matches Ok(m) ==> m.id.0 == spec_tpdo_base(pdo_number) + node_id && m.data@ == data@
                && !m.remote,
            r matches Err(e) ==> (e matches CANopenError::InvalidData(msg) && msg@ == if pdo_number > 3 {
                "PDO number must be 0-3"@
            } else {
                "PDO data too large"@
            }),
    {
        if pdo_number > 3 {
            return Err(invalid_data("PDO number must be 0-3"));
        }
        if data.len() > 8 {
            return Err(invalid_data("PDO data too large"));
        }
        let base: u16 = if pdo_number == 0 {
            0x180
        } else if pdo_number == 1 {
            0x280
        } else if pdo_number == 2 {
            0x380
        } else {
            0x480
        };
        Ok(CanMessage::new_unchecked(base + node_id as u16, data))
    }

    /// Receive PDO `pdo_number` (0 to 3) for `node_id`; refuses other PDO
    /// numbers and payloads longer than 8 bytes.
    pub fn rpdo(node_id: u8, pdo_number: u8, data: Vec<u8>) -> (r: Result<CanMessage>)
        ensures
            r is Ok <==> (pdo_number <= 3 && data@.len() <= 8),
            r matches Ok(m) ==> m.id.0 == spec_rpdo_base(pdo_number) + node_id && m.data@ == data@
                && !m.remote,
            r matches Err(e) ==> (e matches CANopenError::InvalidData(msg) && msg@ == if pdo_number > 3 {
                "PDO number must be 0-3"@
            } else {
                "PDO data too large"@
            }),
    {
        if pdo_number > 3 {
            return Err(invalid_data("PDO number must be 0-3"));
        }
        if data.len() > 8 {
            return Err(invalid_data("PDO data too large"));
        }
        let base: u16 = if pdo_number == 0 {
            0x200
        } else if pdo_number == 1 {
            0x300
        } else if pdo_number == 2 {
            0x400
        } else {
            0x500
        };
        Ok(CanMessage::new_unchecked(base + node_id as u16, data))
    }
}

/// Builder of SYNC messages.
pub struct SyncMessageBuilder;

impl SyncMessageBuilder {
    /// SYNC frame without counter on COB-ID 0x080.
    pub fn sync() -> (r: CanMessage)
        ensures
            r.id.0 == 0x080,
            r.data@ == Seq::<u8>::empty(),
            !r.remote,
    {
        CanMessage::new_unchecked(0x080, Vec::new())
    }

    /// SYNC frame carrying `counter` on COB-ID 0x080.
    pub fn sync_with_counter(counter: u8) -> (r: CanMessage)
        ensures
            r.id.0 == 0x080,
            r.data@ == seq![counter],
            !r.remote,
    {
        let data: Vec<u8> = vec![counter];
        CanMessage::new_unchecked(0x080, data)
    }
}

} // verus!
