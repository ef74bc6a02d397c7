//! Laws of emergency decoding, stated over the bytes of an EMCY frame.
use vstd::prelude::*;
use crate::canopen::le::{u16_le_bytes, lemma_u16_le_roundtrip};
use crate::canopen::emcy::{spec_emcy_decodes_to, spec_is_emcy_cob_id, EmergencyMessage};

verus! {

/// An EMCY frame from node 1 to 127 (COB-ID 0x080 + node-ID) carrying the
/// error code little endian in bytes 0-1, the error register in byte 2 and
/// five manufacturer bytes decodes to exactly those fields and that node.
pub proof fn lemma_emcy_frame_fields(
    node_id: u8,
    error_code: u16,
    error_register: u8,
    manufacturer: Seq<u8>,
    m: EmergencyMessage,
)
    requires
        1 <= node_id <= 127,
        manufacturer.len() == 5,
    ensures
        spec_is_emcy_cob_id((0x080 + node_id) as u16),
        spec_emcy_decodes_to(
            (0x080 + node_id) as u16,
            u16_le_bytes(error_code) + seq![error_register] + manufacturer,
            m,
        ) <==> (m.node_id == node_id && m.error_code == error_code && m.error_register
            == error_register && m.manufacturer_data@ == manufacturer),
{
    lemma_u16_le_roundtrip(error_code);
    let b = u16_le_bytes(error_code);
    let d = b + seq![error_register] + manufacturer;
    assert(d[0] == b[0] && d[1] == b[1] && d[2] == error_register);
    assert(d.subrange(3, 8) =~= manufacturer);
}

} // verus!
