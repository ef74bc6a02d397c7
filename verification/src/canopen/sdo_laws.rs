//! Laws of the SDO client protocol, stated over the frames a server sends
//! and the frames and outcomes the client answers with, byte by byte.
use vstd::prelude::*;
use crate::canopen::le::{le_u16, le_u32, u32_le_bytes, lemma_u32_le_roundtrip};
use crate::canopen::sdo::{
    lemma_download_segment_decodes, spec_initiate_frame, spec_sdo_transition, spec_segment_is_last,
    spec_segment_payload, spec_segment_toggle, SdoDirection, SdoOutcome, SdoState,
    SdoTransferType, SdoTransferView, SdoTransition,
};

verus! {

/// The upload segment response a server sends: command byte with the
/// toggle in bit 4, the number of unused bytes in bits 1-3 and the
/// last-segment flag in bit 0, then up to 7 payload bytes and zero padding.
pub open spec fn upload_segment_response(payload: Seq<u8>, toggle: bool, last: bool) -> Seq<u8> {
    seq![
        (if toggle { 0x10u8 } else { 0u8 }) | (((7 - payload.len()) as u8) << 1u8) | (if last {
            1u8
        } else {
            0u8
        }),
    ] + payload + Seq::new((7 - payload.len()) as nat, |i: int| 0u8)
}

/// Facts on the command byte of an upload segment response.
proof fn lemma_upload_segment_command(toggle: bool, unused: u8, last: bool)
    requires
        unused <= 7,
    ensures
        ({
            let cmd = (if toggle { 0x10u8 } else { 0u8 }) | (unused << 1u8) | (if last {
                1u8
            } else {
                0u8
            });
            &&& cmd & 0x80u8 == 0
            &&& cmd & 0x60u8 == 0
            &&& ((cmd & 0x10u8) != 0) == toggle
            &&& (cmd >> 1u8) & 7u8 == unused
            &&& ((cmd & 0x01u8) != 0) == last
        }),
{
    let t: u8 = if toggle { 0x10u8 } else { 0u8 };
    let l: u8 = if last { 1u8 } else { 0u8 };
    assert({
        let cmd = t | (unused << 1u8) | l;
        &&& cmd & 0x80u8 == 0
        &&& cmd & 0x60u8 == 0
        &&& ((cmd & 0x10u8) != 0) == (t == 0x10u8)
        &&& (cmd >> 1u8) & 7u8 == unused
        &&& ((cmd & 0x01u8) != 0) == (l == 1u8)
    }) by (bit_vector)
        requires
            unused <= 7,
            t == 0x10u8 || t == 0u8,
            l == 1u8 || l == 0u8,
    ;
}

/// During a segmented upload, a segment response with the toggle bit the
/// client asked for adds its payload to the data read. The last segment
/// completes the read with all of that data; any other segment makes the
/// client ask for the next segment with the toggle bit inverted
/// (`0x60`/`0x70`), so the toggle alternates from segment to segment.
pub proof fn lemma_upload_segment_accepted(t: SdoTransferView, payload: Seq<u8>, last: bool)
    requires
        t.direction == SdoDirection::Upload,
        t.state == SdoState::SegmentTransfer,
        payload.len() <= 7,
    ensures
        ({
            let tr = spec_sdo_transition(t, upload_segment_response(payload, t.toggle_bit, last));
            &&& tr.next.data_buffer == t.data_buffer + payload
            &&& tr.finished == last
            &&& if last {
                &&& tr.next.state == SdoState::Completed
                &&& tr.reply is None
                &&& tr.result == Some(SdoOutcome::Data(t.data_buffer + payload))
            } else {
                &&& tr.next.state == SdoState::SegmentTransfer
                &&& tr.result is None
                &&& tr.next.toggle_bit == !t.toggle_bit
                &&& tr.reply == Some(
                    seq![if t.toggle_bit { 0x60u8 } else { 0x70u8 }, 0u8, 0u8, 0u8, 0u8, 0u8, 0u8, 0u8],
                )
            }
        }),
{
    let d = upload_segment_response(payload, t.toggle_bit, last);
    let unused: u8 = (7 - payload.len()) as u8;
    lemma_upload_segment_command(t.toggle_bit, unused, last);
    assert(d.len() == 8);
    assert(d.subrange(1, 1 + payload.len() as int) =~= payload);
    let tr = spec_sdo_transition(t, d);
    if !last {
        assert(tr.reply == Some(
            seq![if t.toggle_bit { 0x60u8 } else { 0x70u8 }, 0u8, 0u8, 0u8, 0u8, 0u8, 0u8, 0u8],
        ));
    }
}

/// During a segmented upload, a segment response whose toggle bit is not
/// the one the client asked for aborts the read with code 0x05030000, and
/// the client sends the abort request for the object.
pub proof fn lemma_upload_segment_wrong_toggle(t: SdoTransferView, payload: Seq<u8>, last: bool)
    requires
        t.direction == SdoDirection::Upload,
        t.state == SdoState::SegmentTransfer,
        payload.len() <= 7,
    ensures
        ({
            let tr = spec_sdo_transition(t, upload_segment_response(payload, !t.toggle_bit, last));
            &&& tr.finished
            &&& tr.next.state == SdoState::Aborted
            &&& tr.result == Some(SdoOutcome::Abort(0x05030000))
            &&& tr.reply == Some(
                seq![
                    0x80u8,
                    (t.index % 256) as u8,
                    (t.index / 256) as u8,
                    t.subindex,
                    0x00u8,
                    0x00u8,
                    0x03u8,
                    0x05u8,
                ],
            )
        }),
{
    let d = upload_segment_response(payload, !t.toggle_bit, last);
    let unused: u8 = (7 - payload.len()) as u8;
    lemma_upload_segment_command(!t.toggle_bit, unused, last);
    assert(d.len() == 8);
    let code: u32 = 0x05030000;
    assert((code & 0xFF) as u8 == 0u8 && ((code >> 8) & 0xFF) as u8 == 0u8 && ((code >> 16) & 0xFF)
        as u8 == 3u8 && ((code >> 24) & 0xFF) as u8 == 5u8) by (bit_vector)
        requires
            code == 0x05030000u32,
    ;
}

/// During an expedited download, the server's confirmation (command byte
/// 0x60) completes the write: the transfer ends in `Completed`, the
/// requester gets an empty result and nothing more is sent.
pub proof fn lemma_expedited_download_confirmed(t: SdoTransferView, d: Seq<u8>)
    requires
        t.direction == SdoDirection::Download,
        t.state == SdoState::InitiateSent,
        t.transfer_type == SdoTransferType::Expedited,
        d.len() >= 1,
        d[0] == 0x60u8,
    ensures
        ({
            let tr = spec_sdo_transition(t, d);
            &&& tr.finished
            &&& tr.next.state == SdoState::Completed
            &&& tr.reply is None
            &&& tr.result == Some(SdoOutcome::Data(Seq::empty()))
        }),
{
    assert(0x60u8 & 0x80u8 == 0 && 0x60u8 & 0x60u8 == 0x60u8) by (bit_vector);
}

/// A server abort (command byte 0x80, abort code in bytes 4-7, little
/// endian) ends any transfer in `Aborted`, reports that abort code to the
/// requester and sends nothing back.
pub proof fn lemma_server_abort_ends_transfer(t: SdoTransferView, b1: u8, b2: u8, b3: u8, code: u32)
    ensures
        ({
            let tr = spec_sdo_transition(t, seq![0x80u8, b1, b2, b3] + u32_le_bytes(code));
            &&& tr.finished
            &&& tr.next.state == SdoState::Aborted
            &&& tr.reply is None
            &&& tr.result == Some(SdoOutcome::Abort(code))
        }),
{
    lemma_u32_le_roundtrip(code);
    let d = seq![0x80u8, b1, b2, b3] + u32_le_bytes(code);
    let b = u32_le_bytes(code);
    assert(d[0] == 0x80u8 && d[4] == b[0] && d[5] == b[1] && d[6] == b[2] && d[7] == b[3]);
    assert(0x80u8 & 0x80u8 != 0) by (bit_vector);
}

/// The expedited upload response a server sends for 1 to 4 bytes: command
/// byte 0x43 with the number of unused bytes in bits 2-3, the object
/// address, the data and zero padding.
pub open spec fn expedited_upload_response(index_lo: u8, index_hi: u8, subindex: u8, payload: Seq<u8>) -> Seq<u8> {
    seq![0x43u8 | (((4 - payload.len()) as u8) << 2u8), index_lo, index_hi, subindex] + payload
        + Seq::new((4 - payload.len()) as nat, |i: int| 0u8)
}

/// An expedited upload response with 1 to 4 data bytes completes the read
/// with exactly those bytes, and nothing more is sent.
pub proof fn lemma_expedited_upload_delivers(
    t: SdoTransferView,
    index_lo: u8,
    index_hi: u8,
    subindex: u8,
    payload: Seq<u8>,
)
    requires
        t.direction == SdoDirection::Upload,
        t.state == SdoState::InitiateSent,
        1 <= payload.len() <= 4,
    ensures
        ({
            let tr = spec_sdo_transition(t, expedited_upload_response(index_lo, index_hi, subindex, payload));
            &&& tr.finished
            &&& tr.next.state == SdoState::Completed
            &&& tr.reply is None
            &&& tr.result == Some(SdoOutcome::Data(payload))
        }),
{
    let d = expedited_upload_response(index_lo, index_hi, subindex, payload);
    let unused: u8 = (4 - payload.len()) as u8;
    let cmd: u8 = 0x43u8 | (unused << 2u8);
    assert(cmd & 0x80u8 == 0 && cmd & 0x43u8 == 0x43u8 && (cmd >> 2u8) & 3u8 == unused) by (bit_vector)
        requires
            cmd == 0x43u8 | (unused << 2u8),
            unused <= 3,
    ;
    assert(d[0] == cmd);
    assert(d.subrange(4, 4 + payload.len() as int) =~= payload);
}

/// A segmented upload initiate response (command byte 0x41) starts the
/// segment transfer with an empty buffer: the client asks for the first
/// segment with toggle bit 0 (`0x60`).
pub proof fn lemma_segmented_upload_starts(t: SdoTransferView, d: Seq<u8>)
    requires
        t.direction == SdoDirection::Upload,
        t.state == SdoState::InitiateSent,
        d.len() == 8,
        d[0] == 0x41u8,
    ensures
        ({
            let tr = spec_sdo_transition(t, d);
            &&& !tr.finished
            &&& tr.result is None
            &&& tr.next.state == SdoState::SegmentTransfer
            &&& tr.next.toggle_bit == false
            &&& tr.next.data_buffer == Seq::<u8>::empty()
            &&& tr.reply == Some(seq![0x60u8, 0u8, 0u8, 0u8, 0u8, 0u8, 0u8, 0u8])
        }),
{
    assert(0x41u8 & 0x80u8 == 0 && 0x41u8 & 0x43u8 != 0x43u8 && 0x41u8 & 0x41u8 == 0x41u8) by (bit_vector);
}

/// A segmented download initiate confirmation (command byte 0x60) starts
/// the segment transfer: the client sends the current segment of the data
/// (bytes 7 s to 7 s + 6 for segment s, or what is left) with toggle bit 0,
/// marked last exactly when no more data follows.
pub proof fn lemma_segmented_download_starts(t: SdoTransferView, d: Seq<u8>)
    requires
        t.direction == SdoDirection::Download,
        t.state == SdoState::InitiateSent,
        t.transfer_type == SdoTransferType::Segmented,
        7 * t.segment_index <= t.data_buffer.len(),
        d.len() >= 1,
        d[0] == 0x60u8,
    ensures
        ({
            let tr = spec_sdo_transition(t, d);
            let start = 7 * t.segment_index;
            let end = if t.data_buffer.len() <= start + 7 { t.data_buffer.len() as int } else { start + 7 };
            &&& !tr.finished
            &&& tr.result is None
            &&& tr.next.state == SdoState::SegmentTransfer
            &&& tr.next.toggle_bit == false
            &&& tr.reply matches Some(f) && spec_segment_payload(f) == t.data_buffer.subrange(start, end)
                && !spec_segment_toggle(f) && spec_segment_is_last(f) == (end == t.data_buffer.len())
        }),
{
    assert(0x60u8 & 0x80u8 == 0 && 0x60u8 & 0x60u8 == 0x60u8) by (bit_vector);
    lemma_download_segment_decodes(t.data_buffer, t.segment_index, false);
}

/// During a segmented download, the server's acknowledgement of a segment
/// with the expected toggle bit (command byte 0x20, or 0x30 with toggle 1)
/// moves to the next segment: when the data is all sent the write
/// completes with an empty result and nothing more is sent; otherwise the
/// client sends the next 7 bytes (or what is left) with the toggle bit
/// inverted, marked last exactly when no more data follows.
pub proof fn lemma_download_segment_acknowledged(t: SdoTransferView, d: Seq<u8>)
    requires
        t.direction == SdoDirection::Download,
        t.state == SdoState::SegmentTransfer,
        t.segment_index < 255,
        d.len() >= 1,
        d[0] == if t.toggle_bit { 0x30u8 } else { 0x20u8 },
    ensures
        ({
            let tr = spec_sdo_transition(t, d);
            let start = 7 * (t.segment_index + 1);
            let end = if t.data_buffer.len() <= start + 7 { t.data_buffer.len() as int } else { start + 7 };
            &&& tr.next.segment_index == t.segment_index + 1
            &&& if start >= t.data_buffer.len() {
                &&& tr.finished
                &&& tr.next.state == SdoState::Completed
                &&& tr.reply is None
                &&& tr.result == Some(SdoOutcome::Data(Seq::empty()))
            } else {
                &&& !tr.finished
                &&& tr.result is None
                &&& tr.next.state == SdoState::SegmentTransfer
                &&& tr.next.toggle_bit == !t.toggle_bit
                &&& tr.reply matches Some(f) && spec_segment_payload(f) == t.data_buffer.subrange(
                    start,
                    end,
                ) && spec_segment_toggle(f) == !t.toggle_bit && spec_segment_is_last(f) == (end
                    == t.data_buffer.len())
            }
        }),
{
    assert(0x30u8 & 0x80u8 == 0 && 0x30u8 & 0x20u8 == 0x20u8 && 0x30u8 & 0x10u8 != 0) by (bit_vector);
    assert(0x20u8 & 0x80u8 == 0 && 0x20u8 & 0x20u8 == 0x20u8 && 0x20u8 & 0x10u8 == 0) by (bit_vector);
    let seg: u8 = (t.segment_index + 1) as u8;
    if 7 * seg < t.data_buffer.len() {
        lemma_download_segment_decodes(t.data_buffer, seg, !t.toggle_bit);
    }
}

/// During a segmented download, an acknowledgement with the wrong toggle
/// bit aborts the write with code 0x05030000.
pub proof fn lemma_download_segment_wrong_toggle(t: SdoTransferView, d: Seq<u8>)
    requires
        t.direction == SdoDirection::Download,
        t.state == SdoState::SegmentTransfer,
        d.len() >= 1,
        d[0] == if t.toggle_bit { 0x20u8 } else { 0x30u8 },
    ensures
        ({
            let tr = spec_sdo_transition(t, d);
            &&& tr.finished
            &&& tr.next.state == SdoState::Aborted
            &&& tr.result == Some(SdoOutcome::Abort(0x05030000))
            &&& tr.reply == Some(
                seq![
                    0x80u8,
                    (t.index % 256) as u8,
                    (t.index / 256) as u8,
                    t.subindex,
                    0x00u8,
                    0x00u8,
                    0x03u8,
                    0x05u8,
                ],
            )
        }),
{
    assert(0x30u8 & 0x80u8 == 0 && 0x30u8 & 0x20u8 == 0x20u8 && 0x30u8 & 0x10u8 != 0) by (bit_vector);
    assert(0x20u8 & 0x80u8 == 0 && 0x20u8 & 0x20u8 == 0x20u8 && 0x20u8 & 0x10u8 == 0) by (bit_vector);
    let code: u32 = 0x05030000;
    assert((code & 0xFF) as u8 == 0u8 && ((code >> 8) & 0xFF) as u8 == 0u8 && ((code >> 16) & 0xFF)
        as u8 == 3u8 && ((code >> 24) & 0xFF) as u8 == 5u8) by (bit_vector)
        requires
            code == 0x05030000u32,
    ;
}

/// The transition of a transfer that takes the responses `ds` in turn,
/// up to the first one that ends it.
pub open spec fn transition_after(t: SdoTransferView, ds: Seq<Seq<u8>>) -> SdoTransition
    decreases ds.len(),
{
    if ds.len() == 0 {
        SdoTransition { next: t, reply: None, result: None, finished: false }
    } else {
        let tr = spec_sdo_transition(t, ds[0]);
        if tr.finished || ds.len() == 1 {
            tr
        } else {
            transition_after(tr.next, ds.drop_first())
        }
    }
}

/// The payloads `ps` one after the other.
pub open spec fn concat_all(ps: Seq<Seq<u8>>) -> Seq<u8>
    decreases ps.len(),
{
    if ps.len() == 0 {
        Seq::empty()
    } else {
        ps[0] + concat_all(ps.drop_first())
    }
}

/// The segments a server sends for the payloads `ps`, each answering the
/// client's request: the toggle bit alternates starting from `toggle`, and
/// only the final segment is marked last.
pub open spec fn upload_segments(ps: Seq<Seq<u8>>, toggle: bool) -> Seq<Seq<u8>> {
    Seq::new(
        ps.len(),
        |i: int|
            upload_segment_response(
                ps[i],
                if i % 2 == 0 { toggle } else { !toggle },
                i == ps.len() - 1,
            ),
    )
}

/// A segmented upload delivers any number of segments: when the server
/// answers each request with the toggle bit asked for, the read completes
/// with the data read so far followed by all the segments' payloads, in
/// order.
pub proof fn lemma_segmented_upload_delivers(t: SdoTransferView, ps: Seq<Seq<u8>>)
    requires
        t.direction == SdoDirection::Upload,
        t.state == SdoState::SegmentTransfer,
        ps.len() >= 1,
        forall|i: int| 0 <= i < ps.len() ==> (#[trigger] ps[i]).len() <= 7,
    ensures
        ({
            let tr = transition_after(t, upload_segments(ps, t.toggle_bit));
            &&& tr.finished
            &&& tr.next.state == SdoState::Completed
            &&& tr.result == Some(SdoOutcome::Data(t.data_buffer + concat_all(ps)))
        }),
    decreases ps.len(),
{
    let ds = upload_segments(ps, t.toggle_bit);
    let last = ps.len() == 1;
    assert(ds[0] == upload_segment_response(ps[0], t.toggle_bit, last));
    lemma_upload_segment_accepted(t, ps[0], last);
    let tr = spec_sdo_transition(t, ds[0]);
    if last {
        assert(concat_all(ps.drop_first()) =~= Seq::<u8>::empty());
        assert(concat_all(ps) =~= ps[0]);
    } else {
        let t2 = tr.next;
        let rest = ps.drop_first();
        assert forall|i: int| 0 <= i < rest.len() implies (#[trigger] rest[i]).len() <= 7 by {
            assert(rest[i] == ps[i + 1]);
        }
        lemma_segmented_upload_delivers(t2, rest);
        assert forall|i: int| 0 <= i < rest.len() implies #[trigger] ds.drop_first()[i]
            == upload_segments(rest, t2.toggle_bit)[i] by {
            assert((i + 1) % 2 == 0 <==> i % 2 != 0);
        }
        assert(ds.drop_first() =~= upload_segments(rest, t2.toggle_bit));
        assert(t.data_buffer + concat_all(ps) =~= t2.data_buffer + concat_all(rest));
    }
}

/// The request that opens a transfer addresses the object in bytes 1-3
/// (index little endian, then subindex). An upload asks with command byte
/// 0x40 and zeros. A download of 1 to 4 bytes carries them expedited in
/// bytes 4-7 (zero padded) with command byte 0x23 and the number of unused
/// bytes in bits 2-3; a longer download announces its size, little endian
/// in bytes 4-7, with command byte 0x21.
pub proof fn lemma_initiate_request(direction: SdoDirection, index: u16, subindex: u8, data: Seq<u8>)
    requires
        data.len() <= u32::MAX,
    ensures
        ({
            let f = spec_initiate_frame(direction, index, subindex, data);
            &&& f.len() == 8
            &&& le_u16(f[1], f[2]) == index
            &&& f[3] == subindex
            &&& direction == SdoDirection::Upload ==> f[0] == 0x40u8 && f[4] == 0u8 && f[5] == 0u8
                && f[6] == 0u8 && f[7] == 0u8
            &&& (direction == SdoDirection::Download && 1 <= data.len() <= 4) ==> {
                &&& f[0] & 0xF3u8 == 0x23u8
                &&& 4 - ((f[0] >> 2u8) & 3u8) == data.len()
                &&& f.subrange(4, 4 + data.len() as int) == data
                &&& forall|j: int| 4 + data.len() <= j < 8 ==> f[j] == 0u8
            }
            &&& (direction == SdoDirection::Download && data.len() > 4) ==> f[0] == 0x21u8 && le_u32(
                f[4],
                f[5],
                f[6],
                f[7],
            ) == data.len()
        }),
{
    let f = spec_initiate_frame(direction, index, subindex, data);
    let lo: u8 = (index % 256) as u8;
    let hi: u8 = (index / 256) as u8;
    assert(le_u16((index % 256) as u8, (index / 256) as u8) == index) by (bit_vector);
    if direction == SdoDirection::Download {
        if 1 <= data.len() <= 4 {
            let unused: u8 = (4 - data.len()) as u8;
            let cmd: u8 = 0x23u8 | (unused << 2u8);
            assert(cmd & 0xF3u8 == 0x23u8 && (cmd >> 2u8) & 3u8 == unused) by (bit_vector)
                requires
                    cmd == 0x23u8 | (unused << 2u8),
                    unused <= 3,
            ;
            assert(f[0] == cmd);
            assert(f.subrange(4, 4 + data.len() as int) =~= data);
        } else if data.len() > 4 {
            let size: usize = data.len() as usize;
            let v: u32 = data.len() as u32;
            assert(le_u32(
                (size & 0xFF) as u8,
                ((size >> 8) & 0xFF) as u8,
                ((size >> 16) & 0xFF) as u8,
                ((size >> 24) & 0xFF) as u8,
            ) == size) by (bit_vector)
                requires
                    size <= 0xFFFF_FFFFusize,
            ;
        }
    }
}

} // verus!
