//! SDO (Service Data Object) client protocol: request frames and the
//! per-transfer state machine of expedited and segmented transfers.
use vstd::prelude::*;
use crate::errors::CANopenError;
use crate::canopen::message::{CanMessage, MessageType, spec_message_type, spec_node_id};
use std::collections::HashMap;
use vstd::string::StringExecFns;
use crate::canopen::types::{spec_decimal, push_decimal};
use crate::canopen::le::{le_u16, le_u32, u16_from_le, u32_from_le};

verus! {

/// Direction of an SDO transfer, seen from the client.
#[derive(Debug, Clone, Copy, PartialEq, Eq, Structural)]
pub enum SdoDirection {
    /// Read from the server (device).
    Upload,
    /// Write to the server (device).
    Download,
}

/// State of an SDO transfer.
#[derive(Debug, Clone, Copy, PartialEq, Eq, Structural)]
pub enum SdoState {
    Idle,
    InitiateSent,
    SegmentTransfer,
    Completed,
    Aborted,
    Timeout,
}

/// SDO transfer type.
#[derive(Debug, Clone, Copy, PartialEq, Eq, Structural)]
pub enum SdoTransferType {
    /// Data fits in a single message (at most 4 bytes).
    Expedited,
    /// Data needs several messages.
    Segmented,
}

/// Abort code sent when the toggle bit does not alternate.
pub const SDO_ABORT_TOGGLE_BIT: u32 = 0x05030000;

/// Abort code reported when a transfer to the same node is already active.
pub const SDO_ABORT_COMMAND_SPECIFIER: u32 = 0x05040001;

/// Low byte of an object index.
pub open spec fn index_lo(index: u16) -> u8 {
    (index % 256) as u8
}

/// High byte of an object index.
pub open spec fn index_hi(index: u16) -> u8 {
    (index / 256) as u8
}

/// Upload (read) initiate request.
pub open spec fn spec_upload_initiate_frame(index: u16, subindex: u8) -> Seq<u8> {
    seq![0x40u8, index_lo(index), index_hi(index), subindex, 0u8, 0u8, 0u8, 0u8]
}

/// Number of data bytes that an expedited download carries.
pub open spec fn expedited_len(len: nat) -> nat {
    if len <= 4 {
        len
    } else {
        4
    }
}

/// Command byte of an expedited download of `len` bytes: `0x23` with the
/// number of unused bytes in bits 2-3.
pub open spec fn spec_expedited_command(len: nat) -> u8 {
    0x23u8 | (((4 - expedited_len(len)) as u8) << 2u8)
}

/// Expedited download initiate request carrying up to 4 bytes of `data`.
pub open spec fn spec_download_expedited_frame(index: u16, subindex: u8, data: Seq<u8>) -> Seq<u8> {
    Seq::new(
        8,
        |j: int|
            if j == 0 {
                spec_expedited_command(data.len())
            } else if j == 1 {
                index_lo(index)
            } else if j == 2 {
                index_hi(index)
            } else if j == 3 {
                subindex
            } else if j < 4 + expedited_len(data.len()) {
                data[j - 4]
            } else {
                0u8
            },
    )
}

/// Segmented download initiate request announcing `size` bytes.
pub open spec fn spec_download_segmented_frame(index: u16, subindex: u8, size: usize) -> Seq<u8> {
    seq![
        0x21u8,
        index_lo(index),
        index_hi(index),
        subindex,
        (size & 0xFF) as u8,
        ((size >> 8) & 0xFF) as u8,
        ((size >> 16) & 0xFF) as u8,
        ((size >> 24) & 0xFF) as u8,
    ]
}

/// Upload segment request with the given toggle bit.
pub open spec fn spec_upload_segment_request_frame(toggle: bool) -> Seq<u8> {
    seq![if toggle { 0x70u8 } else { 0x60u8 }, 0u8, 0u8, 0u8, 0u8, 0u8, 0u8, 0u8]
}

/// Abort request for an object with the given abort code.
pub open spec fn spec_abort_frame(index: u16, subindex: u8, code: u32) -> Seq<u8> {
    seq![
        0x80u8,
        index_lo(index),
        index_hi(index),
        subindex,
        (code & 0xFF) as u8,
        ((code >> 8) & 0xFF) as u8,
        ((code >> 16) & 0xFF) as u8,
        ((code >> 24) & 0xFF) as u8,
    ]
}

/// First byte of segment `seg` of a download of `len` bytes.
pub open spec fn segment_start(seg: u8) -> int {
    seg * 7
}

/// Number of bytes in segment `seg` of a download of `len` bytes.
pub open spec fn segment_len(len: nat, seg: u8) -> int {
    if len - segment_start(seg) <= 7 {
        len - segment_start(seg)
    } else {
        7
    }
}

/// Command byte of a download segment: toggle in bit 4, unused bytes in
/// bits 1-3, last-segment flag in bit 0.
pub open spec fn spec_segment_command(toggle: bool, last: bool, unused: u8) -> u8 {
    (if toggle { 0x10u8 } else { 0u8 }) | (if last { 1u8 } else { 0u8 }) | (unused << 1u8)
}

/// Download segment `seg` of `data` with the given toggle bit.
pub open spec fn spec_download_segment_frame(data: Seq<u8>, seg: u8, toggle: bool) -> Seq<u8> {
    let start = segment_start(seg);
    let n = segment_len(data.len(), seg);
    let last = data.len() - start <= 7;
    Seq::new(
        8,
        |j: int|
            if j == 0 {
                spec_segment_command(toggle, last, (7 - n) as u8)
            } else if j <= n {
                data[start + j - 1]
            } else {
                0u8
            },
    )
}

/// Builds a client-to-server SDO message for `node_id` (COB-ID 0x600 +
/// node-ID).
pub fn sdo_request_message(node_id: u8, data: Vec<u8>) -> (r: CanMessage)
    ensures
        r.id.0 == 0x600 + node_id,
        r.data@ == data@,
        !r.remote,
{
    CanMessage::new_unchecked(0x600 + node_id as u16, data)
}

/// Upload (read) initiate request for `index:subindex`.
pub fn upload_initiate_frame(index: u16, subindex: u8) -> (r: Vec<u8>)
    ensures
        r@ == spec_upload_initiate_frame(index, subindex),
{
    let r: Vec<u8> = vec![0x40, (index % 256) as u8, (index / 256) as u8, subindex, 0, 0, 0, 0];
    proof {
        assert(r@ =~= spec_upload_initiate_frame(index, subindex));
    }
    r
}

/// Expedited download initiate request; at most the first 4 bytes of
/// `data` are sent.
pub fn download_expedited_frame(index: u16, subindex: u8, data: &[u8]) -> (r: Vec<u8>)
    ensures
        r@ == spec_download_expedited_frame(index, subindex, data@),
{
    let k: usize = if data.len() <= 4 {
        data.len()
    } else {
        4
    };
    let n: usize = 4 - k;
    let command: u8 = 0x23 | ((n as u8) << 2u8);
    let mut msg: Vec<u8> = vec![command, (index % 256) as u8, (index / 256) as u8, subindex, 0, 0, 0, 0];
    let mut i: usize = 0;
    while i < k
        invariant
            k == expedited_len(data@.len()),
            i <= k,
            msg@.len() == 8,
            msg@[0] == spec_expedited_command(data@.len()),
            msg@[1] == index_lo(index),
            msg@[2] == index_hi(index),
            msg@[3] == subindex,
            forall|j: int| 4 <= j < 4 + i ==> msg@[j] == data@[j - 4],
            forall|j: int| 4 + i <= j < 8 ==> msg@[j] == 0,
        decreases k - i,
    {
        msg.set(4 + i, data[i]);
        i = i + 1;
    }
    proof {
        assert(msg@ =~= spec_download_expedited_frame(index, subindex, data@));
    }
    msg
}

/// Segmented download initiate request announcing `size` bytes.
pub fn download_segmented_frame(index: u16, subindex: u8, size: usize) -> (r: Vec<u8>)
    ensures
        r@ == spec_download_segmented_frame(index, subindex, size),
{
    let r: Vec<u8> = vec![
        0x21,
        (index % 256) as u8,
        (index / 256) as u8,
        subindex,
        (size & 0xFF) as u8,
        ((size >> 8) & 0xFF) as u8,
        ((size >> 16) & 0xFF) as u8,
        ((size >> 24) & 0xFF) as u8,
    ];
    proof {
        assert(r@ =~= spec_download_segmented_frame(index, subindex, size));
    }
    r
}

/// Upload segment request with the given toggle bit.
pub fn upload_segment_request_frame(toggle: bool) -> (r: Vec<u8>)
    ensures
        r@ == spec_upload_segment_request_frame(toggle),
{
    let command: u8 = 0x60 | if toggle {
        0x10u8
    } else {
        0x00u8
    };
    assert(command == if toggle { 0x70u8 } else { 0x60u8 }) by (bit_vector)
        requires
            command == 0x60u8 | if toggle { 0x10u8 } else { 0x00u8 },
    ;
    let r: Vec<u8> = vec![command, 0, 0, 0, 0, 0, 0, 0];
    proof {
        assert(r@ =~= spec_upload_segment_request_frame(toggle));
    }
    r
}

/// Abort request for `index:subindex` with `abort_code`.
pub fn abort_frame(index: u16, subindex: u8, abort_code: u32) -> (r: Vec<u8>)
    ensures
        r@ == spec_abort_frame(index, subindex, abort_code),
{
    let r: Vec<u8> = vec![
        0x80,
        (index % 256) as u8,
        (index / 256) as u8,
        subindex,
        (abort_code & 0xFF) as u8,
        ((abort_code >> 8) & 0xFF) as u8,
        ((abort_code >> 16) & 0xFF) as u8,
        ((abort_code >> 24) & 0xFF) as u8,
    ];
    proof {
        assert(r@ =~= spec_abort_frame(index, subindex, abort_code));
    }
    r
}

/// Download segment `seg` of `data`: up to 7 bytes starting at `7 * seg`.
pub fn download_segment_frame(data: &[u8], seg: u8, toggle: bool) -> (r: Vec<u8>)
    requires
        segment_start(seg) <= data@.len(),
    ensures
        r@ == spec_download_segment_frame(data@, seg, toggle),
{
    let start: usize = seg as usize * 7;
    let remaining: usize = data.len() - start;
    let bytes_to_send: usize = if remaining <= 7 {
        remaining
    } else {
        7
    };
    let n: usize = 7 - bytes_to_send;
    let c: bool = remaining <= 7;
    let command: u8 = (if toggle {
        0x10u8
    } else {
        0x00u8
    }) | (if c {
        0x01u8
    } else {
        0x00u8
    }) | ((n as u8) << 1u8);
    let mut msg: Vec<u8> = vec![command, 0, 0, 0, 0, 0, 0, 0];
    let mut i: usize = 0;
    while i < bytes_to_send
        invariant
            start == segment_start(seg),
            bytes_to_send == segment_len(data@.len(), seg),
            start + bytes_to_send <= data@.len(),
            i <= bytes_to_send,
            bytes_to_send <= 7,
            msg@.len() == 8,
            msg@[0] == command,
            forall|j: int| 1 <= j < 1 + i ==> msg@[j] == data@[start + j - 1],
            forall|j: int| 1 + i <= j < 8 ==> msg@[j] == 0,
        decreases bytes_to_send - i,
    {
        msg.set(1 + i, data[start + i]);
        i = i + 1;
    }
    proof {
        assert(msg@ =~= spec_download_segment_frame(data@, seg, toggle));
    }
    msg
}

/// What the protocol knows of an active transfer.
pub struct SdoTransferView {
    pub node_id: u8,
    pub index: u16,
    pub subindex: u8,
    pub direction: SdoDirection,
    pub state: SdoState,
    pub transfer_type: SdoTransferType,
    pub data_buffer: Seq<u8>,
    pub segment_index: u8,
    pub toggle_bit: bool,
    pub expected_size: Option<usize>,
    /// Time of the last activity (request or response), in milliseconds.
    pub last_activity_ms: u64,
    /// How long the transfer may stay without activity, in milliseconds.
    pub timeout_ms: u64,
}

/// Outcome delivered to the requester of a transfer.
pub enum SdoOutcome {
    /// Completed; for uploads, the data read.
    Data(Seq<u8>),
    /// Aborted with this abort code.
    Abort(u32),
}

/// The effect of one server response on a transfer.
pub struct SdoTransition {
    /// The transfer afterwards.
    pub next: SdoTransferView,
    /// A request to send to the server.
    pub reply: Option<Seq<u8>>,
    /// The outcome to deliver to the requester.
    pub result: Option<SdoOutcome>,
    /// Whether the transfer ends.
    pub finished: bool,
}

/// A response that leaves the transfer as it was.
pub open spec fn spec_no_change(t: SdoTransferView) -> SdoTransition {
    SdoTransition { next: t, reply: None, result: None, finished: false }
}

/// The transfer aborted for a toggle bit that did not alternate.
pub open spec fn spec_toggle_abort(t: SdoTransferView) -> SdoTransition {
    SdoTransition {
        next: SdoTransferView { state: SdoState::Aborted, ..t },
        reply: Some(spec_abort_frame(t.index, t.subindex, SDO_ABORT_TOGGLE_BIT)),
        result: Some(SdoOutcome::Abort(SDO_ABORT_TOGGLE_BIT)),
        finished: true,
    }
}

/// The effect of server response `d` on transfer `t`.
pub open spec fn spec_sdo_transition(t: SdoTransferView, d: Seq<u8>) -> SdoTransition {
    let cmd = d[0];
    if cmd & 0x80 != 0 {
        SdoTransition {
            next: SdoTransferView { state: SdoState::Aborted, ..t },
            reply: None,
            result: Some(SdoOutcome::Abort(le_u32(d[4], d[5], d[6], d[7]))),
            finished: true,
        }
    } else {
        match (t.direction, t.state) {
            (SdoDirection::Upload, SdoState::InitiateSent) => {
                if cmd & 0x43 == 0x43 {
                    let len = 4 - ((cmd >> 2u8) & 3u8);
                    SdoTransition {
                        next: SdoTransferView { state: SdoState::Completed, ..t },
                        reply: None,
                        result: Some(SdoOutcome::Data(d.subrange(4, 4 + len))),
                        finished: true,
                    }
                } else if cmd & 0x41 == 0x41 {
                    SdoTransition {
                        next: SdoTransferView {
                            state: SdoState::SegmentTransfer,
                            toggle_bit: false,
                            data_buffer: Seq::empty(),
                            ..t
                        },
                        reply: Some(spec_upload_segment_request_frame(false)),
                        result: None,
                        finished: false,
                    }
                } else {
                    spec_no_change(t)
                }
            },
            (SdoDirection::Upload, SdoState::SegmentTransfer) => {
                // An upload segment response has bits 5 and 6 clear.
                if cmd & 0x60 == 0 {
                    let toggle = (cmd & 0x10) != 0;
                    let len = 7 - ((cmd >> 1u8) & 7u8);
                    if toggle == t.toggle_bit {
                        let buf = t.data_buffer + d.subrange(1, 1 + len);
                        if cmd & 0x01 != 0 {
                            SdoTransition {
                                next: SdoTransferView {
                                    state: SdoState::Completed,
                                    data_buffer: buf,
                                    ..t
                                },
                                reply: None,
                                result: Some(SdoOutcome::Data(buf)),
                                finished: true,
                            }
                        } else {
                            SdoTransition {
                                next: SdoTransferView {
                                    data_buffer: buf,
                                    toggle_bit: !t.toggle_bit,
                                    ..t
                                },
                                reply: Some(spec_upload_segment_request_frame(!t.toggle_bit)),
                                result: None,
                                finished: false,
                            }
                        }
                    } else {
                        spec_toggle_abort(t)
                    }
                } else {
                    spec_no_change(t)
                }
            },
            (SdoDirection::Download, SdoState::InitiateSent) => {
                if cmd & 0x60 == 0x60 {
                    if t.transfer_type == SdoTransferType::Expedited {
                        SdoTransition {
                            next: SdoTransferView { state: SdoState::Completed, ..t },
                            reply: None,
                            result: Some(SdoOutcome::Data(Seq::empty())),
                            finished: true,
                        }
                    } else {
                        SdoTransition {
                            next: SdoTransferView {
                                state: SdoState::SegmentTransfer,
                                toggle_bit: false,
                                ..t
                            },
                            reply: Some(
                                spec_download_segment_frame(t.data_buffer, t.segment_index, false),
                            ),
                            result: None,
                            finished: false,
                        }
                    }
                } else {
                    spec_no_change(t)
                }
            },
            (SdoDirection::Download, SdoState::SegmentTransfer) => {
                if cmd & 0x20 == 0x20 {
                    let toggle = (cmd & 0x10) != 0;
                    if toggle == t.toggle_bit {
                        let seg = (t.segment_index + 1) as u8;
                        if seg * 7 >= t.data_buffer.len() {
                            SdoTransition {
                                next: SdoTransferView {
                                    segment_index: seg,
                                    state: SdoState::Completed,
                                    ..t
                                },
                                reply: None,
                                result: Some(SdoOutcome::Data(Seq::empty())),
                                finished: true,
                            }
                        } else {
                            SdoTransition {
                                next: SdoTransferView {
                                    segment_index: seg,
                                    toggle_bit: !t.toggle_bit,
                                    ..t
                                },
                                reply: Some(
                                    spec_download_segment_frame(t.data_buffer, seg, !t.toggle_bit),
                                ),
                                result: None,
                                finished: false,
                            }
                        }
                    } else {
                        spec_toggle_abort(t)
                    }
                } else {
                    spec_no_change(t)
                }
            },
            _ => spec_no_change(t),
        }
    }
}

/// The responses `d` that transfer `t` can take without reading past the
/// end of `d`, overflowing the segment counter or starting a segment past
/// the end of the data.
pub open spec fn spec_sdo_response_ok(t: SdoTransferView, d: Seq<u8>) -> bool {
    &&& d.len() >= 1
    &&& if d[0] & 0x80 != 0 {
        d.len() >= 8
    } else {
        match (t.direction, t.state) {
            (SdoDirection::Upload, SdoState::InitiateSent) => d[0] & 0x43 == 0x43 ==> d.len() >= 8
                - ((d[0] >> 2u8) & 3u8),
            (SdoDirection::Upload, SdoState::SegmentTransfer) => (d[0] & 0x60 == 0 && ((d[0]
                & 0x10) != 0) == t.toggle_bit) ==> d.len() >= 8 - ((d[0] >> 1u8) & 7u8),
            (SdoDirection::Download, SdoState::InitiateSent) => (d[0] & 0x60 == 0x60
                && t.transfer_type == SdoTransferType::Segmented) ==> segment_start(t.segment_index)
                <= t.data_buffer.len(),
            (SdoDirection::Download, SdoState::SegmentTransfer) => (d[0] & 0x20 == 0x20 && ((d[0]
                & 0x10) != 0) == t.toggle_bit) ==> t.segment_index < 255,
            _ => true,
        }
    }
}

/// The exec form of a transition.
pub struct SdoStep {
    /// A request to send to the server, before anything is delivered.
    pub reply: Option<Vec<u8>>,
    /// The outcome to deliver to the requester.
    pub result: Option<Result<Vec<u8>, CANopenError>>,
    /// Whether the transfer ends (it is then dropped).
    pub finished: bool,
}

/// `s` carries out transition `tr`.
pub open spec fn spec_step_matches(s: SdoStep, tr: SdoTransition) -> bool {
    &&& match (s.reply, tr.reply) {
        (Some(a), Some(b)) => a@ == b,
        (None, None) => true,
        _ => false,
    }
    &&& match (s.result, tr.result) {
        (Some(Ok(v)), Some(SdoOutcome::Data(d))) => v@ == d,
        (Some(Err(e)), Some(SdoOutcome::Abort(code))) => e == CANopenError::Sdo { code },
        (None, None) => true,
        _ => false,
    }
    &&& s.finished == tr.finished
}

/// Active SDO transfer: the state that the protocol decides on.
pub struct SdoTransfer {
    pub node_id: u8,
    pub index: u16,
    pub subindex: u8,
    pub direction: SdoDirection,
    pub state: SdoState,
    pub transfer_type: SdoTransferType,
    pub data_buffer: Vec<u8>,
    pub segment_index: u8,
    pub toggle_bit: bool,
    pub expected_size: Option<usize>,
    /// Time of the last activity (request or response), in milliseconds.
    pub last_activity_ms: u64,
    /// How long the transfer may stay without activity, in milliseconds.
    pub timeout_ms: u64,
}

impl View for SdoTransfer {
    type V = SdoTransferView;

    open spec fn view(&self) -> SdoTransferView {
        SdoTransferView {
            node_id: self.node_id,
            index: self.index,
            subindex: self.subindex,
            direction: self.direction,
            state: self.state,
            transfer_type: self.transfer_type,
            data_buffer: self.data_buffer@,
            segment_index: self.segment_index,
            toggle_bit: self.toggle_bit,
            expected_size: self.expected_size,
            last_activity_ms: self.last_activity_ms,
            timeout_ms: self.timeout_ms,
        }
    }
}

/// The request that opens a transfer.
pub open spec fn spec_initiate_frame(
    direction: SdoDirection,
    index: u16,
    subindex: u8,
    data: Seq<u8>,
) -> Seq<u8> {
    match direction {
        SdoDirection::Upload => spec_upload_initiate_frame(index, subindex),
        SdoDirection::Download => if data.len() <= 4 {
            spec_download_expedited_frame(index, subindex, data)
        } else {
            spec_download_segmented_frame(index, subindex, data.len() as usize)
        },
    }
}

impl SdoTransfer {
    /// Opens a transfer of `data` (empty for uploads) at time `now_ms`,
    /// allowed `timeout_ms` without activity: returns the transfer, in state
    /// `InitiateSent`, and the initiate request to send.
    pub fn start(
        node_id: u8,
        direction: SdoDirection,
        index: u16,
        subindex: u8,
        data: Vec<u8>,
        timeout_ms: u64,
        now_ms: u64,
    ) -> (r: (SdoTransfer, CanMessage))
        ensures
            r.0@ == (SdoTransferView {
                node_id,
                index,
                subindex,
                direction,
                state: SdoState::InitiateSent,
                transfer_type: if data@.len() <= 4 {
                    SdoTransferType::Expedited
                } else {
                    SdoTransferType::Segmented
                },
                data_buffer: data@,
                segment_index: 0,
                toggle_bit: false,
                expected_size: None,
                last_activity_ms: now_ms,
                timeout_ms,
            }),
            r.1.id.0 == 0x600 + node_id,
            r.1.data@ == spec_initiate_frame(direction, index, subindex, data@),
    {
        let frame = match direction {
            SdoDirection::Upload => upload_initiate_frame(index, subindex),
            SdoDirection::Download => {
                if data.len() <= 4 {
                    download_expedited_frame(index, subindex, data.as_slice())
                } else {
                    download_segmented_frame(index, subindex, data.len())
                }
            },
        };
        let transfer_type = if data.len() <= 4 {
            SdoTransferType::Expedited
        } else {
            SdoTransferType::Segmented
        };
        let transfer = SdoTransfer {
            node_id,
            index,
            subindex,
            direction,
            state: SdoState::InitiateSent,
            transfer_type,
            data_buffer: data,
            segment_index: 0,
            toggle_bit: false,
            expected_size: None,
            last_activity_ms: now_ms,
            timeout_ms,
        };
        (transfer, sdo_request_message(node_id, frame))
    }

    /// Whether `data` is a response that this transfer can take (see
    /// `spec_sdo_response_ok`).
    pub fn response_ok(&self, data: &[u8]) -> (r: bool)
        ensures
            r == spec_sdo_response_ok(self@, data@),
    {
        if data.len() < 1 {
            return false;
        }
        let cmd: u8 = data[0];
        if cmd & 0x80 != 0 {
            return data.len() >= 8;
        }
        match (self.direction, self.state) {
            (SdoDirection::Upload, SdoState::InitiateSent) => {
                if cmd & 0x43 == 0x43 {
                    let n: u8 = (cmd >> 2u8) & 3u8;
                    assert(n <= 3) by (bit_vector)
                        requires
                            n == (cmd >> 2u8) & 3u8,
                    ;
                    data.len() >= 8 - n as usize
                } else {
                    true
                }
            },
            (SdoDirection::Upload, SdoState::SegmentTransfer) => {
                if cmd & 0x60 == 0 && ((cmd & 0x10) != 0) == self.toggle_bit {
                    let n: u8 = (cmd >> 1u8) & 7u8;
                    assert(n <= 7) by (bit_vector)
                        requires
                            n == (cmd >> 1u8) & 7u8,
                    ;
                    data.len() >= 8 - n as usize
                } else {
                    true
                }
            },
            (SdoDirection::Download, SdoState::InitiateSent) => {
                if cmd & 0x60 == 0x60 && self.transfer_type == SdoTransferType::Segmented {
                    self.segment_index as usize * 7 <= self.data_buffer.len()
                } else {
                    true
                }
            },
            (SdoDirection::Download, SdoState::SegmentTransfer) => {
                if cmd & 0x20 == 0x20 && ((cmd & 0x10) != 0) == self.toggle_bit {
                    self.segment_index < 255
                } else {
                    true
                }
            },
            _ => true,
        }
    }

    /// Apply a server response: updates the transfer and tells what to send
    /// to the server, what to deliver to the requester and whether the
    /// transfer ends.
    pub fn process_response(&mut self, data: &[u8]) -> (step: SdoStep)
        requires
            spec_sdo_response_ok(old(self)@, data@),
        ensures
            final(self)@ == spec_sdo_transition(old(self)@, data@).next,
            spec_step_matches(step, spec_sdo_transition(old(self)@, data@)),
    {
        let cmd: u8 = data[0];
        if cmd & 0x80 != 0 {
            let abort_code = u32_from_le(data[4], data[5], data[6], data[7]);
            self.state = SdoState::Aborted;
            return SdoStep {
                reply: None,
                result: Some(Err(CANopenError::Sdo { code: abort_code })),
                finished: true,
            };
        }
        match (self.direction, self.state) {
            (SdoDirection::Upload, SdoState::InitiateSent) => {
                if cmd & 0x43 == 0x43 {
                    let n: u8 = (cmd >> 2u8) & 3u8;
                    assert(n <= 3) by (bit_vector)
                        requires
                            n == (cmd >> 2u8) & 3u8,
                    ;
                    let data_length: usize = 4 - n as usize;
                    let value = copy_range(data, 4, 4 + data_length);
                    self.state = SdoState::Completed;
                    SdoStep { reply: None, result: Some(Ok(value)), finished: true }
                } else if cmd & 0x41 == 0x41 {
                    self.state = SdoState::SegmentTransfer;
                    self.toggle_bit = false;
                    self.data_buffer.clear();
                    proof {
                        assert(self.data_buffer@ =~= Seq::<u8>::empty());
                    }
                    SdoStep {
                        reply: Some(upload_segment_request_frame(false)),
                        result: None,
                        finished: false,
                    }
                } else {
                    SdoStep { reply: None, result: None, finished: false }
                }
            },
            (SdoDirection::Upload, SdoState::SegmentTransfer) => {
                if cmd & 0x60 == 0 {
                    let toggle: bool = (cmd & 0x10) != 0;
                    let n: u8 = (cmd >> 1u8) & 7u8;
                    assert(n <= 7) by (bit_vector)
                        requires
                            n == (cmd >> 1u8) & 7u8,
                    ;
                    let c: bool = (cmd & 0x01) != 0;
                    if toggle == self.toggle_bit {
                        let data_length: usize = 7 - n as usize;
                        let ghost before = self.data_buffer@;
                        append_range(&mut self.data_buffer, data, 1, 1 + data_length);
                        if c {
                            let value = clone_bytes(&self.data_buffer);
                            self.state = SdoState::Completed;
                            SdoStep { reply: None, result: Some(Ok(value)), finished: true }
                        } else {
                            self.toggle_bit = !self.toggle_bit;
                            SdoStep {
                                reply: Some(upload_segment_request_frame(self.toggle_bit)),
                                result: None,
                                finished: false,
                            }
                        }
                    } else {
                        self.toggle_abort()
                    }
                } else {
                    SdoStep { reply: None, result: None, finished: false }
                }
            },
            (SdoDirection::Download, SdoState::InitiateSent) => {
                if cmd & 0x60 == 0x60 {
                    if self.transfer_type == SdoTransferType::Expedited {
                        self.state = SdoState::Completed;
                        SdoStep { reply: None, result: Some(Ok(Vec::new())), finished: true }
                    } else {
                        self.state = SdoState::SegmentTransfer;
                        self.toggle_bit = false;
                        let frame = download_segment_frame(
                            self.data_buffer.as_slice(),
                            self.segment_index,
                            self.toggle_bit,
                        );
                        SdoStep { reply: Some(frame), result: None, finished: false }
                    }
                } else {
                    SdoStep { reply: None, result: None, finished: false }
                }
            },
            (SdoDirection::Download, SdoState::SegmentTransfer) => {
                if cmd & 0x20 == 0x20 {
                    let toggle: bool = (cmd & 0x10) != 0;
                    if toggle == self.toggle_bit {
                        self.segment_index = self.segment_index + 1;
                        if self.segment_index as usize * 7 >= self.data_buffer.len() {
                            self.state = SdoState::Completed;
                            SdoStep { reply: None, result: Some(Ok(Vec::new())), finished: true }
                        } else {
                            self.toggle_bit = !self.toggle_bit;
                            let frame = download_segment_frame(
                                self.data_buffer.as_slice(),
                                self.segment_index,
                                self.toggle_bit,
                            );
                            SdoStep { reply: Some(frame), result: None, finished: false }
                        }
                    } else {
                        self.toggle_abort()
                    }
                } else {
                    SdoStep { reply: None, result: None, finished: false }
                }
            },
            _ => SdoStep { reply: None, result: None, finished: false },
        }
    }

    /// Abort for a toggle bit that did not alternate.
    fn toggle_abort(&mut self) -> (step: SdoStep)
        ensures
            final(self)@ == spec_toggle_abort(old(self)@).next,
            spec_step_matches(step, spec_toggle_abort(old(self)@)),
    {
        let frame = abort_frame(self.index, self.subindex, SDO_ABORT_TOGGLE_BIT);
        self.state = SdoState::Aborted;
        SdoStep {
            reply: Some(frame),
            result: Some(Err(CANopenError::Sdo { code: SDO_ABORT_TOGGLE_BIT })),
            finished: true,
        }
    }
}

/// A copy of `data[from..to]`.
fn copy_range(data: &[u8], from: usize, to: usize) -> (r: Vec<u8>)
    requires
        from <= to <= data@.len(),
    ensures
        r@ == data@.subrange(from as int, to as int),
{
    let mut out: Vec<u8> = Vec::new();
    append_range(&mut out, data, from, to);
    proof {
        assert(out@ =~= data@.subrange(from as int, to as int));
    }
    out
}

/// Appends `data[from..to]` to `out`.
fn append_range(out: &mut Vec<u8>, data: &[u8], from: usize, to: usize)
    requires
        from <= to <= data@.len(),
    ensures
        final(out)@ == old(out)@ + data@.subrange(from as int, to as int),
{
    let mut i: usize = from;
    while i < to
        invariant
            from <= i <= to,
            to <= data@.len(),
            out@ == old(out)@ + data@.subrange(from as int, i as int),
        decreases to - i,
    {
        out.push(data[i]);
        i = i + 1;
        proof {
            assert(data@.subrange(from as int, i as int) =~= data@.subrange(
                from as int,
                (i - 1) as int,
            ).push(data@[i - 1]));
        }
    }
}

/// A copy of `data`.
fn clone_bytes(data: &Vec<u8>) -> (r: Vec<u8>)
    ensures
        r@ == data@,
{
    let r = copy_range(data.as_slice(), 0, data.len());
    proof {
        assert(data@.subrange(0, data@.len() as int) =~= data@);
    }
    r
}

/// The node a response on `cob_id` is filed under: its node-ID, or 0 when
/// the COB-ID carries none.
pub open spec fn spec_response_node(cob_id: u16) -> u8 {
    match spec_node_id(cob_id) {
        Some(n) => n,
        None => 0u8,
    }
}

/// Whether transfer `t` has seen no activity for longer than its timeout at
/// time `now_ms` (a clock reading before the last activity counts as no
/// time elapsed).
pub open spec fn spec_transfer_timed_out(t: SdoTransferView, now_ms: u64) -> bool {
    now_ms > t.last_activity_ms && now_ms - t.last_activity_ms > t.timeout_ms
}

/// The transfers of `m` that have not timed out at time `now_ms`.
pub open spec fn spec_without_timed_out(
    m: Map<u8, SdoTransferView>,
    now_ms: u64,
) -> Map<u8, SdoTransferView> {
    Map::new(|n: u8| m.contains_key(n) && !spec_transfer_timed_out(m[n], now_ms), |n: u8| m[n])
}

/// The active transfers of an SDO client, at most one per node.
pub struct SdoTransferTable {
    transfers: HashMap<u8, SdoTransfer>,
}

impl SdoTransferTable {
    /// The active transfer of each node.
    pub closed spec fn view_map(&self) -> Map<u8, SdoTransferView> {
        Map::new(|k: u8| self.transfers@.contains_key(k), |k: u8| self.transfers@[k]@)
    }

    /// No active transfer.
    pub fn new() -> (r: SdoTransferTable)
        ensures
            r.view_map() == Map::<u8, SdoTransferView>::empty(),
    {
        let r = SdoTransferTable { transfers: HashMap::new() };
        assert(r.view_map() =~= Map::<u8, SdoTransferView>::empty());
        r
    }

    /// Whether `node_id` has an active transfer.
    pub fn is_active(&self, node_id: u8) -> (r: bool)
        ensures
            r == self.view_map().contains_key(node_id),
    {
        self.transfers.contains_key(&node_id)
    }

    /// Open a transfer with `node_id` at time `now_ms`, allowed `timeout_ms`
    /// without activity, and return its initiate request. A node with an
    /// active transfer refuses a second one with abort code 0x05040001, and
    /// the table is left as it was.
    pub fn begin(
        &mut self,
        node_id: u8,
        direction: SdoDirection,
        index: u16,
        subindex: u8,
        data: Vec<u8>,
        timeout_ms: u64,
        now_ms: u64,
    ) -> (r: Result<CanMessage, CANopenError>)
        ensures
            old(self).view_map().contains_key(node_id) ==> r == Err::<CanMessage, CANopenError>(
                CANopenError::Sdo { code: SDO_ABORT_COMMAND_SPECIFIER },
            ) && final(self).view_map() == old(self).view_map(),
            !old(self).view_map().contains_key(node_id) ==> (r matches Ok(m) && m.id.0 == 0x600
                + node_id && m.data@ == spec_initiate_frame(direction, index, subindex, data@)
                && final(self).view_map() == old(self).view_map().insert(
                node_id,
                SdoTransferView {
                    node_id,
                    index,
                    subindex,
                    direction,
                    state: SdoState::InitiateSent,
                    transfer_type: if data@.len() <= 4 {
                        SdoTransferType::Expedited
                    } else {
                        SdoTransferType::Segmented
                    },
                    data_buffer: data@,
                    segment_index: 0,
                    toggle_bit: false,
                    expected_size: None,
                    last_activity_ms: now_ms,
                    timeout_ms,
                },
            )),
    {
        if self.transfers.contains_key(&node_id) {
            return Err(CANopenError::Sdo { code: SDO_ABORT_COMMAND_SPECIFIER });
        }
        let (transfer, message) = SdoTransfer::start(node_id, direction, index, subindex, data, timeout_ms, now_ms);
        let ghost tv = transfer@;
        self.transfers.insert(node_id, transfer);
        proof {
            assert(self.view_map() =~= old(self).view_map().insert(node_id, tv));
        }
        Ok(message)
    }

    /// Whether `message` is one that the table can take in: any message but
    /// an SDO response to an active transfer that the transfer cannot take
    /// (see `spec_sdo_response_ok`).
    pub fn accepts(&self, message: &CanMessage) -> (r: bool)
        ensures
            r == (spec_message_type(message.id.0) == MessageType::Sdo && self.view_map().contains_key(
                spec_response_node(message.id.0),
            ) ==> spec_sdo_response_ok(
                self.view_map()[spec_response_node(message.id.0)],
                message.data@,
            )),
    {
        if message.message_type() != MessageType::Sdo {
            return true;
        }
        let node_id: u8 = match message.node_id() {
            Some(n) => n,
            None => 0,
        };
        match self.transfers.get(&node_id) {
            Some(t) => t.response_ok(message.data.as_slice()),
            None => true,
        }
    }

    /// Take in a message received at time `now_ms`. Only an SDO response for
    /// a node with an active transfer has an effect: the transfer takes the
    /// response, is dropped when it ends and otherwise records `now_ms` as
    /// its last activity, and the node and step (request to send, outcome to
    /// deliver) are returned.
    pub fn process_message(&mut self, message: &CanMessage, now_ms: u64) -> (r: Option<(u8, SdoStep)>)
        requires
            spec_message_type(message.id.0) == MessageType::Sdo && old(self).view_map().contains_key(
                spec_response_node(message.id.0),
            ) ==> spec_sdo_response_ok(
                old(self).view_map()[spec_response_node(message.id.0)],
                message.data@,
            ),
        ensures
            !(spec_message_type(message.id.0) == MessageType::Sdo && old(self).view_map().contains_key(
                spec_response_node(message.id.0),
            )) ==> r is None && final(self).view_map() == old(self).view_map(),
            spec_message_type(message.id.0) == MessageType::Sdo && old(self).view_map().contains_key(
                spec_response_node(message.id.0),
            ) ==> ({
                let node = spec_response_node(message.id.0);
                let tr = spec_sdo_transition(old(self).view_map()[node], message.data@);
                &&& r matches Some((n, step)) && n == node && spec_step_matches(step, tr)
                &&& final(self).view_map() == if tr.finished {
                    old(self).view_map().remove(node)
                } else {
                    old(self).view_map().insert(
                        node,
                        SdoTransferView { last_activity_ms: now_ms, ..tr.next },
                    )
                }
            }),
    {
        if message.message_type() != MessageType::Sdo {
            return None;
        }
        let node_id: u8 = match message.node_id() {
            Some(n) => n,
            None => 0,
        };
        match self.transfers.remove(&node_id) {
            Some(mut transfer) => {
                let step = transfer.process_response(message.data.as_slice());
                if !step.finished {
                    transfer.last_activity_ms = now_ms;
                    let ghost tv = transfer@;
                    self.transfers.insert(node_id, transfer);
                    proof {
                        assert(self.view_map() =~= old(self).view_map().insert(node_id, tv));
                    }
                } else {
                    proof {
                        assert(self.view_map() =~= old(self).view_map().remove(node_id));
                    }
                }
                Some((node_id, step))
            },
            None => {
                proof {
                    assert(self.view_map() =~= old(self).view_map());
                }
                None
            },
        }
    }

    /// Drop the transfer of `node_id` (it timed out); returns whether there
    /// was one.
    pub fn expire(&mut self, node_id: u8) -> (r: bool)
        ensures
            r == old(self).view_map().contains_key(node_id),
            final(self).view_map() == old(self).view_map().remove(node_id),
    {
        let r = self.transfers.remove(&node_id).is_some();
        proof {
            assert(self.view_map() =~= old(self).view_map().remove(node_id));
        }
        r
    }

    /// Drop every transfer that saw no activity for longer than its timeout
    /// at time `now_ms`; returns their nodes in ascending order.
    pub fn expire_timed_out(&mut self, now_ms: u64) -> (r: Vec<u8>)
        ensures
            forall|k: int|
                0 <= k < r@.len() ==> old(self).view_map().contains_key(#[trigger] r@[k])
                    && spec_transfer_timed_out(old(self).view_map()[r@[k]], now_ms),
            forall|n: u8|
                old(self).view_map().contains_key(n) && spec_transfer_timed_out(
                    #[trigger] old(self).view_map()[n],
                    now_ms,
                ) ==> r@.contains(n),
            forall|k: int, l: int| 0 <= k < l < r@.len() ==> r@[k] < r@[l],
            final(self).view_map() == spec_without_timed_out(old(self).view_map(), now_ms),
    {
        let ghost old_map = self.view_map();
        let mut out: Vec<u8> = Vec::new();
        let mut id: u16 = 0;
        while id < 256
            invariant
                id <= 256,
                self.view_map() == Map::new(
                    |n: u8| old_map.contains_key(n) && !(n < id && spec_transfer_timed_out(old_map[n], now_ms)),
                    |n: u8| old_map[n],
                ),
                forall|k: int|
                    0 <= k < out@.len() ==> #[trigger] out@[k] < id && old_map.contains_key(out@[k])
                        && spec_transfer_timed_out(old_map[out@[k]], now_ms),
                forall|n: u8|
                    n < id && old_map.contains_key(n) && spec_transfer_timed_out(
                        #[trigger] old_map[n],
                        now_ms,
                    ) ==> out@.contains(n),
                forall|k: int, l: int| 0 <= k < l < out@.len() ==> out@[k] < out@[l],
            decreases 256 - id,
        {
            let node: u8 = id as u8;
            proof {
                assert(node == id);
                assert(self.view_map().contains_key(node) == old_map.contains_key(node));
                if old_map.contains_key(node) {
                    assert(self.view_map()[node] == old_map[node]);
                }
            }
            let expired: bool = match self.transfers.get(&node) {
                Some(t) => now_ms > t.last_activity_ms && now_ms - t.last_activity_ms > t.timeout_ms,
                None => false,
            };
            proof {
                assert(expired == (old_map.contains_key(node) && spec_transfer_timed_out(
                    old_map[node],
                    now_ms,
                )));
            }
            let ghost before = out@;
            let ghost prev_map = self.view_map();
            if expired {
                self.transfers.remove(&node);
                out.push(node);
                proof {
                    assert(self.view_map() =~= prev_map.remove(node));
                    assert(out@[out@.len() - 1] == node);
                    assert forall|n: u8|
                        n < id + 1 && old_map.contains_key(n) && spec_transfer_timed_out(
                            #[trigger] old_map[n],
                            now_ms,
                        ) implies out@.contains(n) by {
                        if n == node {
                            assert(out@[out@.len() - 1] == n);
                        } else {
                            let k = choose|k: int| 0 <= k < before.len() && before[k] == n;
                            assert(out@[k] == n);
                        }
                    }
                }
            } else {
                proof {
                    assert(self.view_map() =~= prev_map);
                    assert forall|n: u8|
                        n < id + 1 && old_map.contains_key(n) && spec_transfer_timed_out(
                            #[trigger] old_map[n],
                            now_ms,
                        ) implies out@.contains(n) by {
                        if n == node {
                            assert(old_map[n] == self.view_map()[n]);
                        }
                    }
                }
            }
            proof {
                assert(self.view_map() =~= Map::new(
                    |n: u8| old_map.contains_key(n) && !(n < id + 1 && spec_transfer_timed_out(old_map[n], now_ms)),
                    |n: u8| old_map[n],
                ));
            }
            id = id + 1;
        }
        proof {
            assert(self.view_map() =~= spec_without_timed_out(old_map, now_ms));
        }
        out
    }
}

/// The payload that a download segment frame carries, as the server reads
/// it: the bytes after the command byte, less the unused count in bits 1-3.
pub open spec fn spec_segment_payload(frame: Seq<u8>) -> Seq<u8> {
    frame.subrange(1, 8 - ((frame[0] >> 1u8) & 7u8))
}

/// Whether a download segment frame is marked as the last one (bit 0).
pub open spec fn spec_segment_is_last(frame: Seq<u8>) -> bool {
    frame[0] & 1u8 != 0
}

/// The toggle bit of a download segment frame (bit 4).
pub open spec fn spec_segment_toggle(frame: Seq<u8>) -> bool {
    frame[0] & 0x10u8 != 0
}

/// Each download segment carries exactly its 7-byte slice of the data
/// (the last one what is left), with the given toggle bit, and it is
/// marked last exactly when it reaches the end of the data.
pub proof fn lemma_download_segment_decodes(data: Seq<u8>, seg: u8, toggle: bool)
    requires
        segment_start(seg) <= data.len(),
    ensures
        spec_segment_payload(spec_download_segment_frame(data, seg, toggle)) == data.subrange(
            segment_start(seg),
            segment_start(seg) + segment_len(data.len(), seg),
        ),
        spec_segment_is_last(spec_download_segment_frame(data, seg, toggle)) == (data.len()
            - segment_start(seg) <= 7),
        spec_segment_toggle(spec_download_segment_frame(data, seg, toggle)) == toggle,
{
    let frame = spec_download_segment_frame(data, seg, toggle);
    let n: int = segment_len(data.len(), seg);
    let last: bool = data.len() - segment_start(seg) <= 7;
    let unused: u8 = (7 - n) as u8;
    let cmd: u8 = spec_segment_command(toggle, last, unused);
    assert(frame[0] == cmd);
    assert(0 <= n <= 7);
    assert(((cmd >> 1u8) & 7u8) == unused && ((cmd & 1u8) != 0) == last && ((cmd & 0x10u8) != 0)
        == toggle) by (bit_vector)
        requires
            cmd == (if toggle { 0x10u8 } else { 0u8 }) | (if last { 1u8 } else { 0u8 }) | (unused
                << 1u8),
            unused <= 7,
    ;
    assert(spec_segment_payload(frame) =~= data.subrange(
        segment_start(seg),
        segment_start(seg) + n,
    ));
}

/// The payloads of segments 0 to `k - 1`, in order.
pub open spec fn spec_segments_sent(data: Seq<u8>, k: nat) -> Seq<u8>
    decreases k,
{
    if k == 0 {
        Seq::empty()
    } else {
        spec_segments_sent(data, (k - 1) as nat) + spec_segment_payload(
            spec_download_segment_frame(data, (k - 1) as u8, false),
        )
    }
}

/// The segments of a segmented download, sent in order, deliver the data
/// in order: the payloads of the first `k` segments are the first
/// `min(7 k, len)` bytes of the data.
pub proof fn lemma_segments_deliver_data(data: Seq<u8>, k: nat)
    requires
        k <= 256,
        7 * (k - 1) <= data.len() || k == 0,
    ensures
        spec_segments_sent(data, k) == data.subrange(
            0,
            if 7 * k <= data.len() { (7 * k) as int } else { data.len() as int },
        ),
    decreases k,
{
    if k > 0 {
        let seg: u8 = (k - 1) as u8;
        assert(segment_start(seg) == 7 * (k - 1));
        lemma_segments_deliver_data(data, (k - 1) as nat);
        lemma_download_segment_decodes(data, seg, false);
        assert(spec_segments_sent(data, k) =~= data.subrange(
            0,
            if 7 * k <= data.len() { (7 * k) as int } else { data.len() as int },
        ));
    }
}

/// Each response either ends the transfer, delivering exactly one outcome
/// and leaving it `Completed` or `Aborted`, or keeps it active without an
/// outcome and in the state it had or in `SegmentTransfer`.
pub proof fn lemma_sdo_transition_outcome(t: SdoTransferView, d: Seq<u8>)
    requires
        d.len() >= 1,
    ensures
        spec_sdo_transition(t, d).finished <==> spec_sdo_transition(t, d).result is Some,
        spec_sdo_transition(t, d).finished ==> (spec_sdo_transition(t, d).next.state
            == SdoState::Completed || spec_sdo_transition(t, d).next.state == SdoState::Aborted),
        !spec_sdo_transition(t, d).finished ==> (spec_sdo_transition(t, d).next.state == t.state
            || spec_sdo_transition(t, d).next.state == SdoState::SegmentTransfer),
        spec_sdo_transition(t, d).next.node_id == t.node_id,
        spec_sdo_transition(t, d).next.index == t.index,
        spec_sdo_transition(t, d).next.subindex == t.subindex,
        spec_sdo_transition(t, d).next.direction == t.direction,
{
}

/// The value of a 1-byte SDO read, if exactly one byte came back.
pub fn sdo_u8_from_bytes(data: &[u8]) -> (r: Option<u8>)
    ensures
        r == (if data@.len() == 1 {
            Some(data@[0])
        } else {
            None::<u8>
        }),
{
    if data.len() != 1 {
        return None;
    }
    Some(data[0])
}

/// The value of a 2-byte SDO read, if exactly two bytes came back.
pub fn sdo_u16_from_bytes(data: &[u8]) -> (r: Option<u16>)
    ensures
        r == (if data@.len() == 2 {
            Some(le_u16(data@[0], data@[1]))
        } else {
            None::<u16>
        }),
{
    if data.len() != 2 {
        return None;
    }
    Some(u16_from_le(data[0], data[1]))
}

/// The value of a 4-byte SDO read, if exactly four bytes came back.
pub fn sdo_u32_from_bytes(data: &[u8]) -> (r: Option<u32>)
    ensures
        r == (if data@.len() == 4 {
            Some(le_u32(data@[0], data@[1], data@[2], data@[3]))
        } else {
            None::<u32>
        }),
{
    if data.len() != 4 {
        return None;
    }
    Some(u32_from_le(data[0], data[1], data[2], data[3]))
}


/// The error for a read that returned `got` bytes where `expected`
/// bytes of type `value_type` were wanted.
fn wrong_size_error(expected: &str, value_type: &str, got: usize) -> (r: CANopenError)
    ensures
        r matches CANopenError::InvalidData(m) && m@ == "Expected "@ + expected@ + " for "@
            + value_type@ + ", got "@ + spec_decimal(got as nat),
{
    let mut msg = String::from_str("Expected ");
    msg.append(expected);
    msg.append(" for ");
    msg.append(value_type);
    msg.append(", got ");
    push_decimal(&mut msg, got);
    CANopenError::InvalidData(msg)
}

/// The `u8` that a read returned; any length but 1 is an `InvalidData`
/// error naming the length.
pub fn u8_from_sdo_data(data: &[u8]) -> (r: crate::errors::Result<u8>)
    ensures
        r is Ok <==> data@.len() == 1,
        r matches Ok(v) ==> v == data@[0],
        r matches Err(e) ==> (e matches CANopenError::InvalidData(m) && m@ == "Expected 1 byte for u8, got "@
            + spec_decimal(data@.len())),
{
    if data.len() != 1 {
        proof {
            reveal_strlit("Expected ");
            reveal_strlit("1 byte");
            reveal_strlit(" for ");
            reveal_strlit("u8");
            reveal_strlit(", got ");
            reveal_strlit("Expected 1 byte for u8, got ");
            assert("Expected "@ + "1 byte"@ + " for "@ + "u8"@ + ", got "@ =~= "Expected 1 byte for u8, got "@);
        }
        return Err(wrong_size_error("1 byte", "u8", data.len()));
    }
    Ok(data[0])
}

/// The little-endian `u16` that a read returned; any length but 2 is an
/// `InvalidData` error naming the length.
pub fn u16_from_sdo_data(data: &[u8]) -> (r: crate::errors::Result<u16>)
    ensures
        r is Ok <==> data@.len() == 2,
        r matches Ok(v) ==> v == le_u16(data@[0], data@[1]),
        r matches Err(e) ==> (e matches CANopenError::InvalidData(m) && m@ == "Expected 2 bytes for u16, got "@
            + spec_decimal(data@.len())),
{
    if data.len() != 2 {
        proof {
            reveal_strlit("Expected ");
            reveal_strlit("2 bytes");
            reveal_strlit(" for ");
            reveal_strlit("u16");
            reveal_strlit(", got ");
            reveal_strlit("Expected 2 bytes for u16, got ");
            assert("Expected "@ + "2 bytes"@ + " for "@ + "u16"@ + ", got "@ =~= "Expected 2 bytes for u16, got "@);
        }
        return Err(wrong_size_error("2 bytes", "u16", data.len()));
    }
    Ok(u16_from_le(data[0], data[1]))
}

/// The little-endian `u32` that a read returned; any length but 4 is an
/// `InvalidData` error naming the length.
pub fn u32_from_sdo_data(data: &[u8]) -> (r: crate::errors::Result<u32>)
    ensures
        r is Ok <==> data@.len() == 4,
        r matches Ok(v) ==> v == le_u32(data@[0], data@[1], data@[2], data@[3]),
        r matches Err(e) ==> (e matches CANopenError::InvalidData(m) && m@ == "Expected 4 bytes for u32, got "@
            + spec_decimal(data@.len())),
{
    if data.len() != 4 {
        proof {
            reveal_strlit("Expected ");
            reveal_strlit("4 bytes");
            reveal_strlit(" for ");
            reveal_strlit("u32");
            reveal_strlit(", got ");
            reveal_strlit("Expected 4 bytes for u32, got ");
            assert("Expected "@ + "4 bytes"@ + " for "@ + "u32"@ + ", got "@ =~= "Expected 4 bytes for u32, got "@);
        }
        return Err(wrong_size_error("4 bytes", "u32", data.len()));
    }
    Ok(u32_from_le(data[0], data[1], data[2], data[3]))
}

} // verus!
