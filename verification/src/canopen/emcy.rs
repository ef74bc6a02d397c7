//! EMCY (emergency) objects: decoding of the 8-byte emergency frame that a
//! node sends on COB-ID 0x80 + node id, and a shared table of the latest
//! emergency per node together with per-node handlers.
use vstd::prelude::*;
use vstd::rwlock::{RwLock, RwLockPredicate};
use std::collections::HashMap;
use std::sync::Arc;
use crate::canopen::le::le_u16;

verus! {

broadcast use vstd::std_specs::hash::group_hash_axioms;

/// Emergency COB-ID base (0x80); node `n` sends its EMCY on 0x80 + n.
pub const EMCY_COB_ID_BASE: u16 = 0x80;

/// A decoded emergency message.
#[derive(Debug, Clone, Copy, PartialEq, Eq)]
pub struct EmergencyMessage {
    /// Node that sent the emergency.
    pub node_id: u8,
    /// Emergency error code (little-endian bytes 0-1 of the frame).
    pub error_code: u16,
    /// Error register (byte 2 of the frame).
    pub error_register: u8,
    /// Manufacturer-specific error field (bytes 3-7 of the frame).
    pub manufacturer_data: [u8; 5],
}

/// A COB-ID lies in the EMCY range 0x81..=0xFF (nodes 1 to 127).
pub open spec fn spec_is_emcy_cob_id(cob_id: u16) -> bool {
    0x81 <= cob_id <= 0xFF
}

/// `m` is what the frame `data`, received on `cob_id`, decodes to.
pub open spec fn spec_emcy_decodes_to(cob_id: u16, data: Seq<u8>, m: EmergencyMessage) -> bool {
    &&& m.node_id == cob_id - EMCY_COB_ID_BASE
    &&& m.error_code == le_u16(data[0], data[1])
    &&& m.error_register == data[2]
    &&& m.manufacturer_data@ == data.subrange(3, 8)
}

/// The text that describes each standard emergency error code.
pub open spec fn spec_emcy_description(code: u16) -> Seq<char> {
    if code == 0x0000 { "No Error / Error Reset"@ }
    else if code == 0x1000 { "Generic Error"@ }
    else if code == 0x2000 { "Current - Generic"@ }
    else if code == 0x2010 { "Current - Input Side"@ }
    else if code == 0x2020 { "Current - Output Side"@ }
    else if code == 0x3000 { "Voltage - Generic"@ }
    else if code == 0x3010 { "Voltage - Mains Input"@ }
    else if code == 0x3020 { "Voltage - Inside Device"@ }
    else if code == 0x3030 { "Voltage - Output"@ }
    else if code == 0x4000 { "Temperature - Generic"@ }
    else if code == 0x4010 { "Temperature - Ambient"@ }
    else if code == 0x4020 { "Temperature - Device"@ }
    else if code == 0x5000 { "Device Hardware"@ }
    else if code == 0x6000 { "Device Software - Generic"@ }
    else if code == 0x6010 { "Internal Software"@ }
    else if code == 0x6020 { "User Software"@ }
    else if code == 0x6030 { "Data Set"@ }
    else if code == 0x7000 { "Additional Modules"@ }
    else if code == 0x8000 { "Monitoring - Generic"@ }
    else if code == 0x8100 { "Communication - Generic"@ }
    else if code == 0x8110 { "CAN Overrun (Objects Lost)"@ }
    else if code == 0x8120 { "CAN Passive Mode"@ }
    else if code == 0x8130 { "Life Guard Error / Heartbeat Error"@ }
    else if code == 0x8140 { "Bus Off Recovered"@ }
    else if code == 0x8150 { "Transmit COB-ID Collision"@ }
    else if code == 0x8200 { "Protocol Error - Generic"@ }
    else if code == 0x8210 { "PDO Length Error"@ }
    else if code == 0x8220 { "PDO Length Exceeded"@ }
    else if code == 0x8230 { "DAM MPDO Not Processed"@ }
    else if code == 0x8240 { "Unexpected SYNC Length"@ }
    else if code == 0x8250 { "RPDO Timeout"@ }
    else if code == 0x9000 { "External Error"@ }
    else if code == 0xF000 { "Additional Functions"@ }
    else if code == 0xFF00 { "Device Specific"@ }
    else { "Unknown Error Code"@ }
}

impl EmergencyMessage {
    /// Decode an emergency frame received on `cob_id`.
    ///
    /// Succeeds exactly when the COB-ID lies in 0x81..=0xFF and the frame
    /// has 8 bytes.
    pub fn from_can_data(cob_id: u16, data: &[u8]) -> (r: Option<EmergencyMessage>)
        ensures
            r is Some <==> (spec_is_emcy_cob_id(cob_id) && data@.len() == 8),
            r matches Some(m) ==> spec_emcy_decodes_to(cob_id, data@, m),
    {
        if cob_id < 0x81 || cob_id > 0xFF {
            return None;
        }
        if data.len() != 8 {
            return None;
        }
        let node_id: u8 = (cob_id - EMCY_COB_ID_BASE) as u8;
        let error_code: u16 = crate::canopen::le::u16_from_le(data[0], data[1]);
        let manufacturer_data: [u8; 5] = [data[3], data[4], data[5], data[6], data[7]];
        assert(manufacturer_data@ =~= data@.subrange(3, 8));
        Some(EmergencyMessage {
            node_id,
            error_code,
            error_register: data[2],
            manufacturer_data,
        })
    }

    /// Human-readable description of the error code.
    pub fn error_code_description(&self) -> (r: &'static str)
        ensures
            r@ == spec_emcy_description(self.error_code),
    {
        let c = self.error_code;
        if c == 0x0000 { "No Error / Error Reset" }
        else if c == 0x1000 { "Generic Error" }
        else if c == 0x2000 { "Current - Generic" }
        else if c == 0x2010 { "Current - Input Side" }
        else if c == 0x2020 { "Current - Output Side" }
        else if c == 0x3000 { "Voltage - Generic" }
        else if c == 0x3010 { "Voltage - Mains Input" }
        else if c == 0x3020 { "Voltage - Inside Device" }
        else if c == 0x3030 { "Voltage - Output" }
        else if c == 0x4000 { "Temperature - Generic" }
        else if c == 0x4010 { "Temperature - Ambient" }
        else if c == 0x4020 { "Temperature - Device" }
        else if c == 0x5000 { "Device Hardware" }
        else if c == 0x6000 { "Device Software - Generic" }
        else if c == 0x6010 { "Internal Software" }
        else if c == 0x6020 { "User Software" }
        else if c == 0x6030 { "Data Set" }
        else if c == 0x7000 { "Additional Modules" }
        else if c == 0x8000 { "Monitoring - Generic" }
        else if c == 0x8100 { "Communication - Generic" }
        else if c == 0x8110 { "CAN Overrun (Objects Lost)" }
        else if c == 0x8120 { "CAN Passive Mode" }
        else if c == 0x8130 { "Life Guard Error / Heartbeat Error" }
        else if c == 0x8140 { "Bus Off Recovered" }
        else if c == 0x8150 { "Transmit COB-ID Collision" }
        else if c == 0x8200 { "Protocol Error - Generic" }
        else if c == 0x8210 { "PDO Length Error" }
        else if c == 0x8220 { "PDO Length Exceeded" }
        else if c == 0x8230 { "DAM MPDO Not Processed" }
        else if c == 0x8240 { "Unexpected SYNC Length" }
        else if c == 0x8250 { "RPDO Timeout" }
        else if c == 0x9000 { "External Error" }
        else if c == 0xF000 { "Additional Functions" }
        else if c == 0xFF00 { "Device Specific" }
        else { "Unknown Error Code" }
    }

    /// An error code of 0x0000 signals that the node's errors were reset.
    pub fn is_error_reset(&self) -> (r: bool)
        ensures
            r == (self.error_code == 0),
    {
        self.error_code == 0
    }
}


/// Per-node emergency handlers and the latest emergency of each node.
///
/// Handlers are kept only for node ids 1 to 127, and the stored emergency
/// of node `n` is one that node `n` sent.
pub struct EmcyRegistry<H> {
    handlers: HashMap<u8, H>,
    recent: HashMap<u8, EmergencyMessage>,
}

impl<H> EmcyRegistry<H> {
    /// The registered handlers, by node id.
    pub closed spec fn handlers_view(&self) -> Map<u8, H> {
        self.handlers@
    }

    /// The latest emergency of each node that sent one.
    pub closed spec fn recent_view(&self) -> Map<u8, EmergencyMessage> {
        self.recent@
    }

    /// Handlers only for valid node ids; each stored emergency is filed
    /// under the node that sent it.
    pub open spec fn wf(&self) -> bool {
        &&& forall|n: u8| #[trigger] self.handlers_view().contains_key(n) ==> 1 <= n <= 127
        &&& forall|n: u8| #[trigger] self.recent_view().contains_key(n)
            ==> 1 <= n <= 127 && self.recent_view()[n].node_id == n
    }

    /// An empty registry.
    pub fn new() -> (r: EmcyRegistry<H>)
        ensures
            r.wf(),
            r.handlers_view() == Map::<u8, H>::empty(),
            r.recent_view() == Map::<u8, EmergencyMessage>::empty(),
    {
        EmcyRegistry { handlers: HashMap::new(), recent: HashMap::new() }
    }

    /// Register `handler` for `node_id`; ids outside 1..=127 are ignored.
    pub fn register(&mut self, node_id: u8, handler: H)
        requires
            old(self).wf(),
        ensures
            final(self).wf(),
            final(self).recent_view() == old(self).recent_view(),
            final(self).handlers_view() == if 1 <= node_id <= 127 {
                old(self).handlers_view().insert(node_id, handler)
            } else {
                old(self).handlers_view()
            },
    {
        if 1 <= node_id && node_id <= 127 {
            self.handlers.insert(node_id, handler);
            assert forall|n: u8| #[trigger] self.handlers_view().contains_key(n) implies 1 <= n <= 127 by {
                if n != node_id {
                    assert(old(self).handlers_view().contains_key(n));
                }
            }
        }
        assert(self.recent_view() == old(self).recent_view());
    }

    /// Remove the handler of `node_id`, if any.
    pub fn unregister(&mut self, node_id: u8)
        requires
            old(self).wf(),
        ensures
            final(self).wf(),
            final(self).recent_view() == old(self).recent_view(),
            final(self).handlers_view() == old(self).handlers_view().remove(node_id),
    {
        self.handlers.remove(&node_id);
        assert forall|n: u8| #[trigger] self.handlers_view().contains_key(n) implies 1 <= n <= 127 by {
            assert(old(self).handlers_view().contains_key(n));
        }
        assert(self.recent_view() == old(self).recent_view());
    }

    /// Decode an emergency frame and, when it decodes, keep it as the latest
    /// emergency of its node.
    pub fn record(&mut self, cob_id: u16, data: &[u8]) -> (r: Option<EmergencyMessage>)
        requires
            old(self).wf(),
        ensures
            final(self).wf(),
            r is Some <==> (spec_is_emcy_cob_id(cob_id) && data@.len() == 8),
            r matches Some(m) ==> spec_emcy_decodes_to(cob_id, data@, m),
            final(self).handlers_view() == old(self).handlers_view(),
            final(self).recent_view() == match r {
                Some(m) => old(self).recent_view().insert(m.node_id, m),
                None => old(self).recent_view(),
            },
    {
        let parsed = EmergencyMessage::from_can_data(cob_id, data);
        if let Some(m) = parsed {
            self.recent.insert(m.node_id, m);
            assert forall|n: u8| #[trigger] self.recent_view().contains_key(n) implies
                1 <= n <= 127 && self.recent_view()[n].node_id == n by {
                if n != m.node_id {
                    assert(old(self).recent_view().contains_key(n));
                }
            }
        }
        assert(self.handlers_view() == old(self).handlers_view());
        parsed
    }

    /// The latest emergency of `node_id`, if one was recorded.
    pub fn recent(&self, node_id: u8) -> (r: Option<EmergencyMessage>)
        ensures
            r == if self.recent_view().contains_key(node_id) {
                Some(self.recent_view()[node_id])
            } else {
                None::<EmergencyMessage>
            },
    {
        match self.recent.get(&node_id) {
            Some(m) => Some(*m),
            None => None,
        }
    }

    /// Forget every recorded emergency; handlers stay.
    pub fn clear_recent(&mut self)
        requires
            old(self).wf(),
        ensures
            final(self).wf(),
            final(self).handlers_view() == old(self).handlers_view(),
            final(self).recent_view() == Map::<u8, EmergencyMessage>::empty(),
    {
        self.recent.clear();
        assert(self.recent_view() =~= Map::<u8, EmergencyMessage>::empty());
        assert(self.handlers_view() == old(self).handlers_view());
    }

    /// Whether a handler is registered for `node_id`.
    pub fn has_handler(&self, node_id: u8) -> (r: bool)
        ensures
            r == self.handlers_view().contains_key(node_id),
    {
        self.handlers.contains_key(&node_id)
    }
}

impl<H: Clone> EmcyRegistry<H> {
    /// A copy of the handler registered for `node_id`.
    pub fn handler(&self, node_id: u8) -> (r: Option<H>)
        ensures
            r is Some == self.handlers_view().contains_key(node_id),
            r matches Some(h) ==> cloned::<H>(self.handlers_view()[node_id], h),
    {
        match self.handlers.get(&node_id) {
            Some(h) => Some(h.clone()),
            None => None,
        }
    }
}


/// The lock predicate of the shared registry: it stays well formed.
pub struct EmcyRegistryWf;

impl<H> RwLockPredicate<EmcyRegistry<H>> for EmcyRegistryWf {
    open spec fn inv(self, v: EmcyRegistry<H>) -> bool {
        v.wf()
    }
}

/// Emergency manager: a registry shared by all clones of the manager.
pub struct EmcyManager<H = ()> {
    registry: Arc<RwLock<EmcyRegistry<H>, EmcyRegistryWf>>,
}

impl<H> EmcyManager<H> {
    /// Both managers operate on the same registry.
    pub closed spec fn shares_registry_with(&self, other: &EmcyManager<H>) -> bool {
        self.registry == other.registry
    }

    /// A manager with no handlers and no recorded emergency.
    pub fn new() -> (r: EmcyManager<H>) {
        let registry = EmcyRegistry::new();
        EmcyManager { registry: Arc::new(RwLock::new(registry, Ghost(EmcyRegistryWf))) }
    }

    /// Register `handler` for `node_id` (1 to 127); other ids are ignored.
    pub fn register_emcy_handler(&self, node_id: u8, handler: H) {
        let (mut reg, handle) = self.registry.acquire_write();
        reg.register(node_id, handler);
        handle.release_write(reg);
    }

    /// Remove the handler of `node_id`, if any.
    pub fn unregister_emcy_handler(&self, node_id: u8) {
        let (mut reg, handle) = self.registry.acquire_write();
        reg.unregister(node_id);
        handle.release_write(reg);
    }

    /// The latest emergency that `node_id` sent, if one was recorded.
    pub fn get_recent_emcy(&self, node_id: u8) -> (r: Option<EmergencyMessage>)
        ensures
            r matches Some(m) ==> m.node_id == node_id && 1 <= node_id <= 127,
    {
        let handle = self.registry.acquire_read();
        let r = handle.borrow().recent(node_id);
        handle.release_read();
        r
    }

    /// Forget every recorded emergency.
    pub fn clear_recent_emcy(&self) {
        let (mut reg, handle) = self.registry.acquire_write();
        reg.clear_recent();
        handle.release_write(reg);
    }
}

impl EmcyManager {
    /// A COB-ID is an emergency COB-ID when it lies in 0x81..=0xFF.
    pub fn is_emcy_message(cob_id: u16) -> (r: bool)
        ensures
            r == spec_is_emcy_cob_id(cob_id),
    {
        0x81 <= cob_id && cob_id <= 0xFF
    }
}

impl<H: Clone> EmcyManager<H> {
    /// Process a received emergency frame: when it decodes, it becomes the
    /// latest emergency of its node, and the result holds it with a copy of
    /// the handler registered for that node, which the caller invokes.
    pub fn process_emcy(&self, cob_id: u16, data: &[u8]) -> (r: Option<(EmergencyMessage, Option<H>)>)
        ensures
            r is Some <==> (spec_is_emcy_cob_id(cob_id) && data@.len() == 8),
            r matches Some((m, _)) ==> spec_emcy_decodes_to(cob_id, data@, m),
    {
        let (mut reg, handle) = self.registry.acquire_write();
        let parsed = reg.record(cob_id, data);
        let r = match parsed {
            Some(m) => Some((m, reg.handler(m.node_id))),
            None => None,
        };
        handle.release_write(reg);
        r
    }
}

impl<H> Clone for EmcyManager<H> {
    /// A second handle on the same shared registry.
    fn clone(&self) -> (r: EmcyManager<H>)
        ensures
            r.shares_registry_with(self),
    {
        EmcyManager { registry: self.registry.clone() }
    }
}

} // verus!
