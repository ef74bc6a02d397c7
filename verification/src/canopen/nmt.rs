//! NMT (Network Management): node states, NMT commands and heartbeat
//! tracking.
use vstd::prelude::*;
use std::collections::HashMap;
use std::time::{Duration, SystemTime};
use crate::errors::{CANopenError, Result};
use crate::utils::{system_time_now, system_time_elapsed, duration_as_nanos};
use crate::canopen::message::CanMessage;

verus! {

broadcast use vstd::std_specs::hash::group_hash_axioms;

/// NMT state values as reported in heartbeat messages.
#[derive(Debug, Clone, Copy, PartialEq, Eq, Structural)]
pub enum NmtState {
    /// Initial state after power-on (0x00).
    Boot,
    /// Node stopped (0x04).
    Stopped,
    /// Node operational (0x05).
    Operational,
    /// Node pre-operational (0x7F).
    PreOperational,
    /// Invalid or unknown state (0xFF).
    Invalid,
}

/// The NMT state that a heartbeat byte reports.
pub open spec fn spec_nmt_state_from(b: u8) -> NmtState {
    if b == 0x00 {
        NmtState::Boot
    } else if b == 0x04 {
        NmtState::Stopped
    } else if b == 0x05 {
        NmtState::Operational
    } else if b == 0x7F {
        NmtState::PreOperational
    } else {
        NmtState::Invalid
    }
}

/// The NMT state a heartbeat byte reports: 0x00 boot-up, 0x04 stopped,
/// 0x05 operational, 0x7F pre-operational; any other byte is no valid
/// state.
pub proof fn lemma_heartbeat_state_codes(b: u8)
    ensures
        (spec_nmt_state_from(b) == NmtState::Boot) <==> b == 0x00,
        (spec_nmt_state_from(b) == NmtState::Stopped) <==> b == 0x04,
        (spec_nmt_state_from(b) == NmtState::Operational) <==> b == 0x05,
        (spec_nmt_state_from(b) == NmtState::PreOperational) <==> b == 0x7F,
        (spec_nmt_state_from(b) == NmtState::Invalid) <==> !(b == 0x00 || b == 0x04 || b == 0x05
            || b == 0x7F),
{
}

/// The wire value of each NMT state.
pub open spec fn spec_nmt_state_code(s: NmtState) -> u8 {
    match s {
        NmtState::Boot => 0x00,
        NmtState::Stopped => 0x04,
        NmtState::Operational => 0x05,
        NmtState::PreOperational => 0x7F,
        NmtState::Invalid => 0xFF,
    }
}

impl NmtState {
    /// Decode a heartbeat state byte; unknown values give `Invalid`.
    pub fn from_u8(value: u8) -> (r: NmtState)
        ensures
            r == spec_nmt_state_from(value),
    {
        if value == 0x00 {
            NmtState::Boot
        } else if value == 0x04 {
            NmtState::Stopped
        } else if value == 0x05 {
            NmtState::Operational
        } else if value == 0x7F {
            NmtState::PreOperational
        } else {
            NmtState::Invalid
        }
    }

    /// The wire value of this state.
    pub fn to_u8(self) -> (r: u8)
        ensures
            r == spec_nmt_state_code(self),
    {
        match self {
            NmtState::Boot => 0x00,
            NmtState::Stopped => 0x04,
            NmtState::Operational => 0x05,
            NmtState::PreOperational => 0x7F,
            NmtState::Invalid => 0xFF,
        }
    }

    /// Human-readable name of the state.
    pub fn as_str(&self) -> (r: &'static str)
        ensures
            r@ == match *self {
                NmtState::Boot => "Boot"@,
                NmtState::Stopped => "Stopped"@,
                NmtState::Operational => "Operational"@,
                NmtState::PreOperational => "Pre-Operational"@,
                NmtState::Invalid => "Invalid"@,
            },
    {
        match self {
            NmtState::Boot => "Boot",
            NmtState::Stopped => "Stopped",
            NmtState::Operational => "Operational",
            NmtState::PreOperational => "Pre-Operational",
            NmtState::Invalid => "Invalid",
        }
    }
}

impl From<u8> for NmtState {
    fn from(value: u8) -> (r: NmtState) {
        NmtState::from_u8(value)
    }
}

impl vstd::std_specs::convert::FromSpecImpl<u8> for NmtState {
    open spec fn obeys_from_spec() -> bool {
        true
    }

    open spec fn from_spec(value: u8) -> NmtState {
        spec_nmt_state_from(value)
    }
}

/// Every state is read back from its own wire value.
pub proof fn lemma_nmt_state_code_roundtrip(s: NmtState)
    ensures
        spec_nmt_state_from(spec_nmt_state_code(s)) == s,
{
}

/// NMT command codes sent to nodes.
#[derive(Debug, Clone, Copy, PartialEq, Eq, Structural)]
pub enum NmtCommand {
    /// Start remote node, to Operational (0x01).
    StartRemoteNode,
    /// Stop remote node, to Stopped (0x02).
    StopRemoteNode,
    /// Enter pre-operational state (0x80).
    EnterPreOperational,
    /// Reset node (0x81).
    ResetNode,
    /// Reset communication (0x82).
    ResetCommunication,
}

/// The wire value of each NMT command.
pub open spec fn spec_nmt_command_value(c: NmtCommand) -> u8 {
    match c {
        NmtCommand::StartRemoteNode => 0x01,
        NmtCommand::StopRemoteNode => 0x02,
        NmtCommand::EnterPreOperational => 0x80,
        NmtCommand::ResetNode => 0x81,
        NmtCommand::ResetCommunication => 0x82,
    }
}

impl NmtCommand {
    /// The wire value of this command.
    pub fn to_u8(self) -> (r: u8)
        ensures
            r == spec_nmt_command_value(self),
    {
        match self {
            NmtCommand::StartRemoteNode => 0x01,
            NmtCommand::StopRemoteNode => 0x02,
            NmtCommand::EnterPreOperational => 0x80,
            NmtCommand::ResetNode => 0x81,
            NmtCommand::ResetCommunication => 0x82,
        }
    }
}

/// State information for a single CANopen node.
#[derive(Debug, Clone)]
pub struct NodeState {
    /// Current NMT state.
    pub state: NmtState,
    /// Previous NMT state.
    pub last_state: NmtState,
    /// Time of the last heartbeat.
    pub last_heartbeat: SystemTime,
    /// Node ID (1-127).
    pub node_id: u8,
}

impl NodeState {
    /// A tracker for `node_id` that has seen no heartbeat yet, created now.
    /// The clock is read and the reading handed to `new_at`.
    pub fn new(node_id: u8) -> (r: NodeState)
        ensures
            r.node_id == node_id,
            r.state == NmtState::Invalid,
            r.last_state == NmtState::Invalid,
    {
        NodeState::new_at(node_id, system_time_now())
    }

    /// A tracker for `node_id` that has seen no heartbeat yet, created at
    /// `now`.
    pub fn new_at(node_id: u8, now: SystemTime) -> (r: NodeState)
        ensures
            r.node_id == node_id,
            r.state == NmtState::Invalid,
            r.last_state == NmtState::Invalid,
            r.last_heartbeat == now,
    {
        NodeState { state: NmtState::Invalid, last_state: NmtState::Invalid, last_heartbeat: now, node_id }
    }

    /// Record a heartbeat received now; returns whether the state changed.
    /// The clock is read and the reading handed to `update_state_at`.
    pub fn update_state(&mut self, new_state: NmtState) -> (changed: bool)
        ensures
            changed == (new_state != old(self).state),
            final(self).state == new_state,
            final(self).last_state == (if changed {
                old(self).state
            } else {
                old(self).last_state
            }),
            final(self).node_id == old(self).node_id,
    {
        self.update_state_at(new_state, system_time_now())
    }

    /// Record a heartbeat received at `now`; returns whether the state
    /// changed.
    pub fn update_state_at(&mut self, new_state: NmtState, now: SystemTime) -> (changed: bool)
        ensures
            changed == (new_state != old(self).state),
            final(self).state == new_state,
            final(self).last_state == (if changed {
                old(self).state
            } else {
                old(self).last_state
            }),
            final(self).node_id == old(self).node_id,
            final(self).last_heartbeat == now,
    {
        self.last_heartbeat = now;
        if new_state != self.state {
            self.last_state = self.state;
            self.state = new_state;
            true
        } else {
            false
        }
    }

    /// Whether more than `timeout` has passed since the last heartbeat.
    /// The time elapsed since `self.last_heartbeat` is read from the clock
    /// (none when the clock went backwards) and handed, with the timeout, in
    /// nanoseconds to `heartbeat_timed_out`.
    pub fn is_timeout(&self, timeout: Duration) -> bool {
        let elapsed_ns: Option<u128> = match system_time_elapsed(&self.last_heartbeat) {
            Some(elapsed) => Some(duration_as_nanos(&elapsed)),
            None => None,
        };
        heartbeat_timed_out(elapsed_ns, duration_as_nanos(&timeout))
    }
}

/// A node is timed out when a time has elapsed since its last heartbeat and
/// it exceeds the timeout.
pub open spec fn spec_heartbeat_timed_out(elapsed_ns: Option<u128>, timeout_ns: u128) -> bool {
    elapsed_ns matches Some(e) && e > timeout_ns
}

/// Whether a node whose last heartbeat lies `elapsed_ns` nanoseconds back
/// (none when the clock went backwards) has exceeded `timeout_ns`.
pub fn heartbeat_timed_out(elapsed_ns: Option<u128>, timeout_ns: u128) -> (r: bool)
    ensures
        r == spec_heartbeat_timed_out(elapsed_ns, timeout_ns),
{
    match elapsed_ns {
        Some(e) => e > timeout_ns,
        None => false,
    }
}

/// Builds the NMT command frame `[command, node_id]` on COB-ID 0x000
/// (node_id 0 addresses all nodes).
pub fn nmt_command_message(command: NmtCommand, node_id: u8) -> (r: CanMessage)
    ensures
        r.id.0 == 0x000,
        r.data@ == seq![spec_nmt_command_value(command), node_id],
        !r.remote,
{
    let mut data: Vec<u8> = Vec::new();
    data.push(command.to_u8());
    data.push(node_id);
    CanMessage::new_unchecked(0x000, data)
}

/// Per-node NMT state tracking for node-IDs 1 to 127.
pub struct NmtManager {
    nodes: HashMap<u8, NodeState>,
}

impl NmtManager {
    /// The tracker of every node-ID, by node-ID.
    pub closed spec fn view(&self) -> Map<u8, NodeState> {
        self.nodes@
    }

    /// Exactly the node-IDs 1 to 127 are tracked, each by its own tracker.
    pub closed spec fn wf(&self) -> bool {
        &&& forall|id: u8| #[trigger] self.nodes@.contains_key(id) <==> 1 <= id <= 127
        &&& forall|id: u8| 1 <= id <= 127 ==> #[trigger] self.nodes@[id].node_id == id
    }

    /// The state tracked for `node_id`, if it is in range.
    pub open spec fn spec_state_of(&self, node_id: u8) -> Option<NmtState> {
        if 1 <= node_id <= 127 {
            Some(self.view()[node_id].state)
        } else {
            None
        }
    }

    /// A manager that tracks nodes 1 to 127, all in state `Invalid`.
    pub fn new() -> (r: NmtManager)
        ensures
            r.wf(),
            forall|id: u8| #[trigger] r.view().contains_key(id) <==> 1 <= id <= 127,
            forall|id: u8| 1 <= id <= 127 ==> (#[trigger] r.view()[id]).state == NmtState::Invalid,
            forall|id: u8| 1 <= id <= 127 ==> (#[trigger] r.view()[id]).node_id == id,
    {
        let mut nodes: HashMap<u8, NodeState> = HashMap::new();
        let mut id: u8 = 1;
        while id <= 127
            invariant
                1 <= id <= 128,
                forall|k: u8| #[trigger] nodes@.contains_key(k) <==> 1 <= k < id,
                forall|k: u8| 1 <= k < id ==> (#[trigger] nodes@[k]).node_id == k,
                forall|k: u8| 1 <= k < id ==> (#[trigger] nodes@[k]).state == NmtState::Invalid,
            decreases 128 - id,
        {
            nodes.insert(id, NodeState::new(id));
            id = id + 1;
        }
        NmtManager { nodes }
    }

    /// Process a heartbeat (COB-ID 0x700 + node-ID); returns whether the
    /// node's state changed.
    pub fn process_heartbeat(&mut self, message: &CanMessage) -> (r: Result<bool>)
        requires
            old(self).wf(),
        ensures
            final(self).wf(),
            !(0x700 <= message.id.0 <= 0x77F) ==> (r matches Ok(b) && !b && final(self).view()
                == old(self).view()),
            (0x700 <= message.id.0 <= 0x77F && message.data@.len() == 0) ==> (r matches Err(e)
                && e is InvalidMessage && final(self).view() == old(self).view()),
            message.id.0 == 0x700 && message.data@.len() > 0 ==> (r matches Ok(b) && !b
                && final(self).view() == old(self).view()),
            (0x701 <= message.id.0 <= 0x77F && message.data@.len() > 0) ==> {
                let id = (message.id.0 - 0x700) as u8;
                let new_state = spec_nmt_state_from(message.data@[0]);
                let before = old(self).view()[id];
                let after = final(self).view()[id];
                &&& r matches Ok(b) && b == (new_state != before.state)
                &&& after.state == new_state
                &&& after.node_id == before.node_id
                &&& after.last_state == (if new_state != before.state {
                    before.state
                } else {
                    before.last_state
                })
                &&& final(self).view().dom() == old(self).view().dom()
                &&& forall|j: u8|
                    j != id ==> #[trigger] final(self).view()[j] == old(self).view()[j]
            },
    {
        let cob_id: u16 = message.id.raw();
        if !(0x700 <= cob_id && cob_id <= 0x77F) {
            return Ok(false);
        }
        let node_id: u8 = (cob_id - 0x700) as u8;
        if message.data.len() == 0 {
            return Err(CANopenError::InvalidMessage);
        }
        let new_state = NmtState::from_u8(message.data[0]);
        if node_id >= 1 && node_id <= 127 {
            let current = match self.nodes.get(&node_id) {
                Some(n) => n,
                None => {
                    proof {
                        assert(self.nodes@.contains_key(node_id));
                    }
                    return Ok(false);
                },
            };
            let mut node = NodeState {
                state: current.state,
                last_state: current.last_state,
                last_heartbeat: current.last_heartbeat.clone(),
                node_id: current.node_id,
            };
            let changed = node.update_state(new_state);
            self.nodes.insert(node_id, node);
            proof {
                assert(self.view().dom() =~= old(self).view().dom());
            }
            Ok(changed)
        } else {
            Ok(false)
        }
    }

    /// The tracker of `node_id`, for node-IDs 1 to 127.
    pub fn get_node_state(&self, node_id: u8) -> (r: Option<&NodeState>)
        requires
            self.wf(),
        ensures
            r is Some <==> 1 <= node_id <= 127,
            r matches Some(n) ==> *n == self.view()[node_id] && n.node_id == node_id,
    {
        self.nodes.get(&node_id)
    }

    /// Whether a node has reported a state (is not `Invalid`).
    pub fn is_node_found(&self, node_id: u8) -> (r: bool)
        requires
            self.wf(),
        ensures
            r == (self.spec_state_of(node_id) matches Some(s) && s != NmtState::Invalid),
    {
        match self.get_node_state(node_id) {
            Some(node) => node.state != NmtState::Invalid,
            None => false,
        }
    }

    /// Whether a known node's last heartbeat is within `timeout`: the
    /// tracker of `node_id` decides (see `NodeState::is_timeout`). False for
    /// node-IDs outside 1..=127.
    pub fn check_heartbeat(&self, node_id: u8, timeout: Duration) -> (r: bool)
        requires
            self.wf(),
        ensures
            !(1 <= node_id <= 127) ==> !r,
    {
        match self.get_node_state(node_id) {
            Some(node) => !node.is_timeout(timeout),
            None => false,
        }
    }

    /// The node-IDs, in ascending order, whose state is `target_state`.
    pub fn get_nodes_in_state(&self, target_state: NmtState) -> (r: Vec<u8>)
        requires
            self.wf(),
        ensures
            forall|k: int| 0 <= k < r@.len() ==> 1 <= #[trigger] r@[k] <= 127,
            forall|k: int, l: int| 0 <= k < l < r@.len() ==> r@[k] < r@[l],
            forall|id: u8|
                #![trigger self.spec_state_of(id)]
                1 <= id <= 127 ==> (r@.contains(id) <==> self.spec_state_of(id) == Some(
                    target_state,
                )),
    {
        self.collect_nodes(target_state, false)
    }

    /// The node-IDs, in ascending order, that have reported a state.
    pub fn get_discovered_nodes(&self) -> (r: Vec<u8>)
        requires
            self.wf(),
        ensures
            forall|k: int| 0 <= k < r@.len() ==> 1 <= #[trigger] r@[k] <= 127,
            forall|k: int, l: int| 0 <= k < l < r@.len() ==> r@[k] < r@[l],
            forall|id: u8|
                #![trigger self.spec_state_of(id)]
                1 <= id <= 127 ==> (r@.contains(id) <==> self.spec_state_of(id) != Some(
                    NmtState::Invalid,
                )),
    {
        self.collect_nodes(NmtState::Invalid, true)
    }

    /// Node-IDs whose state equals `target` (or differs from it, when
    /// `negate`), in ascending order.
    fn collect_nodes(&self, target: NmtState, negate: bool) -> (r: Vec<u8>)
        requires
            self.wf(),
        ensures
            forall|k: int| 0 <= k < r@.len() ==> 1 <= #[trigger] r@[k] <= 127,
            forall|k: int, l: int| 0 <= k < l < r@.len() ==> r@[k] < r@[l],
            forall|id: u8|
                #![trigger self.spec_state_of(id)]
                1 <= id <= 127 ==> (r@.contains(id) <==> ((self.spec_state_of(id) == Some(target))
                    != negate)),
    {
        let mut out: Vec<u8> = Vec::new();
        let mut id: u8 = 1;
        while id <= 127
            invariant
                self.wf(),
                1 <= id <= 128,
                forall|k: int| 0 <= k < out@.len() ==> 1 <= #[trigger] out@[k] < id,
                forall|k: int, l: int| 0 <= k < l < out@.len() ==> out@[k] < out@[l],
                forall|x: u8|
                    1 <= x < id ==> (out@.contains(x) <==> ((self.view()[x].state == target)
                        != negate)),
            decreases 128 - id,
        {
            let matches_target: bool = match self.nodes.get(&id) {
                Some(n) => n.state == target,
                None => false,
            };
            proof {
                assert(self.nodes@.contains_key(id));
            }
            let ghost before = out@;
            if matches_target != negate {
                out.push(id);
                proof {
                    assert forall|x: u8| 1 <= x < id + 1 implies (out@.contains(x) <==> ((
                    self.view()[x].state == target) != negate)) by {
                        if x == id {
                            assert(out@[out@.len() - 1] == x);
                        } else {
                            if out@.contains(x) {
                                let k = choose|k: int| 0 <= k < out@.len() && out@[k] == x;
                                if k == out@.len() - 1 {
                                } else {
                                    assert(before[k] == x);
                                }
                            }
                            if before.contains(x) {
                                let k = choose|k: int| 0 <= k < before.len() && before[k] == x;
                                assert(out@[k] == x);
                            }
                        }
                    }
                }
            } else {
                proof {
                    assert forall|x: u8| 1 <= x < id + 1 implies (out@.contains(x) <==> ((
                    self.view()[x].state == target) != negate)) by {
                        if x == id && out@.contains(x) {
                            let k = choose|k: int| 0 <= k < out@.len() && out@[k] == x;
                            assert(out@[k] < id);
                        }
                    }
                }
            }
            id = id + 1;
        }
        out
    }
}

} // verus!
