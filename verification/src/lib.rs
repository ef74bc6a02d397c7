//! CANopen master/client library: frame codecs, protocol state machines and
//! object-dictionary data conversions, with their contracts proved by Verus.
use vstd::prelude::*;

pub mod canopen;
pub mod errors;
pub mod hardware;
pub mod utils;

pub use canopen::{
    CanId, CanMessage, EmcyManager, EmergencyMessage, LssAddress, LssCommand, LssError, LssMode,
    LssResponse, MessageEvent, MessageType, NmtManager, NmtState, NodeState, PdoManager,
    SdoDirection, SdoState, SdoTransfer, SyncManager,
};
pub use errors::{CANopenError, Result};
pub use hardware::{peak_can::PcanHandle, BusSpeed};

verus! {
} // verus!
