//! CANopen protocol implementation.
use vstd::prelude::*;

pub mod builders;
pub mod cob_id_laws;
pub mod emcy;
pub mod emcy_laws;
pub mod events;
pub mod le;
pub mod lss;
pub mod lss_laws;
pub mod message;
pub mod nmt;
pub mod od;
pub mod pdo;
pub mod sdo;
pub mod sdo_laws;
pub mod sync;
pub mod types;

pub use message::{CanMessage, CanId, MessageType};
pub use sdo::{SdoDirection, SdoTransfer, SdoState};
pub use nmt::{NmtManager, NmtState, NodeState};
pub use events::MessageEvent;
pub use pdo::PdoManager;
pub use sync::SyncManager;
pub use emcy::{EmcyManager, EmergencyMessage};
pub use lss::{LssAddress, LssCommand, LssError, LssMode, LssResponse};
pub use od::{ObjectId, DataType};
pub use builders::{
    NmtMessageBuilder, SdoClientMessageBuilder, SdoServerMessageBuilder, EmergencyMessageBuilder,
    PdoMessageBuilder, SyncMessageBuilder,
};

verus! {
} // verus!
