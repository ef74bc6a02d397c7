//! PDO (process data object) handling: the latest payload per PDO COB-ID
//! and the handlers registered for PDO COB-IDs.
use vstd::prelude::*;
use std::collections::HashMap;
use crate::errors::Result;
use crate::canopen::message::CanMessage;

verus! {

broadcast use vstd::std_specs::hash::group_hash_axioms;

/// A COB-ID lies in the PDO range 0x180..=0x57F (TPDO1 to RPDO4).
pub open spec fn spec_is_pdo_cob_id(cob_id: u16) -> bool {
    0x180 <= cob_id <= 0x57F
}

/// PDO manager: handlers by COB-ID and the latest payload of each PDO.
pub struct PdoManager<H = ()> {
    pdo_callbacks: HashMap<u16, H>,
    recent_pdos: HashMap<u16, Vec<u8>>,
}

impl<H> PdoManager<H> {
    /// The registered handlers, by COB-ID.
    pub closed spec fn handlers_view(&self) -> Map<u16, H> {
        self.pdo_callbacks@
    }

    /// The latest payload received on each PDO COB-ID.
    pub closed spec fn recent_view(&self) -> Map<u16, Seq<u8>> {
        Map::new(|k: u16| self.recent_pdos@.contains_key(k), |k: u16| self.recent_pdos@[k]@)
    }

    /// A manager with no handler and no payload.
    pub fn new() -> (r: PdoManager<H>)
        ensures
            r.handlers_view() == Map::<u16, H>::empty(),
            r.recent_view() == Map::<u16, Seq<u8>>::empty(),
    {
        let r = PdoManager { pdo_callbacks: HashMap::new(), recent_pdos: HashMap::new() };
        assert(r.recent_view() =~= Map::<u16, Seq<u8>>::empty());
        r
    }

    /// Register `handler` for `cob_id`, replacing any earlier one: the
    /// handler count grows by one exactly when `cob_id` had no handler.
    pub fn register_pdo_handler(&mut self, cob_id: u16, handler: H)
        ensures
            final(self).handlers_view() == old(self).handlers_view().insert(cob_id, handler),
            final(self).handlers_view().len() == old(self).handlers_view().len() + if old(
                self,
            ).handlers_view().contains_key(cob_id) {
                0int
            } else {
                1int
            },
            final(self).recent_view() == old(self).recent_view(),
    {
        proof {
            assert(old(self).pdo_callbacks@.dom().finite());
        }
        self.pdo_callbacks.insert(cob_id, handler);
    }

    /// Remove the handler of `cob_id`, if any: the handler count drops by one
    /// exactly when `cob_id` had a handler.
    pub fn unregister_pdo_handler(&mut self, cob_id: u16)
        ensures
            final(self).handlers_view() == old(self).handlers_view().remove(cob_id),
            final(self).handlers_view().len() == old(self).handlers_view().len() - if old(
                self,
            ).handlers_view().contains_key(cob_id) {
                1int
            } else {
                0int
            },
            final(self).recent_view() == old(self).recent_view(),
    {
        proof {
            assert(old(self).pdo_callbacks@.dom().finite());
        }
        self.pdo_callbacks.remove(&cob_id);
    }

    /// Take in a received message. A PDO message becomes the latest payload
    /// of its COB-ID, and the result tells whether a handler is registered
    /// for it (the caller then invokes that handler on the payload); any
    /// other message changes nothing and gives `Ok(false)`.
    pub fn process_pdo(&mut self, message: &CanMessage) -> (r: Result<bool>)
        ensures
            final(self).handlers_view() == old(self).handlers_view(),
            r == Ok::<bool, crate::errors::CANopenError>(
                spec_is_pdo_cob_id(message.id.0)
                    && old(self).handlers_view().contains_key(message.id.0),
            ),
            final(self).recent_view() == if spec_is_pdo_cob_id(message.id.0) {
                old(self).recent_view().insert(message.id.0, message.data@)
            } else {
                old(self).recent_view()
            },
    {
        let cob_id = message.id.raw();
        if !PdoManager::is_pdo_message(cob_id) {
            return Ok(false);
        }
        let payload = vstd::slice::slice_to_vec(message.data.as_slice());
        self.recent_pdos.insert(cob_id, payload);
        proof {
            assert(self.recent_view() =~= old(self).recent_view().insert(cob_id, message.data@));
        }
        Ok(self.pdo_callbacks.contains_key(&cob_id))
    }

    /// The latest payload received on `cob_id`, if any.
    pub fn get_recent_pdo(&self, cob_id: u16) -> (r: Option<Vec<u8>>)
        ensures
            r is Some == self.recent_view().contains_key(cob_id),
            r matches Some(v) ==> v@ == self.recent_view()[cob_id],
    {
        match self.recent_pdos.get(&cob_id) {
            Some(v) => Some(vstd::slice::slice_to_vec(v.as_slice())),
            None => None,
        }
    }

    /// Forget every stored payload; handlers stay.
    pub fn clear_recent_pdos(&mut self)
        ensures
            final(self).handlers_view() == old(self).handlers_view(),
            final(self).recent_view() == Map::<u16, Seq<u8>>::empty(),
    {
        self.recent_pdos.clear();
        proof {
            assert(self.recent_view() =~= Map::<u16, Seq<u8>>::empty());
        }
    }

    /// The number of registered handlers.
    pub fn handler_count(&self) -> (r: usize)
        ensures
            r == self.handlers_view().len(),
    {
        self.pdo_callbacks.len()
    }
}

impl<H> Default for PdoManager<H> {
    /// A manager with no handler and no payload.
    fn default() -> (r: PdoManager<H>)
        ensures
            r.handlers_view() == Map::<u16, H>::empty(),
            r.recent_view() == Map::<u16, Seq<u8>>::empty(),
    {
        PdoManager::new()
    }
}

impl PdoManager {
    /// A COB-ID is a PDO COB-ID when it lies in 0x180..=0x57F.
    pub fn is_pdo_message(cob_id: u16) -> (r: bool)
        ensures
            r == spec_is_pdo_cob_id(cob_id),
    {
        cob_id >= 0x180 && cob_id <= 0x57F
    }
}

impl<H: Clone> PdoManager<H> {
    /// A copy of the handler registered for `cob_id`.
    pub fn handler(&self, cob_id: u16) -> (r: Option<H>)
        ensures
            r is Some == self.handlers_view().contains_key(cob_id),
            r matches Some(h) ==> cloned::<H>(self.handlers_view()[cob_id], h),
    {
        match self.pdo_callbacks.get(&cob_id) {
            Some(h) => Some(h.clone()),
            None => None,
        }
    }
}

} // verus!
