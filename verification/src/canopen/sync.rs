//! SYNC object: the broadcast frame on COB-ID 0x80 that may carry a 1-byte
//! counter running from 1 to 240 and wrapping back to 1.
use vstd::prelude::*;
use vstd::rwlock::{RwLock, RwLockPredicate};
use std::sync::Arc;
use crate::canopen::message::CanMessage;

verus! {

/// SYNC COB-ID (fixed at 0x80).
pub const SYNC_COB_ID: u16 = 0x80;

/// Largest SYNC counter value; the next counter after it is 1.
pub const SYNC_COUNTER_MAX: u8 = 240;

/// The counter that follows `c`: one more, wrapping from 240 (or above) to 1.
pub open spec fn spec_next_counter(c: u8) -> u8 {
    if c >= SYNC_COUNTER_MAX { 1 } else { (c + 1) as u8 }
}

/// The counter after `k` SYNC frames produced from counter 0.
pub open spec fn spec_counter_after(k: nat) -> u8
    decreases k,
{
    if k == 0 { 0u8 } else { spec_next_counter(spec_counter_after((k - 1) as nat)) }
}

/// The advanced counter always lies in 1..=240.
pub proof fn lemma_next_counter_in_range(c: u8)
    ensures
        1 <= spec_next_counter(c) <= SYNC_COUNTER_MAX,
{
}

/// Starting from counter 0, the `k`-th frame (k >= 1) carries
/// ((k - 1) mod 240) + 1: the counter counts 1, 2, ..., 240, 1, 2, ...
pub proof fn lemma_counter_sequence(k: nat)
    requires
        k >= 1,
    ensures
        spec_counter_after(k) == ((k - 1) % 240) + 1,
    decreases k,
{
    if k > 1 {
        lemma_counter_sequence((k - 1) as nat);
        let m: int = (k - 2) % 240;
        let q: int = (k - 2) / 240;
        assert(k - 2 == 240 * q + m && 0 <= m < 240) by (nonlinear_arith)
            requires k >= 2, m == (k - 2) % 240, q == (k - 2) / 240;
        if m < 239 {
            assert((k - 1) % 240 == m + 1) by (nonlinear_arith)
                requires k - 1 == 240 * q + m + 1, 0 <= m < 239;
            let prev: u8 = spec_counter_after((k - 1) as nat);
            assert(prev == m + 1);
            assert(spec_counter_after(k) == spec_next_counter(prev));
            assert(spec_next_counter(prev) == prev + 1);
        } else {
            assert((k - 1) % 240 == 0) by (nonlinear_arith)
                requires k - 1 == 240 * (q + 1), q >= 0;
            assert(spec_counter_after((k - 1) as nat) == SYNC_COUNTER_MAX);
        }
    } else {
        assert(spec_counter_after(0) == 0);
    }
}

/// The counter value a received SYNC payload carries: 0 for an empty
/// payload, the byte itself for a 1-byte payload; other lengths are invalid.
pub open spec fn spec_received_counter(data: Seq<u8>) -> Option<u8> {
    if data.len() == 0 {
        Some(0u8)
    } else if data.len() == 1 {
        Some(data[0])
    } else {
        None
    }
}

/// The SYNC producer/consumer state: the current counter and whether SYNC
/// frames carry it.
#[derive(Debug, Clone, Copy, PartialEq, Eq, Structural)]
pub struct SyncState {
    counter: u8,
    use_counter: bool,
}

impl SyncState {
    /// The current counter value.
    pub closed spec fn counter_value(&self) -> u8 {
        self.counter
    }

    /// Whether SYNC frames carry a counter.
    pub closed spec fn counter_enabled(&self) -> bool {
        self.use_counter
    }

    /// The counter lies in 0..=240, and stays at 0 while disabled.
    pub open spec fn wf(&self) -> bool {
        &&& self.counter_value() <= SYNC_COUNTER_MAX
        &&& !self.counter_enabled() ==> self.counter_value() == 0
    }

    /// Counter 0, counter disabled.
    pub fn new() -> (r: SyncState)
        ensures
            r.wf(),
            r.counter_value() == 0,
            !r.counter_enabled(),
    {
        SyncState { counter: 0, use_counter: false }
    }

    /// The current counter value.
    pub fn get_counter(&self) -> (r: u8)
        ensures
            r == self.counter_value(),
    {
        self.counter
    }

    /// Enable or disable the counter; disabling resets it to 0.
    pub fn set_counter_enabled(&mut self, enabled: bool)
        requires
            old(self).wf(),
        ensures
            final(self).wf(),
            final(self).counter_enabled() == enabled,
            final(self).counter_value() == if enabled { old(self).counter_value() } else { 0u8 },
    {
        self.use_counter = enabled;
        if !enabled {
            self.counter = 0;
        }
    }

    /// Reset the counter to 0.
    pub fn reset_counter(&mut self)
        requires
            old(self).wf(),
        ensures
            final(self).wf(),
            final(self).counter_enabled() == old(self).counter_enabled(),
            final(self).counter_value() == 0,
    {
        self.counter = 0;
    }

    /// Produce the next SYNC frame. With the counter enabled it advances the
    /// counter and the frame carries the new value; otherwise the frame is
    /// empty and nothing changes.
    pub fn next_sync_message(&mut self) -> (r: CanMessage)
        requires
            old(self).wf(),
        ensures
            final(self).wf(),
            final(self).counter_enabled() == old(self).counter_enabled(),
            final(self).counter_value() == if old(self).counter_enabled() {
                spec_next_counter(old(self).counter_value())
            } else {
                old(self).counter_value()
            },
            r.id.0 == SYNC_COB_ID,
            !r.remote,
            r.data@ == if old(self).counter_enabled() {
                seq![final(self).counter_value()]
            } else {
                Seq::<u8>::empty()
            },
    {
        if self.use_counter {
            self.counter = if self.counter >= SYNC_COUNTER_MAX { 1 } else { self.counter + 1 };
            let mut data: Vec<u8> = Vec::new();
            data.push(self.counter);
            CanMessage::new_unchecked(SYNC_COB_ID, data)
        } else {
            CanMessage::new_unchecked(SYNC_COB_ID, Vec::new())
        }
    }

    /// Take in a received SYNC payload. Returns the counter it carries (0
    /// when empty), or `None` for a payload of two or more bytes, which
    /// changes nothing. With the counter enabled, a received counter in
    /// 1..=240 becomes the current counter; 0 and values above 240 leave it.
    pub fn receive_sync(&mut self, data: &[u8]) -> (r: Option<u8>)
        requires
            old(self).wf(),
        ensures
            final(self).wf(),
            r == spec_received_counter(data@),
            final(self).counter_enabled() == old(self).counter_enabled(),
            final(self).counter_value() == match r {
                Some(c) => if old(self).counter_enabled() && 1 <= c <= SYNC_COUNTER_MAX {
                    c
                } else {
                    old(self).counter_value()
                },
                None => old(self).counter_value(),
            },
    {
        let counter: u8 = if data.len() == 0 {
            0
        } else if data.len() == 1 {
            data[0]
        } else {
            return None;
        };
        if self.use_counter && counter > 0 && counter <= SYNC_COUNTER_MAX {
            self.counter = counter;
        }
        Some(counter)
    }
}

/// What the clones of a SYNC manager share: the SYNC state and the callback
/// that receives the counter of each SYNC taken in.
pub struct SyncShared<C> {
    state: SyncState,
    callback: Option<C>,
}

impl<C> SyncShared<C> {
    /// The SYNC state.
    pub closed spec fn state_view(&self) -> SyncState {
        self.state
    }

    /// The registered callback, if any.
    pub closed spec fn callback_view(&self) -> Option<C> {
        self.callback
    }
}

/// The lock predicate of the shared SYNC data: the state stays well formed,
/// and a registered callback accepts every counter value.
pub struct SyncSharedWf;

impl<C: Fn(u8)> RwLockPredicate<SyncShared<C>> for SyncSharedWf {
    open spec fn inv(self, v: SyncShared<C>) -> bool {
        &&& v.state_view().wf()
        &&& (v.callback_view() matches Some(cb) ==> forall|c: u8| call_requires(cb, (c,)))
    }
}

/// SYNC manager: a SYNC state and a reception callback of type `C`, shared by
/// all clones of the manager. `C` is a plain function pointer unless stated;
/// a boxed closure lets callbacks of different types take turns.
pub struct SyncManager<C: Fn(u8) = fn(u8)> {
    shared: Arc<RwLock<SyncShared<C>, SyncSharedWf>>,
}

impl<C: Fn(u8)> SyncManager<C> {
    /// Both managers operate on the same SYNC state and callback.
    pub closed spec fn shares_state_with(&self, other: &SyncManager<C>) -> bool {
        self.shared == other.shared
    }

    /// A manager with counter 0, the counter disabled and no callback.
    pub fn new() -> (r: SyncManager<C>) {
        let shared = SyncShared { state: SyncState::new(), callback: None };
        SyncManager { shared: Arc::new(RwLock::new(shared, Ghost(SyncSharedWf))) }
    }

    /// Enable or disable the counter; disabling resets it to 0.
    pub fn set_counter_enabled(&self, enabled: bool) {
        let (mut sh, handle) = self.shared.acquire_write();
        sh.state.set_counter_enabled(enabled);
        handle.release_write(sh);
    }

    /// The current counter value: 0 while the counter is disabled, and never
    /// above 240.
    pub fn get_counter(&self) -> (r: u8)
        ensures
            r <= SYNC_COUNTER_MAX,
    {
        let handle = self.shared.acquire_read();
        let r = handle.borrow().state.get_counter();
        handle.release_read();
        r
    }

    /// Produce the next SYNC frame on COB-ID 0x80: empty with the counter
    /// disabled, otherwise carrying the advanced counter (1 to 240).
    pub fn create_sync_message(&self) -> (r: CanMessage)
        ensures
            r.id.0 == SYNC_COB_ID,
            !r.remote,
            r.data@.len() <= 1,
            r.data@.len() == 1 ==> 1 <= r.data@[0] <= SYNC_COUNTER_MAX,
    {
        let (mut sh, handle) = self.shared.acquire_write();
        let r = sh.state.next_sync_message();
        handle.release_write(sh);
        r
    }

    /// Take in a received SYNC payload: the state takes it in, and the
    /// registered callback, if any, is called with the counter it carries.
    /// Returns that counter, or `None` when the payload is invalid (two or
    /// more bytes), in which case no callback is called.
    pub fn process_sync(&self, data: &[u8]) -> (r: Option<u8>)
        ensures
            r == spec_received_counter(data@),
    {
        let (mut sh, handle) = self.shared.acquire_write();
        let r = sh.state.receive_sync(data);
        handle.release_write(sh);
        if let Some(counter) = r {
            let read = self.shared.acquire_read();
            if let Some(cb) = &read.borrow().callback {
                cb(counter);
            }
            read.release_read();
        }
        r
    }

    /// Register the callback that receives the counter of each SYNC taken
    /// in; it replaces any earlier one.
    pub fn register_sync_callback(&self, callback: C)
        requires
            forall|c: u8| call_requires(callback, (c,)),
    {
        let (mut sh, handle) = self.shared.acquire_write();
        sh.callback = Some(callback);
        handle.release_write(sh);
    }

    /// Remove the SYNC callback.
    pub fn unregister_sync_callback(&self) {
        let (mut sh, handle) = self.shared.acquire_write();
        sh.callback = None;
        handle.release_write(sh);
    }

    /// Reset the counter to 0.
    pub fn reset_counter(&self) {
        let (mut sh, handle) = self.shared.acquire_write();
        sh.state.reset_counter();
        handle.release_write(sh);
    }
}

impl<C: Fn(u8)> Clone for SyncManager<C> {
    /// A second handle on the same shared SYNC state and callback.
    fn clone(&self) -> (r: SyncManager<C>)
        ensures
            r.shares_state_with(self),
    {
        SyncManager { shared: self.shared.clone() }
    }
}

} // verus!
