//! The keymap store as the one object that the watcher and the engine
//! share: one writer publishes, any number of readers look up, and no
//! reader ever sees a keymap that is half replaced.

use vstd::prelude::*;
use vstd::rwlock::RwLock;
use crate::remapper::listener::{
    action_given, answer, reports_key_transition, verdict_given, verdict_of, HookVerdict,
    KeyAction, WM_KEYDOWN, WM_SYSKEYDOWN,
};
use crate::remapper::{Keymap, KeymapStore};

verus! {

/// A keymap store behind a read/write lock. A lookup holds the lock for one
/// lookup; a publish holds it only to put the new keymap, built beforehand,
/// in the place of the old one.
pub struct SharedKeymapStore {
    lock: RwLock<KeymapStore, spec_fn(KeymapStore) -> bool>,
}

impl SharedKeymapStore {
    #[verifier::type_invariant]
    spec fn takes_any_store(self) -> bool {
        forall|store: KeymapStore| #[trigger] self.lock.inv(store)
    }

    /// A shared store in which no keymap is installed.
    pub fn new() -> (shared: SharedKeymapStore) {
        SharedKeymapStore {
            lock: RwLock::new(KeymapStore::new(), Ghost(|store: KeymapStore| true)),
        }
    }

    /// Installs `keymap` in place of whatever was in force. What a later
    /// lookup finds depends on what else was published in between.
    pub fn publish(&self, keymap: Keymap) {
        proof {
            use_type_invariant(self);
        }
        let (held, handle) = self.lock.acquire_write();
        let mut store = held;
        store.publish(keymap);
        handle.release_write(store);
    }

    /// The code to send in place of `source` under the keymap in force at
    /// the moment of the call, or `None` when the key passes. Whatever is
    /// in force, code 0 neither has a rule nor is sent.
    pub fn lookup(&self, source: u16) -> (destination: Option<u16>)
        ensures
            destination matches Some(code) ==> source != 0 && code != 0,
    {
        let handle = self.lock.acquire_read();
        let destination = handle.borrow().lookup(source);
        handle.release_read();
        destination
    }

    /// Decides one key transition under the keymap in force at the moment
    /// of the call: the answer is the one that belongs to what the lookup
    /// found, and code 0 never has a rule nor is sent.
    pub fn on_key_transition(&self, code: u16, is_down: bool) -> (action: KeyAction)
        ensures
            exists|destination: Option<u16>|
                {
                    &&& #[trigger] action_given(destination, is_down) == action
                    &&& destination matches Some(sent) ==> code != 0 && sent != 0
                },
    {
        let destination = self.lookup(code);
        let action = answer(destination, is_down);
        assert(action_given(destination, is_down) == action);
        action
    }

    /// Decides one call of the low-level keyboard hook under the keymap in
    /// force at the moment of the call. A call that reports no key
    /// transition is handed on without a look at the keymap.
    pub fn keyboard_hook(&self, n_code: i32, message: u32, vk_code: u32) -> (verdict: HookVerdict)
        ensures
            exists|destination: Option<u16>|
                {
                    &&& #[trigger] verdict_given(n_code, message, destination) == verdict
                    &&& destination matches Some(sent) ==> vk_code as u16 != 0 && sent != 0
                },
    {
        if reports_key_transition(n_code, message) {
            let keycode: u16 = #[verifier::truncate] (vk_code as u16);
            let is_down = message == WM_KEYDOWN || message == WM_SYSKEYDOWN;
            let destination = self.lookup(keycode);
            let verdict = verdict_of(answer(destination, is_down));
            assert(verdict_given(n_code, message, destination) == verdict);
            verdict
        } else {
            assert(verdict_given(n_code, message, None) == HookVerdict::CallNext);
            HookVerdict::CallNext
        }
    }
}

} // verus!
