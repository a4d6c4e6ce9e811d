//! The interception engine: what happens to one key transition under the
//! keymap in force.

use vstd::prelude::*;
use crate::remapper::{lookup_in, KeymapStore};

verus! {

/// Window message: a key went down.
pub const WM_KEYDOWN: u32 = 0x0100;

/// Window message: a key came up.
pub const WM_KEYUP: u32 = 0x0101;

/// Window message: a key went down while Alt was held.
pub const WM_SYSKEYDOWN: u32 = 0x0104;

/// Window message: a key came up while Alt was held.
pub const WM_SYSKEYUP: u32 = 0x0105;

/// Input flag: the synthesized event is a release.
pub const KEYEVENTF_KEYUP: u32 = 0x0002;

/// What the engine does with one key transition.
#[derive(Clone, Copy, Debug, PartialEq, Eq, Structural)]
pub enum KeyAction {
    /// The event goes on to the next listener as it came.
    PassThrough,
    /// The event is swallowed, and a transition of `code` in the same
    /// direction is sent in its place.
    Handled { code: u16, is_down: bool },
}

/// What the hook procedure does with one call.
#[derive(Clone, Copy, Debug, PartialEq, Eq, Structural)]
pub enum HookVerdict {
    /// Hand the call to the next hook and return what it returns.
    CallNext,
    /// Send one keyboard input with this virtual key and these flags, and
    /// report the call as handled.
    Inject { vkey: u16, flags: u32 },
}

/// True for the four messages that report a key transition.
pub open spec fn is_key_message(message: u32) -> bool {
    message == WM_KEYDOWN || message == WM_SYSKEYDOWN || message == WM_KEYUP || message
        == WM_SYSKEYUP
}

/// True for the two messages that report a press.
pub open spec fn is_down_message(message: u32) -> bool {
    message == WM_KEYDOWN || message == WM_SYSKEYDOWN
}

/// The action on a transition whose key has the rule `destination`, or
/// none: a key with a rule is replaced by the rule's code, in the same
/// direction; any other key passes.
pub open spec fn action_given(destination: Option<u16>, is_down: bool) -> KeyAction {
    match destination {
        Some(code) => KeyAction::Handled { code, is_down },
        None => KeyAction::PassThrough,
    }
}

/// The action on a transition of `code` under `active`.
pub open spec fn action_for(active: Option<Map<u16, u16>>, code: u16, is_down: bool) -> KeyAction {
    action_given(lookup_in(active, code), is_down)
}

/// The flags of the input that stands for a transition.
pub open spec fn input_flags(is_down: bool) -> u32 {
    if is_down {
        0
    } else {
        KEYEVENTF_KEYUP
    }
}

/// True when a hook call reports a key transition that the engine looks at:
/// a key message with a non-negative hook code.
pub open spec fn is_key_transition(n_code: i32, message: u32) -> bool {
    n_code >= 0 && is_key_message(message)
}

/// The verdict on one hook call whose key has the rule `destination`, or
/// none.
pub open spec fn verdict_given(n_code: i32, message: u32, destination: Option<u16>) -> HookVerdict {
    if is_key_transition(n_code, message) {
        match destination {
            Some(code) => HookVerdict::Inject {
                vkey: code,
                flags: input_flags(is_down_message(message)),
            },
            None => HookVerdict::CallNext,
        }
    } else {
        HookVerdict::CallNext
    }
}

/// The verdict on one hook call under `active`: only a key transition is
/// looked at, by the low 16 bits of its key code.
pub open spec fn verdict_for(
    active: Option<Map<u16, u16>>,
    n_code: i32,
    message: u32,
    vk_code: u32,
) -> HookVerdict {
    verdict_given(n_code, message, lookup_in(active, vk_code as u16))
}

/// The actions on a stream of transitions under one keymap, one per event.
pub open spec fn actions_for(active: Option<Map<u16, u16>>, events: Seq<(u16, bool)>) -> Seq<
    KeyAction,
> {
    Seq::new(events.len(), |i: int| action_for(active, events[i].0, events[i].1))
}

/// Tells whether a hook call reports a key transition that the engine
/// looks at.
pub fn reports_key_transition(n_code: i32, message: u32) -> (reports: bool)
    ensures
        reports == is_key_transition(n_code, message),
{
    n_code >= 0 && (message == WM_KEYDOWN || message == WM_SYSKEYDOWN || message == WM_KEYUP
        || message == WM_SYSKEYUP)
}

/// Decides one key transition whose key has the rule `destination`, or none.
pub fn answer(destination: Option<u16>, is_down: bool) -> (action: KeyAction)
    ensures
        action == action_given(destination, is_down),
{
    match destination {
        Some(code) => KeyAction::Handled { code, is_down },
        None => KeyAction::PassThrough,
    }
}

/// Turns the action on a key transition into the verdict of the hook call
/// that reported it.
pub fn verdict_of(action: KeyAction) -> (verdict: HookVerdict)
    ensures
        verdict == match action {
            KeyAction::Handled { code, is_down } => HookVerdict::Inject {
                vkey: code,
                flags: input_flags(is_down),
            },
            KeyAction::PassThrough => HookVerdict::CallNext,
        },
{
    match action {
        KeyAction::Handled { code, is_down } => {
            let flags: u32 = if is_down {
                0
            } else {
                KEYEVENTF_KEYUP
            };
            HookVerdict::Inject { vkey: code, flags }
        },
        KeyAction::PassThrough => HookVerdict::CallNext,
    }
}

/// Decides one key transition under the keymap in `store`.
pub fn on_key_transition(store: &KeymapStore, code: u16, is_down: bool) -> (action: KeyAction)
    ensures
        action == action_for(store@, code, is_down),
        action matches KeyAction::Handled { code: sent, is_down: direction } ==> code != 0 && sent
            != 0 && direction == is_down,
{
    answer(store.lookup(code), is_down)
}

/// Decides one call of the low-level keyboard hook: `n_code` and `message`
/// are the hook's first two arguments, `vk_code` the key code of the event.
pub fn keyboard_hook(store: &KeymapStore, n_code: i32, message: u32, vk_code: u32) -> (verdict:
    HookVerdict)
    ensures
        verdict == verdict_for(store@, n_code, message, vk_code),
{
    if reports_key_transition(n_code, message) {
        let keycode: u16 = #[verifier::truncate] (vk_code as u16);
        let is_down = message == WM_KEYDOWN || message == WM_SYSKEYDOWN;
        verdict_of(on_key_transition(store, keycode, is_down))
    } else {
        HookVerdict::CallNext
    }
}

/// A key with a rule is swallowed and the rule's code is sent in the same
/// direction; a key without a rule passes, and nothing is sent for it.
pub proof fn lemma_action_follows_rules(rules: Map<u16, u16>, code: u16, is_down: bool)
    ensures
        rules.contains_key(code) ==> action_for(Some(rules), code, is_down) == (KeyAction::Handled {
            code: rules[code],
            is_down,
        }),
        !rules.contains_key(code) ==> action_for(Some(rules), code, is_down)
            == KeyAction::PassThrough,
        action_for(None, code, is_down) == KeyAction::PassThrough,
{
}

/// Under the keymap that holds the one rule `source` to `destination`, every
/// event of a stream on `source` is answered by the same event on
/// `destination`, and every other event passes.
pub proof fn lemma_single_rule_stream(source: u16, destination: u16, events: Seq<(u16, bool)>)
    ensures
        actions_for(Some(map![source => destination]), events).len() == events.len(),
        forall|i: int|
            0 <= i < events.len() ==> #[trigger] actions_for(
                Some(map![source => destination]),
                events,
            )[i] == if events[i].0 == source {
                KeyAction::Handled { code: destination, is_down: events[i].1 }
            } else {
                KeyAction::PassThrough
            },
{
}

} // verus!
