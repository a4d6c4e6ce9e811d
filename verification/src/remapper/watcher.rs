//! The foreground watcher: the cycle that keeps the keymap in step with the
//! application in front. The caller owns the clock, the window system and
//! the settings; this module decides what to do next.

use vstd::prelude::*;
use crate::objects::{bound_to, keybinds_bound_to, Keybind};
use crate::remapper::{keymap_of, Keymap};

verus! {

/// The executable under which the desktop keeps its bindings.
pub const DESKTOP_EXECUTABLE: &'static str = "";

/// Where the watcher stands in its cycle.
#[derive(Debug, PartialEq)]
pub enum WatcherState {
    /// Between two cycles.
    Idle,
    /// Waiting to learn which executable is in front.
    ResolvingApp,
    /// Waiting for the bindings of `executable`.
    FetchingBinds { executable: String },
    /// Waiting for the new keymap to be installed.
    Publishing,
}

/// What the caller reports to the watcher.
#[derive(Debug)]
pub enum WatcherEvent {
    /// The polling interval has passed.
    Tick,
    /// The executable in front, or `None` when there is none to be told.
    Resolved(Option<String>),
    /// The bindings that the settings hold.
    Fetched(Vec<Keybind>),
    /// The keymap has been installed.
    Published,
    /// The last request could not be carried out.
    Failed,
}

/// What the watcher asks the caller to do.
pub enum WatcherAction {
    /// Nothing until the next tick.
    Wait,
    /// Find the executable of the foreground window.
    ResolveForeground,
    /// Fetch the bindings of this executable.
    FetchKeybinds(String),
    /// Install this keymap.
    Publish(Keymap),
}

/// The executable whose bindings apply: the one in front, or the desktop's.
pub open spec fn bind_owner(resolved: Option<String>) -> Seq<char> {
    match resolved {
        Some(path) => path@,
        None => DESKTOP_EXECUTABLE@,
    }
}

/// The transition of the watcher. A cycle runs from `Idle` through
/// `ResolvingApp`, `FetchingBinds` and `Publishing` back to `Idle`; an event
/// that does not belong to the state, a failure among them, ends the cycle
/// and asks for nothing, so that the keymap in force stays.
pub open spec fn is_step(
    state: WatcherState,
    event: WatcherEvent,
    next: WatcherState,
    action: WatcherAction,
) -> bool {
    match (state, event) {
        (WatcherState::Idle, WatcherEvent::Tick) => {
            &&& next is ResolvingApp
            &&& action is ResolveForeground
        },
        (WatcherState::ResolvingApp, WatcherEvent::Resolved(resolved)) => {
            &&& next matches WatcherState::FetchingBinds { executable }
            &&& executable@ == bind_owner(resolved)
            &&& action matches WatcherAction::FetchKeybinds(asked)
            &&& asked@ == bind_owner(resolved)
        },
        (WatcherState::FetchingBinds { executable }, WatcherEvent::Fetched(keybinds)) => {
            &&& next is Publishing
            &&& action matches WatcherAction::Publish(keymap)
            &&& keymap@ == keymap_of(bound_to(keybinds@, executable@))
        },
        (WatcherState::Publishing, WatcherEvent::Published) => {
            &&& next is Idle
            &&& action is Wait
        },
        _ => {
            &&& next is Idle
            &&& action is Wait
        },
    }
}

/// Takes one step of the watcher: the state after `event`, and what to do.
pub fn step(state: WatcherState, event: WatcherEvent) -> (result: (WatcherState, WatcherAction))
    ensures
        is_step(state, event, result.0, result.1),
{
    match (state, event) {
        (WatcherState::Idle, WatcherEvent::Tick) => (
            WatcherState::ResolvingApp,
            WatcherAction::ResolveForeground,
        ),
        (WatcherState::ResolvingApp, WatcherEvent::Resolved(resolved)) => {
            let executable = match resolved {
                Some(path) => path,
                None => String::from_str(DESKTOP_EXECUTABLE),
            };
            let asked = executable.clone();
            (WatcherState::FetchingBinds { executable }, WatcherAction::FetchKeybinds(asked))
        },
        (WatcherState::FetchingBinds { executable }, WatcherEvent::Fetched(keybinds)) => {
            let bound = keybinds_bound_to(&keybinds, &executable);
            let keymap = Keymap::from_keybinds(&bound);
            (WatcherState::Publishing, WatcherAction::Publish(keymap))
        },
        (WatcherState::Publishing, WatcherEvent::Published) => (
            WatcherState::Idle,
            WatcherAction::Wait,
        ),
        _ => (WatcherState::Idle, WatcherAction::Wait),
    }
}

/// A keymap is published only on the bindings fetched for the executable
/// that was resolved, and it is the keymap of exactly those bindings.
pub proof fn lemma_publish_only_fetched(
    state: WatcherState,
    event: WatcherEvent,
    next: WatcherState,
    action: WatcherAction,
)
    requires
        is_step(state, event, next, action),
        action is Publish,
    ensures
        state is FetchingBinds,
        event is Fetched,
        action->Publish_0@ == keymap_of(
            bound_to(event->Fetched_0@, state->FetchingBinds_executable@),
        ),
{
}

/// A failure, in whatever state, ends the cycle without a new keymap.
pub proof fn lemma_failure_keeps_keymap(state: WatcherState, next: WatcherState, action: WatcherAction)
    requires
        is_step(state, WatcherEvent::Failed, next, action),
    ensures
        next is Idle,
        action is Wait,
{
}

/// A cycle that nothing disturbs ends where it began and publishes, of the
/// bindings that were fetched, the keymap of those that belong to the
/// executable in front, or to the desktop where none is in front.
pub proof fn lemma_cycle_publishes(
    resolved: Option<String>,
    keybinds: Vec<Keybind>,
    resolving: WatcherState,
    first: WatcherAction,
    fetching: WatcherState,
    second: WatcherAction,
    publishing: WatcherState,
    third: WatcherAction,
    done: WatcherState,
    last: WatcherAction,
)
    requires
        is_step(WatcherState::Idle, WatcherEvent::Tick, resolving, first),
        is_step(resolving, WatcherEvent::Resolved(resolved), fetching, second),
        is_step(fetching, WatcherEvent::Fetched(keybinds), publishing, third),
        is_step(publishing, WatcherEvent::Published, done, last),
    ensures
        first is ResolveForeground,
        second matches WatcherAction::FetchKeybinds(asked) && asked@ == bind_owner(resolved),
        third matches WatcherAction::Publish(keymap) && keymap@ == keymap_of(
            bound_to(keybinds@, bind_owner(resolved)),
        ),
        last is Wait,
        done is Idle,
{
}

/// What a cycle publishes comes from the executable in front alone: every
/// rule of the keymap is the rule of a live binding of that executable, and
/// every live binding of that executable has a rule for its pressed code.
pub proof fn lemma_published_rules_belong(
    keybinds: Seq<Keybind>,
    executable: Seq<char>,
    source: u16,
)
    ensures
        keymap_of(bound_to(keybinds, executable)).contains_key(source) <==> exists|i: int|
            0 <= i < keybinds.len() && (#[trigger] keybinds[i]).executable@ == executable
                && keybinds[i].is_live() && keybinds[i].source() == source,
{
    let pred = crate::objects::is_bound_to(executable);
    let bound = bound_to(keybinds, executable);
    crate::remapper::lemma_keymap_contains(bound, source);
    if keymap_of(bound).contains_key(source) {
        let j = choose|j: int| crate::remapper::fires_on(bound, j, source);
        keybinds.lemma_filter_pred(pred, j);
        assert(bound.contains(bound[j]));
        keybinds.lemma_filter_contains_rev(pred, bound[j]);
        let i = choose|i: int| 0 <= i < keybinds.len() && keybinds[i] == bound[j];
        assert(keybinds[i].executable@ == executable && keybinds[i].is_live()
            && keybinds[i].source() == source);
    }
    if exists|i: int|
        0 <= i < keybinds.len() && (#[trigger] keybinds[i]).executable@ == executable
            && keybinds[i].is_live() && keybinds[i].source() == source {
        let i = choose|i: int|
            0 <= i < keybinds.len() && (#[trigger] keybinds[i]).executable@ == executable
                && keybinds[i].is_live() && keybinds[i].source() == source;
        keybinds.lemma_filter_contains(pred, i);
        let j = choose|j: int| 0 <= j < bound.len() && bound[j] == keybinds[i];
        assert(crate::remapper::fires_on(bound, j, source));
    }
}

} // verus!
