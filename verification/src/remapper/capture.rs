//! The key-capture session: listening until one key is pressed, then
//! reporting that key, or that the capture was called off, exactly once.

use vstd::prelude::*;
use crate::remapper::keyboard::{key_of_code, KeyboardKey};

verus! {

/// The first virtual key that a capture looks at.
pub const FIRST_SCANNED_KEY: usize = 1;

/// The last virtual key that a capture looks at.
pub const LAST_SCANNED_KEY: usize = 255;

/// True when a key state, as the system reports it, says that the key is down
/// now: its highest bit is set.
pub open spec fn is_down_state(state: i16) -> bool {
    state < 0
}

/// True when `states` reports the virtual key `vkey` as down, and a capture
/// looks at that key. `states[v]` is the state of the virtual key `v`.
pub open spec fn is_scanned_down(states: Seq<i16>, vkey: int) -> bool {
    FIRST_SCANNED_KEY <= vkey <= LAST_SCANNED_KEY && vkey < states.len() && is_down_state(
        states[vkey],
    )
}

/// True when `vkey` is the lowest virtual key that `states` reports as down.
pub open spec fn is_lowest_down(states: Seq<i16>, vkey: int) -> bool {
    is_scanned_down(states, vkey) && forall|lower: int|
        lower < vkey ==> !is_scanned_down(states, lower)
}

/// The lowest virtual key that `states` reports as down, if there is one.
pub open spec fn first_down(states: Seq<i16>) -> Option<u32> {
    if exists|vkey: int| is_lowest_down(states, vkey) {
        Some((choose|vkey: int| is_lowest_down(states, vkey)) as u32)
    } else {
        None
    }
}

/// What one look at the keyboard means for a capture: `None` while no key is
/// down; `Some(None)` when the first key down is `Escape` or no key of the
/// table, which calls the capture off; `Some(Some(key))` when it is `key`.
pub open spec fn capture_result(found: Option<u32>) -> Option<Option<KeyboardKey>> {
    match found {
        Some(vkey) => if key_of_code(vkey) == KeyboardKey::Escape {
            Some(None)
        } else {
            Some(Some(key_of_code(vkey)))
        },
        None => None,
    }
}

/// Tells whether a key state says that the key is down now.
pub fn is_pressed(state: i16) -> (pressed: bool)
    ensures
        pressed == is_down_state(state),
{
    let bits: u16 = #[verifier::truncate] (state as u16);
    assert((bits & 0x8000 != 0) == (state < 0)) by (bit_vector)
        requires
            bits == state as u16,
    ;
    bits & 0x8000 != 0
}

/// Returns the lowest virtual key from 1 to 255 that `states` reports as down.
pub fn first_pressed(states: &Vec<i16>) -> (found: Option<u32>)
    ensures
        found == first_down(states@),
        found matches Some(vkey) ==> is_lowest_down(states@, vkey as int),
        found is None ==> forall|vkey: int| !is_scanned_down(states@, vkey),
{
    let mut vkey: usize = FIRST_SCANNED_KEY;
    while vkey <= LAST_SCANNED_KEY && vkey < states.len()
        invariant
            FIRST_SCANNED_KEY <= vkey <= LAST_SCANNED_KEY + 1,
            forall|lower: int| lower < vkey ==> !is_scanned_down(states@, lower),
        decreases LAST_SCANNED_KEY + 1 - vkey,
    {
        if is_pressed(states[vkey]) {
            proof {
                lemma_lowest_down_unique(states@, vkey as int);
            }
            return Some(vkey as u32);
        }
        vkey += 1;
    }
    None
}

/// Reads one look at the keyboard for a capture: what to report, if anything.
pub fn key_input(states: &Vec<i16>) -> (report: Option<Option<KeyboardKey>>)
    ensures
        report == capture_result(first_down(states@)),
{
    match first_pressed(states) {
        Some(vkey) => {
            match KeyboardKey::from_code(vkey) {
                KeyboardKey::Escape => Some(None),
                key => Some(Some(key)),
            }
        },
        None => None,
    }
}

/// One capture: it listens until it has reported once, and never again.
#[derive(Debug)]
pub struct CaptureSession {
    listening: bool,
}

impl CaptureSession {
    /// True while nothing has been reported.
    pub closed spec fn listening(self) -> bool {
        self.listening
    }

    /// Starts a capture.
    pub fn begin() -> (session: CaptureSession)
        ensures
            session.listening(),
    {
        CaptureSession { listening: true }
    }

    /// Tells whether the capture still listens.
    pub fn is_listening(&self) -> (listening: bool)
        ensures
            listening == self.listening(),
    {
        self.listening
    }

    /// Feeds one look at the keyboard to the capture. While it listens, the
    /// first key down ends it and is reported; once it has ended, nothing is
    /// reported whatever is pressed.
    pub fn poll(&mut self, states: &Vec<i16>) -> (report: Option<Option<KeyboardKey>>)
        ensures
            report == poll_report(old(self).listening(), states@),
            final(self).listening() == (old(self).listening() && report is None),
    {
        if self.listening {
            let report = key_input(states);
            if report.is_some() {
                self.listening = false;
            }
            report
        } else {
            None
        }
    }
}

/// What a poll reports: what is seen while the capture listens, nothing after.
pub open spec fn poll_report(listening: bool, states: Seq<i16>) -> Option<Option<KeyboardKey>> {
    if listening {
        capture_result(first_down(states))
    } else {
        None
    }
}

/// The lowest key down is the one that `first_down` names.
pub proof fn lemma_lowest_down_unique(states: Seq<i16>, vkey: int)
    requires
        is_lowest_down(states, vkey),
    ensures
        first_down(states) == Some(vkey as u32),
{
    let chosen = choose|v: int| is_lowest_down(states, v);
    if chosen < vkey {
        assert(!is_scanned_down(states, chosen));
    }
    if vkey < chosen {
        assert(!is_scanned_down(states, vkey));
    }
}

/// A capture reports at most once: after a poll that reported, every later
/// poll reports nothing, whatever is pressed then.
pub proof fn lemma_capture_reports_once(first: Seq<i16>, second: Seq<i16>)
    ensures
        ({
            let report = poll_report(true, first);
            let listening = report is None;
            report is Some ==> poll_report(listening, second) is None
        }),
{
}

/// A press of `Escape` calls the capture off, a press of a key outside the
/// table does too, and a press of any other key of the table reports it.
pub proof fn lemma_capture_reports(vkey: u32)
    ensures
        capture_result(Some(KeyboardKey::Escape.code())) == Some(None::<KeyboardKey>),
        key_of_code(vkey) != KeyboardKey::Escape ==> capture_result(Some(vkey)) == Some(
            Some(key_of_code(vkey)),
        ),
        key_of_code(vkey) == KeyboardKey::Escape ==> capture_result(Some(vkey)) == Some(
            None::<KeyboardKey>,
        ),
        capture_result(None) is None,
{
    crate::remapper::keyboard::lemma_key_round_trip(KeyboardKey::Escape);
}

} // verus!
