//! The keyboard remapping engine: the key table, the active keymap and the
//! decision taken on every key transition.

pub mod capture;
pub mod keyboard;
pub mod listener;
pub mod shared;
pub mod watcher;

use std::collections::HashMap;
use vstd::prelude::*;
use crate::objects::Keybind;

pub use keyboard::KeyboardKey;

verus! {

broadcast use vstd::std_specs::hash::group_hash_axioms;

/// The rules that a list of bindings installs, read in order: a binding with
/// an unset side installs nothing, and of two live bindings for one pressed
/// code the later one stands.
pub open spec fn keymap_of(keybinds: Seq<Keybind>) -> Map<u16, u16>
    decreases keybinds.len(),
{
    if keybinds.len() == 0 {
        Map::empty()
    } else {
        let earlier = keymap_of(keybinds.drop_last());
        let bind = keybinds.last();
        if bind.is_live() {
            earlier.insert(bind.source(), bind.destination())
        } else {
            earlier
        }
    }
}

/// True when `rules` neither fires on code 0 nor sends it.
pub open spec fn has_no_unset_code(rules: Map<u16, u16>) -> bool {
    forall|source: u16| #[trigger]
        rules.contains_key(source) ==> source != 0 && rules[source] != 0
}

/// What a lookup of `source` finds in `active`.
pub open spec fn lookup_in(active: Option<Map<u16, u16>>, source: u16) -> Option<u16> {
    match active {
        Some(rules) => if rules.contains_key(source) {
            Some(rules[source])
        } else {
            None
        },
        None => None,
    }
}

/// The rule set of one application: which raw code is sent for which
/// pressed raw code. Code 0 is never pressed and never sent.
pub struct Keymap {
    rules: HashMap<u16, u16>,
}

impl View for Keymap {
    type V = Map<u16, u16>;

    closed spec fn view(&self) -> Map<u16, u16> {
        self.rules@
    }
}

impl Keymap {
    #[verifier::type_invariant]
    spec fn well_formed(self) -> bool {
        has_no_unset_code(self.rules@)
    }

    /// A keymap without rules.
    pub fn new() -> (keymap: Keymap)
        ensures
            keymap@ == Map::<u16, u16>::empty(),
    {
        Keymap { rules: HashMap::new() }
    }

    /// The keymap that `keybinds` installs.
    pub fn from_keybinds(keybinds: &Vec<Keybind>) -> (keymap: Keymap)
        ensures
            keymap@ == keymap_of(keybinds@),
            has_no_unset_code(keymap@),
    {
        let mut rules: HashMap<u16, u16> = HashMap::new();
        let mut i: usize = 0;
        while i < keybinds.len()
            invariant
                i <= keybinds.len(),
                rules@ == keymap_of(keybinds@.take(i as int)),
                has_no_unset_code(rules@),
            decreases keybinds.len() - i,
        {
            let bind = &keybinds[i];
            let source: u16 = #[verifier::truncate] (bind.vkey_object as u16);
            let destination: u16 = #[verifier::truncate] (bind.vkey_pointer as u16);
            if source != 0 && destination != 0 {
                rules.insert(source, destination);
            }
            proof {
                assert(keybinds@.take(i + 1).drop_last() == keybinds@.take(i as int));
            }
            i += 1;
        }
        proof {
            assert(keybinds@.take(keybinds.len() as int) == keybinds@);
        }
        Keymap { rules }
    }

    /// The code sent for `source`, if a rule fires on it.
    pub fn get(&self, source: u16) -> (destination: Option<u16>)
        ensures
            destination == lookup_in(Some(self@), source),
            has_no_unset_code(self@),
    {
        proof {
            use_type_invariant(self);
        }
        match self.rules.get(&source) {
            Some(destination) => Some(*destination),
            None => None,
        }
    }

    /// The number of rules.
    pub fn len(&self) -> (count: usize)
        ensures
            count == self@.len(),
    {
        self.rules.len()
    }

    /// True when there is no rule.
    pub fn is_empty(&self) -> (empty: bool)
        ensures
            empty == (self@.len() == 0),
    {
        self.rules.len() == 0
    }
}

/// The keymap in force. Before the first `publish` there is none, and every
/// key passes; each `publish` replaces the keymap as a whole.
pub struct KeymapStore {
    active: Option<Keymap>,
}

impl View for KeymapStore {
    type V = Option<Map<u16, u16>>;

    closed spec fn view(&self) -> Option<Map<u16, u16>> {
        match self.active {
            Some(keymap) => Some(keymap@),
            None => None,
        }
    }
}

impl KeymapStore {
    /// A store in which no keymap is installed.
    pub fn new() -> (store: KeymapStore)
        ensures
            store@ is None,
    {
        KeymapStore { active: None }
    }

    /// Installs `keymap` in place of whatever was in force.
    pub fn publish(&mut self, keymap: Keymap)
        ensures
            final(self)@ == Some(keymap@),
    {
        self.active = Some(keymap);
    }

    /// The code to send in place of `source`, or `None` when the key passes.
    pub fn lookup(&self, source: u16) -> (destination: Option<u16>)
        ensures
            destination == lookup_in(self@, source),
            destination matches Some(code) ==> source != 0 && code != 0,
    {
        match &self.active {
            Some(keymap) => keymap.get(source),
            None => None,
        }
    }

    /// True once a keymap has been published.
    pub fn is_installed(&self) -> (installed: bool)
        ensures
            installed == (self@ is Some),
    {
        self.active.is_some()
    }
}

/// Builds the keymap of `keybinds` and installs it in `store`.
pub fn set_keymap(store: &mut KeymapStore, keybinds: &Vec<Keybind>)
    ensures
        final(store)@ == Some(keymap_of(keybinds@)),
{
    let keymap = Keymap::from_keybinds(keybinds);
    store.publish(keymap);
}

/// No list of bindings installs a rule that fires on code 0 or sends it: a
/// lookup of code 0 finds nothing, whatever was bound.
pub proof fn lemma_keymap_has_no_unset_code(keybinds: Seq<Keybind>)
    ensures
        has_no_unset_code(keymap_of(keybinds)),
        lookup_in(Some(keymap_of(keybinds)), 0) is None,
    decreases keybinds.len(),
{
    if keybinds.len() > 0 {
        lemma_keymap_has_no_unset_code(keybinds.drop_last());
    }
}

/// A binding with an unset side leaves no trace: the list installs what it
/// would install without that binding.
pub proof fn lemma_unset_binding_excluded(keybinds: Seq<Keybind>, at: int)
    requires
        0 <= at < keybinds.len(),
        !keybinds[at].is_live(),
    ensures
        keymap_of(keybinds) == keymap_of(keybinds.remove(at)),
    decreases keybinds.len(),
{
    if at == keybinds.len() - 1 {
        assert(keybinds.remove(at) == keybinds.drop_last());
    } else {
        lemma_unset_binding_excluded(keybinds.drop_last(), at);
        assert(keybinds.remove(at).drop_last() == keybinds.drop_last().remove(at));
        assert(keybinds.remove(at).last() == keybinds.last());
    }
}

/// True when the binding at `at` is live and is pressed by `source`.
pub open spec fn fires_on(keybinds: Seq<Keybind>, at: int, source: u16) -> bool {
    0 <= at < keybinds.len() && keybinds[at].is_live() && keybinds[at].source() == source
}

/// A code has a rule exactly when some live binding is pressed by it.
pub proof fn lemma_keymap_contains(keybinds: Seq<Keybind>, source: u16)
    ensures
        keymap_of(keybinds).contains_key(source) <==> exists|i: int|
            fires_on(keybinds, i, source),
    decreases keybinds.len(),
{
    if keybinds.len() > 0 {
        let earlier = keybinds.drop_last();
        let last = keybinds.len() - 1;
        lemma_keymap_contains(earlier, source);
        if keymap_of(keybinds).contains_key(source) {
            if fires_on(keybinds, last, source) {
            } else {
                let i = choose|i: int| fires_on(earlier, i, source);
                assert(fires_on(keybinds, i, source));
            }
        }
        if exists|i: int| fires_on(keybinds, i, source) {
            let i = choose|i: int| fires_on(keybinds, i, source);
            if i < last {
                assert(fires_on(earlier, i, source));
            }
        }
    }
}

/// The rule of a code sends what the last live binding pressed by it says.
pub proof fn lemma_keymap_last_wins(keybinds: Seq<Keybind>, source: u16, at: int)
    requires
        fires_on(keybinds, at, source),
        forall|j: int| at < j ==> !fires_on(keybinds, j, source),
    ensures
        keymap_of(keybinds).contains_key(source),
        keymap_of(keybinds)[source] == keybinds[at].destination(),
    decreases keybinds.len(),
{
    let earlier = keybinds.drop_last();
    let last = keybinds.len() - 1;
    if at < last {
        assert(!fires_on(keybinds, last, source));
        assert(fires_on(earlier, at, source));
        assert forall|j: int| at < j implies !fires_on(earlier, j, source) by {
            if fires_on(earlier, j, source) {
                assert(fires_on(keybinds, j, source));
            }
        }
        lemma_keymap_last_wins(earlier, source, at);
    }
}

/// After `rules` has been published, a lookup finds for every pair of `rules`
/// its second code and for every other code nothing; before anything has been
/// published, a lookup finds nothing.
pub proof fn lemma_publish_then_lookup(rules: Map<u16, u16>, source: u16)
    ensures
        rules.contains_key(source) ==> lookup_in(Some(rules), source) == Some(rules[source]),
        !rules.contains_key(source) ==> lookup_in(Some(rules), source) is None,
        lookup_in(None, source) is None,
{
}

} // verus!
