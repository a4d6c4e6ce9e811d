use std::sync::Arc;

use gprofiles::objects::Keybind;
use gprofiles::remapper::listener::{HookVerdict, KeyAction, WM_KEYDOWN, WM_KEYUP};
use gprofiles::remapper::shared::SharedKeymapStore;
use gprofiles::remapper::Keymap;

fn keymap_sending(destination: u64) -> Keymap {
    let mut binds = Vec::new();
    for source in 0x41u64..=0x5A {
        binds.push(Keybind::from_vkeys(
            (source - 0x40) as i32,
            destination,
            source,
            "game.exe".to_string(),
        ));
    }
    Keymap::from_keybinds(&binds)
}

#[test]
fn shared_store_starts_without_keymap() {
    let shared = SharedKeymapStore::new();
    assert_eq!(shared.lookup(0x41), None);
    assert_eq!(shared.on_key_transition(0x41, true), KeyAction::PassThrough);
    assert_eq!(shared.keyboard_hook(0, WM_KEYDOWN, 0x41), HookVerdict::CallNext);
}

#[test]
fn shared_store_publish_then_lookup() {
    let shared = SharedKeymapStore::new();
    shared.publish(keymap_sending(0x31));
    assert_eq!(shared.lookup(0x41), Some(0x31));
    assert_eq!(shared.lookup(0x5A), Some(0x31));
    assert_eq!(shared.lookup(0x31), None);
    shared.publish(keymap_sending(0x32));
    assert_eq!(shared.lookup(0x41), Some(0x32));
    assert_eq!(
        shared.on_key_transition(0x42, false),
        KeyAction::Handled { code: 0x32, is_down: false }
    );
    assert_eq!(
        shared.keyboard_hook(0, WM_KEYUP, 0x42),
        HookVerdict::Inject { vkey: 0x32, flags: 2 }
    );
    assert_eq!(shared.keyboard_hook(-1, WM_KEYUP, 0x42), HookVerdict::CallNext);
}

fn shared_between_threads<T: Send + Sync>(_: &T) {}

#[test]
fn shared_store_can_be_shared_between_threads() {
    let shared = Arc::new(SharedKeymapStore::new());
    shared_between_threads(&shared);
    let engine = Arc::clone(&shared);
    shared.publish(keymap_sending(0x33));
    assert_eq!(engine.lookup(0x41), Some(0x33));
}

#[test]
fn every_lookup_belongs_to_one_published_keymap() {
    let shared = SharedKeymapStore::new();
    for round in 0..50u64 {
        let destination = 0x31 + round % 9;
        shared.publish(keymap_sending(destination));
        for source in 0x41u16..=0x5A {
            assert_eq!(shared.lookup(source), Some(destination as u16));
        }
        assert_eq!(shared.lookup(0x30), None);
        assert_eq!(shared.lookup(0), None);
    }
}
