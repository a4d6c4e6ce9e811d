use gprofiles::objects::{keybinds_bound_to, Game, GameType, Keybind, Process};
use gprofiles::remapper::KeyboardKey;
use gprofiles::types::Application;

fn text(value: &str) -> String {
    value.to_string()
}

#[test]
fn new_keybind_has_neither_side_set() {
    let bind = Keybind::new(3, text("game.exe"));
    assert_eq!(
        bind,
        Keybind {
            index: 3,
            executable: text("game.exe"),
            object: text("NONE"),
            pointer: text("NONE"),
            vkey_object: 0,
            vkey_pointer: 0,
        }
    );
}

#[test]
fn from_vkeys_labels_each_side() {
    let bind = Keybind::from_vkeys(7, 0x45, 0x51, text("game.exe"));
    assert_eq!(
        bind,
        Keybind {
            index: 7,
            executable: text("game.exe"),
            object: text("q"),
            pointer: text("e"),
            vkey_object: 0x51,
            vkey_pointer: 0x45,
        }
    );
}

#[test]
fn from_vkeys_keeps_the_code_of_an_unknown_key() {
    let bind = Keybind::from_vkeys(1, 0x07, 0xFF, text("a"));
    assert_eq!(bind.pointer, "NONE");
    assert_eq!(bind.object, "NONE");
    assert_eq!(bind.vkey_pointer, 0x07);
    assert_eq!(bind.vkey_object, 0xFF);
    let wide = Keybind::from_vkeys(1, 0x1_0000_0041, u64::MAX, text("a"));
    assert_eq!(wide.pointer, "NONE");
    assert_eq!(wide.vkey_pointer, 0x41);
    assert_eq!(wide.object, "NONE");
    assert_eq!(wide.vkey_object, -1);
}

#[test]
fn listening_clears_one_side() {
    let bind = Keybind::from_vkeys(7, 0x45, 0x51, text("game.exe"));
    let pointer = Keybind::pointer_listening(bind.clone());
    assert_eq!(pointer.pointer, "...");
    assert_eq!(pointer.vkey_pointer, 0);
    assert_eq!(pointer.object, "q");
    assert_eq!(pointer.vkey_object, 0x51);
    assert_eq!(pointer.index, 7);
    assert_eq!(pointer.executable, "game.exe");
    let object = Keybind::object_listening(bind);
    assert_eq!(object.object, "...");
    assert_eq!(object.vkey_object, 0);
    assert_eq!(object.pointer, "e");
    assert_eq!(object.vkey_pointer, 0x45);
}

#[test]
fn input_keys_are_those_of_the_codes() {
    let bind = Keybind::from_vkeys(7, 0x45, 0x51, text("game.exe"));
    assert_eq!(bind.input_pointer(), KeyboardKey::E);
    assert_eq!(bind.input_object(), KeyboardKey::Q);
    let blank = Keybind::new(1, text("a"));
    assert_eq!(blank.input_pointer(), KeyboardKey::Escape);
    assert_eq!(blank.input_object(), KeyboardKey::Escape);
    let odd = Keybind { vkey_pointer: -5, vkey_object: 0x7FFF_FFFF, ..Keybind::new(1, text("a")) };
    assert_eq!(odd.input_pointer(), KeyboardKey::Escape);
    assert_eq!(odd.input_object(), KeyboardKey::Escape);
}

#[test]
fn update_replaces_one_side_and_keeps_the_other() {
    let bind = Keybind::from_vkeys(7, 0x45, 0x51, text("game.exe"));
    let pointer = bind.update_pointer(0x52);
    assert_eq!(pointer, Keybind::from_vkeys(7, 0x52, 0x51, text("game.exe")));
    let object = bind.update_object(0x41);
    assert_eq!(object, Keybind::from_vkeys(7, 0x45, 0x41, text("game.exe")));
    let listening = Keybind::pointer_listening(bind);
    let filled = listening.update_pointer(0x70);
    assert_eq!(filled.pointer, "F1");
    assert_eq!(filled.object, "q");
    assert_eq!(filled.vkey_object, 0x51);
}

#[test]
fn update_keeps_a_negative_code() {
    let odd = Keybind { vkey_object: -5, ..Keybind::new(1, text("a")) };
    let updated = odd.update_pointer(0x41);
    assert_eq!(updated.vkey_object, -5);
    assert_eq!(updated.object, "NONE");
    assert_eq!(updated.vkey_pointer, 0x41);
    assert_eq!(updated.pointer, "a");
}

#[test]
fn bindings_are_chosen_by_exact_executable() {
    let binds = vec![
        Keybind::from_vkeys(1, 0x45, 0x51, text("game.exe")),
        Keybind::from_vkeys(2, 0x42, 0x41, text("other.exe")),
        Keybind::from_vkeys(3, 0x44, 0x43, text("game.exe")),
        Keybind::from_vkeys(4, 0x44, 0x43, text("")),
    ];
    let bound = keybinds_bound_to(&binds, &text("game.exe"));
    assert_eq!(bound, vec![binds[0].clone(), binds[2].clone()]);
    assert_eq!(keybinds_bound_to(&binds, &text("")), vec![binds[3].clone()]);
    assert_eq!(keybinds_bound_to(&binds, &text("Game.exe")), Vec::new());
    assert_eq!(keybinds_bound_to(&Vec::new(), &text("game.exe")), Vec::new());
}

#[test]
fn desktop_tile() {
    let game = Game::desktop();
    assert_eq!(
        game,
        Game {
            id: text("APPLICATION_NAME_DESKTOP"),
            name: text("Desktop"),
            image_path: text(""),
            executable: text(""),
            kind: GameType::Desktop,
        }
    );
    assert_eq!(game.icon_size(), (48, 48));
}

#[test]
fn installed_and_custom_tiles() {
    let installed = Game::installed(text("id"), text("name"), text("url"), text("exe"));
    assert_eq!(installed.kind, GameType::Installed);
    assert_eq!(installed.icon_size(), (150, 210));
    assert_eq!(installed.image_path, "url");
    let custom = Game::custom(text("id"), text("name"), text("poster"), text("exe"));
    assert_eq!(custom.kind, GameType::Custom);
    assert_eq!(custom.icon_size(), (48, 48));
    assert_eq!(custom.id, "id");
    assert_eq!(custom.name, "name");
    assert_eq!(custom.image_path, "poster");
    assert_eq!(custom.executable, "exe");
}

#[test]
fn tile_of_a_custom_application() {
    let app = Application::custom(text("Game"), text("abc"), text("C:\\game.exe"), text("C:\\game.bmp"));
    assert!(Game::can_show(&app));
    assert_eq!(
        Game::from_settings(app),
        Game::custom(text("abc"), text("Game"), text("C:\\game.bmp"), text("C:\\game.exe"))
    );
}

#[test]
fn tile_of_the_desktop() {
    let app = Application::desktop(text("desk"), Vec::new(), Vec::new(), 3);
    assert!(Game::can_show(&app));
    assert_eq!(Game::from_settings(app), Game::desktop());
}

#[test]
fn tile_of_an_installed_application() {
    let app = Application::installed(
        text("Game"),
        text("abc"),
        text("C:\\game.exe"),
        text("C:\\games"),
        Vec::new(),
        Vec::new(),
        text("top"),
        text("https://x/y.png"),
        2,
    );
    assert!(Game::can_show(&app));
    assert_eq!(
        Game::from_settings(app),
        Game::installed(text("abc"), text("Game"), text("https://x/y.png"), text("C:\\game.exe"))
    );
    let mut bare = Application::new(&text("Game"), &text("abc"));
    assert!(!Game::can_show(&bare));
    bare.posterUrl = Some(text("u"));
    assert!(Game::can_show(&bare));
    assert_eq!(
        Game::from_settings(bare),
        Game::installed(text("abc"), text("Game"), text("u"), text(""))
    );
}

#[test]
fn custom_application_without_poster_cannot_be_shown() {
    let mut app = Application::custom(text("Game"), text("abc"), text("exe"), text("bmp"));
    app.posterPath = None;
    assert!(!Game::can_show(&app));
    let mut app = Application::custom(text("Game"), text("abc"), text("exe"), text("bmp"));
    app.applicationPath = None;
    assert!(!Game::can_show(&app));
}

#[test]
fn process_entry() {
    let process = Process::from_exec(text("game.exe"), text("C:\\game.exe"));
    assert_eq!(process, Process { name: text("game.exe"), executable: text("C:\\game.exe") });
}
