use gprofiles::callbacks::{
    delete_key, forget_application, key_captured, new_application, new_key, property_edit, set_key,
    BindSide, EditOutcome, ForgetOutcome,
};
use gprofiles::interface::AppWindow;
use gprofiles::objects::{Game, GameType, Keybind};
use gprofiles::remapper::KeyboardKey;
use gprofiles::settings::keymapper::{KeymapperChange, KeymapperRow};
use gprofiles::settings::LogitechSettings;
use gprofiles::types::{Application, InnerApplications, InnerProfiles, JsonData, Profile};

fn text(value: &str) -> String {
    value.to_string()
}

fn profile(id: &str, application: &str) -> Profile {
    Profile {
        activeForApplication: None,
        applicationId: text(application),
        id: text(id),
        name: text(id),
        assignments: Vec::new(),
    }
}

fn settings() -> LogitechSettings {
    LogitechSettings::new(
        JsonData {
            applications: InnerApplications {
                applications: vec![
                    Application::custom(text("Game"), text("abc"), text("C:\\game.exe"), text("C:\\abc.bmp")),
                    Application::desktop(text("desk"), Vec::new(), Vec::new(), 1),
                ],
            },
            profiles: InnerProfiles {
                profiles: vec![profile("pa", "abc"), profile("pb", "desk"), profile("pc", "abc")],
            },
        },
        vec![
            KeymapperRow { idx: 1, ptr: 0x45, obj: 0x51, exe: text("C:\\game.exe") },
            KeymapperRow { idx: 2, ptr: 0x42, obj: 0x41, exe: text("") },
            KeymapperRow { idx: 3, ptr: 0x44, obj: 0x43, exe: text("C:\\game.exe") },
        ],
    )
}

fn game_tile() -> Game {
    Game::custom(text("abc"), text("Game"), text("C:\\abc.bmp"), text("C:\\game.exe"))
}

fn names(games: &[Game]) -> Vec<&str> {
    games.iter().map(|game| game.name.as_str()).collect()
}

#[test]
fn new_application_is_added_and_becomes_the_one_at_work() {
    let mut window = AppWindow::new();
    let mut settings = settings();
    let added = new_application(
        &mut window,
        &mut settings,
        text("tool.exe"),
        text("C:\\tool.exe"),
        text("C:\\icons\\tool.bmp"),
    )
    .unwrap();
    assert_eq!(added.applicationId.len(), 32);
    let apps = settings.get_applications();
    assert_eq!(apps.len(), 3);
    assert_eq!(apps[2].applicationId, added.applicationId);
    assert_eq!(apps[2].name, "tool.exe");
    let profiles = settings.get_profiles();
    assert_eq!(profiles.len(), 4);
    assert_eq!(profiles[3].applicationId, added.applicationId);
    assert_eq!(names(&window.applications), vec!["Desktop", "Game", "tool.exe"]);
    assert_eq!(
        window.active_application,
        Game::custom(
            added.applicationId.clone(),
            text("tool.exe"),
            text("C:\\icons\\tool.bmp"),
            text("C:\\tool.exe")
        )
    );
    assert_eq!(window.active_application_name, "tool.exe");
    assert_eq!(window.active_application_executable, "C:\\tool.exe");
    assert_eq!(window.active_application_type, GameType::Custom);
}

#[test]
fn edit_renames_the_application_at_work() {
    let mut window = AppWindow::new();
    let mut settings = settings();
    window.set_application(game_tile());
    let outcome = property_edit(
        &mut window,
        &mut settings,
        |_: &AppWindow, mut tile: Game| {
            tile.name = text("Renamed");
            Some(tile)
        },
        |mut application: Application, tile: Game| {
            application.name = tile.name;
            application
        },
    );
    match outcome {
        EditOutcome::Edited(edited) => assert_eq!(edited.name, "Renamed"),
        other => panic!("not edited: {other:?}"),
    }
    assert_eq!(settings.get_applications()[0].name, "Renamed");
    assert_eq!(settings.get_applications()[0].applicationPath, Some(text("C:\\game.exe")));
    assert_eq!(names(&window.applications), vec!["Desktop", "Renamed"]);
    assert_eq!(window.active_application_name, "Renamed");
    assert_eq!(window.active_application.id, "abc");
}

#[test]
fn edit_without_change_does_nothing() {
    let mut window = AppWindow::new();
    let mut settings = settings();
    window.set_application(game_tile());
    let outcome = property_edit(
        &mut window,
        &mut settings,
        |_: &AppWindow, _: Game| None,
        |application: Application, _: Game| application,
    );
    assert!(matches!(outcome, EditOutcome::Unchanged));
    assert!(window.applications.is_empty());
    assert_eq!(settings.get_applications()[0].name, "Game");
}

#[test]
fn edit_of_an_unknown_application_reloads_the_list() {
    let mut window = AppWindow::new();
    let mut settings = settings();
    window.set_application(Game::custom(text("lost"), text("Lost"), text("x"), text("y")));
    let outcome = property_edit(
        &mut window,
        &mut settings,
        |_: &AppWindow, tile: Game| Some(tile),
        |application: Application, _: Game| application,
    );
    assert!(matches!(outcome, EditOutcome::NotFound));
    assert_eq!(names(&window.applications), vec!["Desktop", "Game"]);
    assert_eq!(window.active_application.id, "lost");
    assert_eq!(settings.get_applications().len(), 2);
}

#[test]
fn forgetting_a_custom_application_drops_it_and_its_profiles() {
    let mut window = AppWindow::new();
    let mut settings = settings();
    window.set_application(game_tile());
    let outcome = forget_application(&mut window, &mut settings);
    assert_eq!(outcome, ForgetOutcome::Forgotten { image_path: text("C:\\abc.bmp") });
    let apps = settings.get_applications();
    assert_eq!(apps.len(), 1);
    assert_eq!(apps[0].applicationId, "desk");
    let profiles = settings.get_profiles();
    assert_eq!(profiles.len(), 1);
    assert_eq!(profiles[0].id, "pb");
    assert_eq!(settings.get_keymapper().len(), 3);
    assert_eq!(names(&window.applications), vec!["Desktop"]);
    assert_eq!(window.active_application, Game::desktop());
    assert_eq!(window.active_application_type, GameType::Desktop);
    assert_eq!(window.active_application_name, "Desktop");
}

#[test]
fn only_custom_applications_are_forgotten() {
    let mut window = AppWindow::new();
    let mut settings = settings();
    assert_eq!(forget_application(&mut window, &mut settings), ForgetOutcome::NotCustom);
    window.set_application(Game::installed(text("abc"), text("Game"), text("u"), text("e")));
    assert_eq!(forget_application(&mut window, &mut settings), ForgetOutcome::NotCustom);
    assert_eq!(settings.get_applications().len(), 2);
    assert!(window.applications.is_empty());
}

#[test]
fn forgetting_an_unknown_application_reloads_the_list() {
    let mut window = AppWindow::new();
    let mut settings = settings();
    window.set_application(Game::custom(text("lost"), text("Lost"), text("x"), text("y")));
    assert_eq!(forget_application(&mut window, &mut settings), ForgetOutcome::NotFound);
    assert_eq!(settings.get_applications().len(), 2);
    assert_eq!(settings.get_profiles().len(), 3);
    assert_eq!(names(&window.applications), vec!["Desktop", "Game"]);
    assert_eq!(window.active_application.id, "lost");
}

#[test]
fn new_key_adds_a_blank_row() {
    let mut window = AppWindow::new();
    window.set_application(game_tile());
    new_key(&mut window);
    new_key(&mut window);
    assert_eq!(
        window.keybinds,
        vec![Keybind::new(1, text("C:\\game.exe")), Keybind::new(2, text("C:\\game.exe"))]
    );
}

#[test]
fn set_key_shows_the_binding_as_listening() {
    let mut window = AppWindow::new();
    let bind = Keybind::from_vkeys(1, 0x45, 0x51, text("C:\\game.exe"));
    window.set_keymap(bind.clone());
    set_key(&mut window, &bind, BindSide::Pointer);
    assert_eq!(window.keybinds, vec![Keybind::pointer_listening(bind.clone())]);
    set_key(&mut window, &bind, BindSide::Object);
    assert_eq!(window.keybinds, vec![Keybind::object_listening(bind.clone())]);
    set_key(&mut window, &Keybind::new(2, text("C:\\game.exe")), BindSide::Object);
    assert_eq!(window.keybinds.len(), 2);
    assert_eq!(window.keybinds[1].object, "...");
}

#[test]
fn cancelled_capture_restores_the_binding() {
    let mut window = AppWindow::new();
    let settings = settings();
    let bind = Keybind::from_vkeys(1, 0x45, 0x51, text("C:\\game.exe"));
    window.set_keymap(bind.clone());
    set_key(&mut window, &bind, BindSide::Pointer);
    let changes = key_captured(&mut window, &settings, bind.clone(), BindSide::Pointer, None);
    assert!(changes.is_empty());
    assert_eq!(window.keybinds, vec![bind]);
}

#[test]
fn captured_key_is_shown_and_stored() {
    let mut window = AppWindow::new();
    let settings = settings();
    window.set_application(game_tile());
    let kept = Keybind::from_vkeys(1, 0x42, 0x41, text("C:\\game.exe"));
    let bind = Keybind::from_vkeys(2, 0x45, 0x51, text("C:\\game.exe"));
    window.set_keymap(kept.clone());
    window.set_keymap(bind.clone());
    set_key(&mut window, &bind, BindSide::Pointer);
    let changes = key_captured(
        &mut window,
        &settings,
        bind.clone(),
        BindSide::Pointer,
        Some(KeyboardKey::R),
    );
    let updated = Keybind::from_vkeys(2, 0x52, 0x51, text("C:\\game.exe"));
    assert_eq!(window.keybinds, vec![kept, updated]);
    assert_eq!(
        changes,
        vec![
            KeymapperChange::Clear { exe: text("C:\\game.exe") },
            KeymapperChange::Insert { ptr: 0x42, obj: 0x41, exe: text("C:\\game.exe") },
            KeymapperChange::Insert { ptr: 0x52, obj: 0x51, exe: text("C:\\game.exe") },
        ]
    );
}

#[test]
fn captured_key_fills_the_pressed_side() {
    let mut window = AppWindow::new();
    let settings = settings();
    window.set_application(game_tile());
    let blank = Keybind::new(1, text("C:\\game.exe"));
    window.set_keymap(blank.clone());
    set_key(&mut window, &blank, BindSide::Object);
    let changes = key_captured(&mut window, &settings, blank, BindSide::Object, Some(KeyboardKey::Q));
    assert_eq!(window.keybinds, vec![Keybind::from_vkeys(1, 0, 0x51, text("C:\\game.exe"))]);
    assert_eq!(window.keybinds[0].pointer, "NONE");
    assert_eq!(changes, vec![KeymapperChange::Clear { exe: text("C:\\game.exe") }]);
}

#[test]
fn captured_escape_is_shown_and_not_stored() {
    let mut window = AppWindow::new();
    let settings = settings();
    window.set_application(game_tile());
    let bind = Keybind::from_vkeys(1, 0x45, 0x51, text("C:\\game.exe"));
    window.set_keymap(bind.clone());
    let changes = key_captured(
        &mut window,
        &settings,
        bind,
        BindSide::Pointer,
        Some(KeyboardKey::Escape),
    );
    assert!(changes.is_empty());
    assert_eq!(window.keybinds, vec![Keybind::from_vkeys(1, 0x1B, 0x51, text("C:\\game.exe"))]);
    assert_eq!(window.keybinds[0].pointer, "NONE");
}

#[test]
fn delete_key_drops_the_row_and_reloads() {
    let mut window = AppWindow::new();
    let mut settings = settings();
    window.set_application(game_tile());
    window.load_keymaps(&settings, &game_tile());
    assert_eq!(window.keybinds.len(), 2);
    let first = window.keybinds[0].clone();
    let change = delete_key(&mut window, &mut settings, first);
    assert_eq!(change, KeymapperChange::Remove { idx: 1, exe: text("C:\\game.exe") });
    assert_eq!(window.keybinds, vec![Keybind::from_vkeys(3, 0x44, 0x43, text("C:\\game.exe"))]);
    assert_eq!(settings.get_keymapper().len(), 2);
}

#[test]
fn new_application_is_added_when_no_profile_lies_under_a_made_id() {
    let mut window = AppWindow::new();
    let mut empty = LogitechSettings::new(
        JsonData {
            applications: InnerApplications { applications: Vec::new() },
            profiles: InnerProfiles { profiles: Vec::new() },
        },
        Vec::new(),
    );
    let added = new_application(
        &mut window,
        &mut empty,
        text("tool.exe"),
        text("C:\\tool.exe"),
        text("C:\\icons\\tool.bmp"),
    );
    assert!(added.is_some());
    assert_eq!(names(&window.applications), vec!["tool.exe"]);
    assert_eq!(empty.get_profiles().len(), 1);
}
