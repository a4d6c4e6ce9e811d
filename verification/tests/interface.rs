use gprofiles::interface::{AppWindow, MouseButton, MouseButtonState, TrayAction};
use gprofiles::objects::{Game, GameType, Keybind, Process};
use gprofiles::settings::keymapper::KeymapperRow;
use gprofiles::settings::LogitechSettings;
use gprofiles::types::{Application, InnerApplications, InnerProfiles, JsonData};

fn text(value: &str) -> String {
    value.to_string()
}

fn installed(name: &str, id: &str) -> Application {
    Application::installed(
        text(name),
        text(id),
        text("C:\\exe"),
        text("C:\\folder"),
        Vec::new(),
        Vec::new(),
        text("top"),
        text("url"),
        1,
    )
}

fn settings_with(applications: Vec<Application>) -> LogitechSettings {
    LogitechSettings::new(
        JsonData {
            applications: InnerApplications { applications },
            profiles: InnerProfiles { profiles: Vec::new() },
        },
        vec![
            KeymapperRow { idx: 1, ptr: 0x45, obj: 0x51, exe: text("C:\\game.exe") },
            KeymapperRow { idx: 2, ptr: 0x42, obj: 0x41, exe: text("") },
        ],
    )
}

fn settings() -> LogitechSettings {
    settings_with(vec![
        Application::custom(text("Game"), text("abc"), text("C:\\game.exe"), text("C:\\game.bmp")),
        Application::desktop(text("desk"), Vec::new(), Vec::new(), 1),
        installed("Shooter", "sho"),
    ])
}

fn names(games: &[Game]) -> Vec<&str> {
    games.iter().map(|game| game.name.as_str()).collect()
}

#[test]
fn new_window_shows_the_desktop_and_nothing_else() {
    let window = AppWindow::new();
    assert!(!window.visible);
    assert_eq!(window.active_application, Game::desktop());
    assert_eq!(window.active_application_type, GameType::Desktop);
    assert_eq!(window.active_application_name, "");
    assert!(window.applications.is_empty());
    assert!(window.keybinds.is_empty());
    assert!(window.processes.is_empty());
    assert_eq!(window.process_query, "");
}

#[test]
fn set_application_shows_its_details() {
    let mut window = AppWindow::new();
    let game = Game::custom(text("abc"), text("Game"), text("C:\\game.bmp"), text("C:\\game.exe"));
    window.set_application(game.clone());
    assert_eq!(window.active_application, game);
    assert_eq!(window.active_application_name, "Game");
    assert_eq!(window.active_application_image, "C:\\game.bmp");
    assert_eq!(window.active_application_executable, "C:\\game.exe");
    assert_eq!(window.active_application_type, GameType::Custom);
    assert!(window.applications.is_empty());
}

#[test]
fn selected_application_is_the_one_of_the_settings() {
    let settings = settings();
    let mut window = AppWindow::new();
    assert!(window.selected_application(&settings).is_none());
    window.set_application(Game::custom(text("abc"), text("x"), text("y"), text("z")));
    assert_eq!(window.selected_application(&settings).unwrap().name, "Game");
    window.set_application(Game::custom(text("lost"), text("x"), text("y"), text("z")));
    assert!(window.selected_application(&settings).is_none());
}

#[test]
fn applications_are_loaded_with_the_desktop_in_front() {
    let settings = settings();
    let mut window = AppWindow::new();
    window.load_applications(&settings);
    assert_eq!(names(&window.applications), vec!["Desktop", "Game", "Shooter"]);
    assert_eq!(window.applications[0], Game::desktop());
    assert_eq!(
        window.applications[1],
        Game::custom(text("abc"), text("Game"), text("C:\\game.bmp"), text("C:\\game.exe"))
    );
    assert_eq!(
        window.applications[2],
        Game::installed(text("sho"), text("Shooter"), text("url"), text("C:\\exe"))
    );
    window.load_applications(&settings_with(Vec::new()));
    assert!(window.applications.is_empty());
}

#[test]
fn set_keymap_replaces_by_number_or_appends() {
    let mut window = AppWindow::new();
    window.set_keymap(Keybind::from_vkeys(1, 0x45, 0x51, text("game.exe")));
    window.set_keymap(Keybind::from_vkeys(2, 0x42, 0x41, text("game.exe")));
    window.set_keymap(Keybind::from_vkeys(1, 0x44, 0x43, text("game.exe")));
    assert_eq!(
        window.keybinds,
        vec![
            Keybind::from_vkeys(1, 0x44, 0x43, text("game.exe")),
            Keybind::from_vkeys(2, 0x42, 0x41, text("game.exe")),
        ]
    );
}

#[test]
fn keymaps_are_loaded_for_the_executable_of_a_tile() {
    let settings = settings();
    let mut window = AppWindow::new();
    let game = Game::custom(text("abc"), text("Game"), text("C:\\game.bmp"), text("C:\\game.exe"));
    window.load_keymaps(&settings, &game);
    assert_eq!(window.keybinds, vec![Keybind::from_vkeys(1, 0x45, 0x51, text("C:\\game.exe"))]);
    window.load_keymaps(&settings, &Game::desktop());
    assert_eq!(window.keybinds, vec![Keybind::from_vkeys(2, 0x42, 0x41, text(""))]);
    let lost = Game::custom(text("x"), text("x"), text("x"), text("lost.exe"));
    window.load_keymaps(&settings, &lost);
    assert!(window.keybinds.is_empty());
}

#[test]
fn program_below_an_application_counts_as_added() {
    let mut window = AppWindow::new();
    window.load_applications(&settings());
    assert!(window.is_added(&text("C:\\game.exe")));
    assert!(window.is_added(&text("C:\\game.exe.bak")));
    assert!(window.is_added(&text("C:\\exe\\tool.exe")));
    assert!(!window.is_added(&text("C:\\gam")));
    assert!(!window.is_added(&text("D:\\game.exe")));
    assert!(!window.is_added(&text("")));
    assert!(!AppWindow::new().is_added(&text("C:\\game.exe")));
}

#[test]
fn processes_are_offered_by_query_unless_added() {
    let mut window = AppWindow::new();
    window.load_applications(&settings());
    window.visible = true;
    window.process_query = text("ga");
    let foreground = vec![
        Process::from_exec(text("game.exe"), text("C:\\game.exe")),
        Process::from_exec(text("gamma.exe"), text("D:\\gamma.exe")),
        Process::from_exec(text("other.exe"), text("D:\\other.exe")),
        Process::from_exec(text("Game2.exe"), text("D:\\Game2.exe")),
        Process::from_exec(text("gazelle"), text("D:\\gazelle")),
    ];
    window.refresh_processes(&foreground);
    assert_eq!(
        window.processes,
        vec![
            Process::from_exec(text("gamma.exe"), text("D:\\gamma.exe")),
            Process::from_exec(text("gazelle"), text("D:\\gazelle")),
        ]
    );
}

#[test]
fn hidden_window_keeps_its_processes() {
    let mut window = AppWindow::new();
    let foreground = vec![Process::from_exec(text("game.exe"), text("C:\\game.exe"))];
    window.refresh_processes(&foreground);
    assert!(window.processes.is_empty());
    window.visible = true;
    window.refresh_processes(&foreground);
    assert_eq!(window.processes, foreground);
}

#[test]
fn list_of_equal_length_is_kept() {
    let mut window = AppWindow::new();
    window.visible = true;
    window.refresh_processes(&vec![Process::from_exec(text("a.exe"), text("C:\\a.exe"))]);
    window.refresh_processes(&vec![Process::from_exec(text("b.exe"), text("C:\\b.exe"))]);
    assert_eq!(window.processes, vec![Process::from_exec(text("a.exe"), text("C:\\a.exe"))]);
    window.refresh_processes(&Vec::new());
    assert!(window.processes.is_empty());
}

#[test]
fn tray_menu_and_clicks() {
    let open = text("1000");
    let quit = text("1001");
    let left_up = Some((MouseButton::Left, MouseButtonState::Up));
    assert_eq!(AppWindow::handle_trayicon(Some(&open), None), TrayAction::Show);
    assert_eq!(AppWindow::handle_trayicon(Some(&open), left_up), TrayAction::Show);
    assert_eq!(AppWindow::handle_trayicon(Some(&quit), None), TrayAction::Quit);
    assert_eq!(AppWindow::handle_trayicon(Some(&quit), left_up), TrayAction::Quit);
    assert_eq!(AppWindow::handle_trayicon(Some(&text("")), None), TrayAction::Quit);
    assert_eq!(AppWindow::handle_trayicon(None, left_up), TrayAction::Show);
    assert_eq!(
        AppWindow::handle_trayicon(None, Some((MouseButton::Left, MouseButtonState::Down))),
        TrayAction::Stay
    );
    assert_eq!(
        AppWindow::handle_trayicon(None, Some((MouseButton::Right, MouseButtonState::Up))),
        TrayAction::Stay
    );
    assert_eq!(
        AppWindow::handle_trayicon(None, Some((MouseButton::Middle, MouseButtonState::Up))),
        TrayAction::Stay
    );
    assert_eq!(AppWindow::handle_trayicon(None, None), TrayAction::Stay);
}
