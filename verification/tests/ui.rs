use gprofiles::config::Config;
use gprofiles::types::gprofiles::{GProfilesData, Keybind};
use gprofiles::types::logitech::LogitechData;
use gprofiles::types::utils::{ApplicationModel, ApplicationType, Component, KeybindModel};
use gprofiles::types::{Application, InnerApplications, InnerProfiles, Profile};
use gprofiles::ui::{App, Singleton, UiEvent};

fn text(value: &str) -> String {
    value.to_string()
}

fn profile(id: &str, application: &str, name: &str, active: bool) -> Profile {
    Profile {
        activeForApplication: Some(active),
        applicationId: text(application),
        id: text(id),
        name: text(name),
        assignments: Vec::new(),
    }
}

fn installed(name: &str, id: &str) -> Application {
    Application::installed(
        text(name),
        text(id),
        text("C:\\exe"),
        text("C:\\folder"),
        Vec::new(),
        Vec::new(),
        text("top"),
        text("https://host/poster.png"),
        1,
    )
}

fn config() -> Config {
    let applications = vec![
        Application::custom(text("Game"), text("abc"), text("C:\\game.exe"), text("C:\\abc.bmp")),
        installed("Shooter", "sho"),
        Application::desktop(text("desk"), Vec::new(), Vec::new(), 1),
        Application::new(&text("Bare"), &text("bare")),
    ];
    let profiles = vec![
        profile("pa", "abc", "PROFILE_NAME_DEFAULT", false),
        profile("pb", "desk", "PROFILE_NAME_DEFAULT", false),
        profile("pc", "abc", "Mine", true),
        profile("pd", "abc", "Other", true),
    ];
    let keybinds = vec![(
        text("abc"),
        vec![Keybind { input: text("q"), output: text("e"), virtual_input: 0x51, virtual_output: 0x45 }],
    )];
    Config::new(
        text("settings.json"),
        GProfilesData { settings: None, keybinds: Some(keybinds) },
        text("lghub"),
        LogitechData {
            applications: InnerApplications { applications },
            profiles: InnerProfiles { profiles },
        },
    )
}

fn names(models: &[ApplicationModel]) -> Vec<&str> {
    models.iter().map(|model| model.name.as_str()).collect()
}

#[test]
fn applications_are_listed_with_the_desktop_in_front() {
    let config = config();
    let mut singleton = Singleton::new();
    singleton.sync_applications(&config);
    assert_eq!(
        names(&singleton.applications),
        vec!["APPLICATION_NAME_DESKTOP", "Game", "Shooter", "Bare"]
    );
    assert_eq!(singleton.applications[0].display_name, "Desktop");
    assert_eq!(singleton.applications[3].kind, ApplicationType::Desktop);
    assert_eq!(singleton.applications[2].image_path, "https://host/poster.png");
}

#[test]
fn sync_works_on_the_desktop() {
    let config = config();
    let mut singleton = Singleton::new();
    singleton.sync(&config);
    assert_eq!(singleton.applications.len(), 4);
    assert_eq!(singleton.active_application_id, "desk");
    assert_eq!(singleton.active_application_type, ApplicationType::Desktop);
    assert_eq!(singleton.name, "APPLICATION_NAME_DESKTOP");
    assert_eq!(singleton.image, "");
    assert_eq!(singleton.executable, "");
    assert!(singleton.keybinds.is_empty());
    assert_eq!(singleton.profiles.len(), 1);
    assert_eq!(singleton.profile_id, "pb");
    assert_eq!(singleton.active_profile_id, "pb");
    assert_eq!(singleton.profile_name, "PROFILE_NAME_DEFAULT");
    assert_eq!(singleton.profiles[0].display_name, "Default");
    assert_eq!(singleton.profile_app_name, "Desktop");
    assert_eq!(singleton.profile_app_id, "desk");
}

#[test]
fn working_on_an_application_shows_its_rules_and_profiles() {
    let config = config();
    let mut singleton = Singleton::new();
    singleton.sync_applications(&config);
    singleton.sync_active_application(&config, &text("abc"));
    assert_eq!(singleton.active_application_id, "abc");
    assert_eq!(singleton.active_application_type, ApplicationType::Installed);
    assert_eq!(singleton.name, "Game");
    assert_eq!(singleton.image, "C:\\abc.bmp");
    assert_eq!(singleton.executable, "C:\\game.exe");
    assert_eq!(
        singleton.keybinds,
        vec![KeybindModel { input: text("q"), output: text("e"), vk_input: 0x51, vk_output: 0x45 }]
    );
    assert_eq!(singleton.profiles.len(), 3);
    assert_eq!(singleton.profile_id, "pc");
    assert_eq!(singleton.active_profile_id, "pc");
    assert_eq!(singleton.profile_name, "Mine");
    assert_eq!(singleton.profile_app_name, "Game");
    assert_eq!(singleton.profile_app_id, "abc");
}

#[test]
fn without_a_profile_in_use_the_first_one_is_worked_on() {
    let config = config();
    let mut singleton = Singleton::new();
    singleton.sync_applications(&config);
    singleton.sync_active_application(&config, &text("abc"));
    singleton.sync_active_application(&config, &text("desk"));
    assert_eq!(singleton.profile_id, "pb");
    singleton.sync_active_application(&config, &text("sho"));
    assert_eq!(singleton.active_application_id, "sho");
    assert!(singleton.profiles.is_empty());
    assert_eq!(singleton.profile_id, "pb");
    assert_eq!(singleton.profile_app_id, "sho");
    assert_eq!(singleton.profile_app_name, "Shooter");
}

#[test]
fn unknown_application_changes_nothing() {
    let config = config();
    let mut singleton = Singleton::new();
    singleton.sync(&config);
    singleton.sync_active_application(&config, &text("lost"));
    assert_eq!(singleton.active_application_id, "desk");
    let mut empty = Singleton::new();
    empty.sync_active_application(&config, &text(""));
    assert_eq!(empty.active_application_id, "");
    assert_eq!(empty.name, "");
}

#[test]
fn details_rules_and_profiles_one_by_one() {
    let config = config();
    let mut singleton = Singleton::new();
    let model: ApplicationModel = config.get_application(&text("abc")).unwrap().as_component();
    singleton.sync_application_details(&model);
    assert_eq!(singleton.name, "Game");
    assert_eq!(singleton.active_application_id, "");
    singleton.sync_keybinds_for(&config, &model);
    assert_eq!(singleton.keybinds.len(), 1);
    singleton.sync_profiles_for(&config, &model);
    assert_eq!(singleton.profiles.len(), 3);
    assert_eq!(singleton.profile_id, "pc");
    assert!(singleton.get_desktop_application().is_none());
    singleton.sync_applications(&config);
    assert_eq!(singleton.get_desktop_application().unwrap().id, "desk");
}

#[test]
fn choosing_an_application_works_on_it() {
    let mut config = config();
    let mut app = App::new();
    app.singleton.sync(&config);
    let model = app.singleton.applications[1].clone();
    app.on_select_application(&config, model.clone());
    assert_eq!(app.singleton.active_application_id, "abc");
    app.dispatch(&mut config, UiEvent::SelectApplication(app.singleton.applications[2].clone()));
    assert_eq!(app.singleton.active_application_id, "sho");
}

#[test]
fn new_name_renames_the_application_at_work() {
    let mut config = config();
    let mut app = App::new();
    app.singleton.sync(&config);
    app.singleton.sync_active_application(&config, &text("abc"));
    app.on_change_name(&mut config, text("Renamed"));
    assert_eq!(config.get_application(&text("abc")).unwrap().name, "Renamed");
    assert_eq!(
        names(&app.singleton.applications),
        vec!["APPLICATION_NAME_DESKTOP", "Renamed", "Shooter", "Bare"]
    );
    assert_eq!(app.singleton.name, "Renamed");
    assert_eq!(app.singleton.profile_app_name, "Renamed");
    assert_eq!(app.singleton.active_application_id, "abc");
}

#[test]
fn new_name_without_an_application_at_work_does_nothing() {
    let mut config = config();
    let mut app = App::new();
    app.dispatch(&mut config, UiEvent::ChangeName(text("Renamed")));
    assert!(app.singleton.applications.is_empty());
    assert!(config.get_applications().iter().all(|a| a.name != "Renamed"));
}

#[test]
fn new_executable_for_a_custom_application() {
    let mut config = config();
    let mut app = App::new();
    app.singleton.sync(&config);
    app.singleton.sync_active_application(&config, &text("abc"));
    assert_eq!(app.executable_folder(&config), Some(text("C:\\game.exe")));
    app.on_change_executable(&mut config, Some(text("D:\\new.exe")));
    assert_eq!(
        config.get_application(&text("abc")).unwrap().applicationPath,
        Some(text("D:\\new.exe"))
    );
    assert_eq!(app.singleton.executable, "D:\\new.exe");
    assert_eq!(app.singleton.applications[1].executable, "C:\\game.exe");
    app.dispatch(&mut config, UiEvent::ChangeExecutable(None));
    assert_eq!(app.singleton.executable, "D:\\new.exe");
    assert_eq!(
        config.get_application(&text("abc")).unwrap().applicationPath,
        Some(text("D:\\new.exe"))
    );
}

#[test]
fn new_executable_for_any_other_application_does_nothing() {
    let mut config = config();
    let mut app = App::new();
    app.singleton.sync(&config);
    app.singleton.sync_active_application(&config, &text("sho"));
    assert_eq!(app.executable_folder(&config), None);
    app.on_change_executable(&mut config, Some(text("D:\\new.exe")));
    assert_eq!(
        config.get_application(&text("sho")).unwrap().applicationPath,
        Some(text("C:\\exe"))
    );
    assert_eq!(app.singleton.executable, "C:\\exe");
    app.singleton.active_application_id = text("lost");
    assert_eq!(app.executable_folder(&config), None);
    app.on_change_executable(&mut config, Some(text("D:\\new.exe")));
    assert_eq!(app.singleton.executable, "C:\\exe");
}

#[test]
fn new_image_for_a_custom_application() {
    let mut config = config();
    let mut app = App::new();
    app.singleton.sync(&config);
    app.singleton.sync_active_application(&config, &text("abc"));
    assert_eq!(app.image_folder(&config), Some(text("C:\\abc.bmp")));
    app.dispatch(&mut config, UiEvent::ChangeImage(Some(text("C:\\cache\\new.bmp"))));
    assert_eq!(
        config.get_application(&text("abc")).unwrap().posterPath,
        Some(text("C:\\cache\\new.bmp"))
    );
    assert_eq!(app.singleton.image, "C:\\cache\\new.bmp");
    assert_eq!(app.singleton.applications[1].image_path, "C:\\cache\\new.bmp");
    app.on_change_image(&mut config, None);
    assert_eq!(app.singleton.image, "C:\\cache\\new.bmp");
}

#[test]
fn new_image_for_any_other_application_only_lists_anew() {
    let mut config = config();
    let mut app = App::new();
    app.singleton.active_application_id = text("sho");
    assert_eq!(app.image_folder(&config), None);
    app.on_change_image(&mut config, Some(text("C:\\cache\\new.bmp")));
    assert!(config.get_application(&text("sho")).unwrap().posterPath.is_none());
    assert_eq!(app.singleton.applications.len(), 4);
    assert_eq!(app.singleton.image, "");
}
