use gprofiles::types::gprofiles::Keybind as StoredKeybind;
use gprofiles::types::utils::{
    poster_name, ApplicationModel, ApplicationType, Component, KeybindModel, ProfileModel,
};
use gprofiles::types::{
    application_index, clone_applications, clone_profiles, profile_index, profiles_by_application,
    Application, Assignment, CategoryColors, Command, Profile,
};

fn text(value: &str) -> String {
    value.to_string()
}

fn colors() -> Vec<CategoryColors> {
    vec![CategoryColors { hex: text("#fff"), tag: text("tag") }]
}

fn commands() -> Vec<Command> {
    vec![Command { cardId: text("card"), category: text("cat"), name: text("cmd") }]
}

fn profile(id: &str, application: &str, name: &str, active: Option<bool>) -> Profile {
    Profile {
        activeForApplication: active,
        applicationId: text(application),
        id: text(id),
        name: text(name),
        assignments: vec![Assignment { cardId: text("c"), slotId: text("s") }],
    }
}

fn same_application(a: &Application, b: &Application) -> bool {
    a.name == b.name
        && a.applicationId == b.applicationId
        && a.applicationPath == b.applicationPath
        && a.databaseId == b.databaseId
        && a.categoryColors == b.categoryColors
        && a.commands == b.commands
        && a.version == b.version
        && a.isCustom == b.isCustom
        && a.posterPath == b.posterPath
        && a.applicationFolder == b.applicationFolder
        && a.isInstalled == b.isInstalled
        && a.posterTitlePosition == b.posterTitlePosition
        && a.posterUrl == b.posterUrl
}

fn same_profile(a: &Profile, b: &Profile) -> bool {
    a.activeForApplication == b.activeForApplication
        && a.applicationId == b.applicationId
        && a.id == b.id
        && a.name == b.name
        && a.assignments == b.assignments
}

#[test]
fn new_application_has_only_name_and_id() {
    let app = Application::new(&text("Game"), &text("abc"));
    assert_eq!(app.name, "Game");
    assert_eq!(app.applicationId, "abc");
    assert!(app.applicationPath.is_none());
    assert!(app.databaseId.is_none());
    assert!(app.categoryColors.is_none());
    assert!(app.commands.is_none());
    assert!(app.version.is_none());
    assert!(app.isCustom.is_none());
    assert!(app.posterPath.is_none());
    assert!(app.applicationFolder.is_none());
    assert!(app.isInstalled.is_none());
    assert!(app.posterTitlePosition.is_none());
    assert!(app.posterUrl.is_none());
}

#[test]
fn custom_application() {
    let app = Application::custom(text("Game"), text("abc"), text("exe"), text("bmp"));
    let mut expected = Application::new(&text("Game"), &text("abc"));
    expected.applicationPath = Some(text("exe"));
    expected.posterPath = Some(text("bmp"));
    expected.isCustom = Some(true);
    assert!(same_application(&app, &expected));
}

#[test]
fn installed_application() {
    let app = Application::installed(
        text("Game"),
        text("abc"),
        text("exe"),
        text("folder"),
        colors(),
        commands(),
        text("top"),
        text("url"),
        4,
    );
    let mut expected = Application::new(&text("Game"), &text("abc"));
    expected.applicationPath = Some(text("exe"));
    expected.databaseId = Some(text("abc"));
    expected.categoryColors = Some(colors());
    expected.commands = Some(commands());
    expected.version = Some(4);
    expected.applicationFolder = Some(text("folder"));
    expected.isInstalled = Some(true);
    expected.posterTitlePosition = Some(text("top"));
    expected.posterUrl = Some(text("url"));
    assert!(same_application(&app, &expected));
}

#[test]
fn desktop_application() {
    let app = Application::desktop(text("desk"), colors(), commands(), 9);
    let mut expected = Application::new(&text("APPLICATION_NAME_DESKTOP"), &text("desk"));
    expected.categoryColors = Some(colors());
    expected.commands = Some(commands());
    expected.databaseId = Some(text("desk"));
    expected.version = Some(9);
    assert!(same_application(&app, &expected));
}

#[test]
fn update_takes_over_every_field() {
    let mut app = Application::custom(text("Game"), text("abc"), text("exe"), text("bmp"));
    let other = Application::installed(
        text("Other"),
        text("xyz"),
        text("exe2"),
        text("folder"),
        colors(),
        commands(),
        text("top"),
        text("url"),
        4,
    );
    app.update(other.clone());
    assert!(same_application(&app, &other));
}

#[test]
fn clone_keeps_every_field() {
    let app = Application::installed(
        text("Other"),
        text("xyz"),
        text("exe2"),
        text("folder"),
        colors(),
        commands(),
        text("top"),
        text("url"),
        4,
    );
    assert!(same_application(&app.clone(), &app));
    let first = profile("p", "a", "n", Some(false));
    assert!(same_profile(&first.clone(), &first));
    let stored = StoredKeybind {
        input: text("q"),
        output: text("e"),
        virtual_input: 0x51,
        virtual_output: 0x45,
    };
    assert_eq!(stored.clone(), stored);
    assert_eq!(stored.clone().virtual_output, 0x45);
}

#[test]
fn applications_are_equal_by_id() {
    let a = Application::custom(text("Game"), text("abc"), text("exe"), text("bmp"));
    let b = Application::new(&text("Other"), &text("abc"));
    let c = Application::custom(text("Game"), text("abd"), text("exe"), text("bmp"));
    assert!(a == b);
    assert!(a != c);
}

#[test]
fn profiles_are_equal_by_id() {
    assert!(profile("p", "a", "n", None) == profile("p", "b", "m", Some(true)));
    assert!(profile("p", "a", "n", None) != profile("q", "a", "n", None));
}

#[test]
fn default_profile() {
    let first = Profile::default(&text("abc"));
    assert_eq!(first.activeForApplication, Some(true));
    assert_eq!(first.applicationId, "abc");
    assert_eq!(first.id, "abc");
    assert_eq!(first.name, "PROFILE_NAME_DEFAULT");
    assert!(first.assignments.is_empty());
}

#[test]
fn index_of_the_first_application_with_an_id() {
    let apps = vec![
        Application::new(&text("a"), &text("1")),
        Application::new(&text("b"), &text("2")),
        Application::new(&text("c"), &text("2")),
    ];
    assert_eq!(application_index(&apps, &text("1")), Some(0));
    assert_eq!(application_index(&apps, &text("2")), Some(1));
    assert_eq!(application_index(&apps, &text("3")), None);
    assert_eq!(application_index(&Vec::new(), &text("1")), None);
    assert_eq!(clone_applications(&apps).len(), 3);
    assert!(same_application(&clone_applications(&apps)[2], &apps[2]));
}

#[test]
fn index_of_the_first_profile_with_an_id() {
    let profiles = vec![
        profile("p", "a", "n", None),
        profile("q", "a", "n", None),
        profile("q", "b", "m", None),
    ];
    assert_eq!(profile_index(&profiles, &text("p")), Some(0));
    assert_eq!(profile_index(&profiles, &text("q")), Some(1));
    assert_eq!(profile_index(&profiles, &text("r")), None);
    assert!(same_profile(&clone_profiles(&profiles)[2], &profiles[2]));
}

#[test]
fn profiles_of_and_not_of_an_application() {
    let profiles = vec![
        profile("p", "a", "n", None),
        profile("q", "b", "n", None),
        profile("r", "a", "m", None),
    ];
    let of = profiles_by_application(&profiles, &text("a"), true);
    assert_eq!(of.len(), 2);
    assert!(same_profile(&of[0], &profiles[0]));
    assert!(same_profile(&of[1], &profiles[2]));
    let not_of = profiles_by_application(&profiles, &text("a"), false);
    assert_eq!(not_of.len(), 1);
    assert!(same_profile(&not_of[0], &profiles[1]));
    assert!(profiles_by_application(&profiles, &text("c"), true).is_empty());
    assert_eq!(profiles_by_application(&profiles, &text("c"), false).len(), 3);
}

#[test]
fn application_with_a_poster_is_listed_as_installed() {
    let app = Application::custom(text("Game"), text("abc"), text("exe"), text("bmp"));
    let model: ApplicationModel = app.as_component();
    assert_eq!(
        model,
        ApplicationModel {
            executable: text("exe"),
            id: text("abc"),
            image_path: text("bmp"),
            name: text("Game"),
            kind: ApplicationType::Installed,
            display_name: text(""),
        }
    );
}

#[test]
fn application_with_a_poster_address_is_listed_under_it() {
    let mut app = Application::new(&text("Game"), &text("abc"));
    app.posterUrl = Some(text("https://x/y.png"));
    let model: ApplicationModel = app.as_component();
    assert_eq!(model.kind, ApplicationType::Installed);
    assert_eq!(model.image_path, "https://x/y.png");
    assert_eq!(model.executable, "");
    assert_eq!(model.display_name, "");
    app.posterPath = Some(text("bmp"));
    let model: ApplicationModel = app.as_component();
    assert_eq!(model.image_path, "bmp");
}

#[test]
fn application_without_a_poster_is_listed_as_the_desktop() {
    let app = Application::desktop(text("desk"), Vec::new(), Vec::new(), 1);
    let model: ApplicationModel = app.as_component();
    assert_eq!(
        model,
        ApplicationModel {
            executable: text(""),
            id: text("desk"),
            image_path: text(""),
            name: text("APPLICATION_NAME_DESKTOP"),
            kind: ApplicationType::Desktop,
            display_name: text("Desktop"),
        }
    );
}

#[test]
fn profiles_are_listed_under_their_display_name() {
    let first: ProfileModel = profile("p", "a", "PROFILE_NAME_DEFAULT", Some(true)).as_component();
    assert_eq!(
        first,
        ProfileModel {
            id: text("p"),
            name: text("PROFILE_NAME_DEFAULT"),
            active: true,
            application: text("a"),
            display_name: text("Default"),
        }
    );
    let other: ProfileModel = profile("q", "a", "Mine", None).as_component();
    assert_eq!(other.display_name, "Mine");
    assert!(!other.active);
    let idle: ProfileModel = profile("q", "a", "Mine", Some(false)).as_component();
    assert!(!idle.active);
}

#[test]
fn lists_are_listed_item_by_item() {
    let apps = vec![
        Application::desktop(text("desk"), Vec::new(), Vec::new(), 1),
        Application::custom(text("Game"), text("abc"), text("exe"), text("bmp")),
    ];
    let models: Vec<ApplicationModel> = apps.as_component();
    assert_eq!(models.len(), 2);
    let one: ApplicationModel = apps[1].as_component();
    assert_eq!(models[1], one);
    let profiles = vec![profile("p", "a", "n", None), profile("q", "a", "m", Some(true))];
    let models: Vec<ProfileModel> = profiles.as_component();
    assert_eq!(models.len(), 2);
    assert_eq!(models[1].id, "q");
    assert!(models[1].active);
    let rules = vec![StoredKeybind {
        input: text("q"),
        output: text("e"),
        virtual_input: 0x51,
        virtual_output: 0x45,
    }];
    let models: Vec<KeybindModel> = rules.as_component();
    assert_eq!(
        models,
        vec![KeybindModel { input: text("q"), output: text("e"), vk_input: 0x51, vk_output: 0x45 }]
    );
    let one: KeybindModel = rules[0].as_component();
    assert_eq!(one, models[0]);
}

#[test]
fn poster_name_is_the_last_segment() {
    assert_eq!(poster_name("https://host/images/banner.png"), "banner.png");
    assert_eq!(poster_name("banner.png"), "banner.png");
    assert_eq!(poster_name("https://host/images/"), "");
    assert_eq!(poster_name(""), "");
    assert_eq!(poster_name("/"), "");
    assert_eq!(poster_name("a/b"), "b");
    assert_eq!(poster_name("a/ü/ö.png"), "ö.png");
}
