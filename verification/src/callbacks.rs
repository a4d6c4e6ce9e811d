//! What the editor does when the user acts: each function changes the
//! window and the settings in memory, and says what is left to be stored.

use vstd::prelude::*;
use crate::interface::{all_shown, arranged, has_index, AppWindow};
use crate::objects::{
    can_be_shown, desktop_tile, game_views, keybind_of_vkeys, keybind_views, tile_of, Game,
    GameType, GameView, Keybind, KeybindView,
};
use crate::remapper::keyboard::KeyboardKey;
use crate::seqs::first_match;
use crate::settings::applications::{
    holds_made_id, is_application_id, lemma_commit_twice, lemma_profiles_under_made_id,
    with_application, with_profile,
};
use crate::settings::keymapper::{
    change_views, changes_for, is_other_row, is_row_of, keybind_of_row, KeymapperChange,
    KeymapperChangeView, KeymapperRow,
};
use crate::settings::{Commit, LogitechSettings, SettingsView};
use crate::types::{
    application_views, belongs_elsewhere, default_profile, has_id, is_profile, profile_views,
    Application, ApplicationView,
};

verus! {

/// The side of a binding that a capture fills.
#[derive(Clone, Copy, Debug, PartialEq, Eq, Structural)]
pub enum BindSide {
    /// The key that is sent.
    Pointer,
    /// The key that is pressed.
    Object,
}

/// How an attempt to forget the application at work ended.
#[derive(Debug, PartialEq)]
pub enum ForgetOutcome {
    /// It is no custom application; nothing was done.
    NotCustom,
    /// The settings do not hold it; the window shows what they hold.
    NotFound,
    /// It is gone from the settings; its icon at `image_path` is left to
    /// be removed.
    Forgotten { image_path: String },
}

/// How an edit of the application at work ended.
#[derive(Debug)]
pub enum EditOutcome {
    /// The editor made no change.
    Unchanged,
    /// The settings do not hold the application; the window shows what
    /// they hold.
    NotFound,
    /// The settings hold the application as it was edited.
    Edited(Application),
}

/// True when `after` is `before` with the tiles of `applications` loaded.
pub open spec fn shows(after: AppWindow, before: AppWindow, applications: Seq<ApplicationView>) -> bool {
    &&& game_views(after.applications@) == arranged(applications)
    &&& after == (AppWindow { applications: after.applications, ..before })
}

/// True when `after` is `before` with the tiles of `applications` loaded
/// and with the tile `active` as the application at work.
pub open spec fn shows_active(
    after: AppWindow,
    before: AppWindow,
    applications: Seq<ApplicationView>,
    active: GameView,
) -> bool {
    &&& game_views(after.applications@) == arranged(applications)
    &&& after.active_application@ == active
    &&& after.active_application_name@ == active.name
    &&& after.active_application_image@ == active.image_path
    &&& after.active_application_executable@ == active.executable
    &&& after.active_application_type == active.kind
    &&& after.visible == before.visible
    &&& after.keybinds == before.keybinds
    &&& after.processes == before.processes
    &&& after.process_query == before.process_query
}

/// The binding that a new row of the editor shows: neither side set.
pub open spec fn blank_keybind(index: i32, executable: Seq<char>) -> KeybindView {
    KeybindView {
        index,
        executable,
        object: KeyboardKey::Escape.label(),
        pointer: KeyboardKey::Escape.label(),
        vkey_object: 0,
        vkey_pointer: 0,
    }
}

/// The binding while the editor waits for the key of `side`.
pub open spec fn listening_keybind(keybind: KeybindView, side: BindSide) -> KeybindView {
    match side {
        BindSide::Pointer => KeybindView { pointer: "..."@, vkey_pointer: 0, ..keybind },
        BindSide::Object => KeybindView { object: "..."@, vkey_object: 0, ..keybind },
    }
}

/// The binding with `key` on `side`.
pub open spec fn captured_keybind(keybind: Keybind, side: BindSide, key: KeyboardKey) -> KeybindView {
    match side {
        BindSide::Pointer => keybind_of_vkeys(
            keybind.index,
            key.code() as u64,
            keybind.vkey_object as u64,
            keybind.executable@,
        ),
        BindSide::Object => keybind_of_vkeys(
            keybind.index,
            keybind.vkey_pointer as u64,
            key.code() as u64,
            keybind.executable@,
        ),
    }
}

/// The bindings with `keybind` in the place of the first one that has its
/// number, or behind all where none has it.
pub open spec fn with_keybind(keybinds: Seq<KeybindView>, keybind: KeybindView) -> Seq<KeybindView> {
    match first_match(keybinds, |bind: KeybindView| bind.index == keybind.index) {
        Some(at) => keybinds.update(at, keybind),
        None => keybinds.push(keybind),
    }
}

/// Adds the program at `executable`, whose file is called `name` and whose
/// icon lies at `icon`, as a custom application under a new id, and makes
/// it the application at work. Nothing happens where profiles under the
/// new id are there already. Which id is drawn is left open; with no
/// profile under an id of that shape in the settings the application is
/// added whatever is drawn.
pub fn new_application(
    app: &mut AppWindow,
    settings: &mut LogitechSettings,
    name: String,
    executable: String,
    icon: String,
) -> (added: Option<Application>)
    requires
        all_shown(application_views(old(settings)@.applications)),
    ensures
        !holds_made_id(profile_views(old(settings)@.profiles)) ==> added is Some,
        added is None ==> final(settings)@ == old(settings)@ && *final(app) == *old(app),
        added matches Some(application) ==> {
            &&& is_application_id(application.applicationId@)
            &&& application@ == (ApplicationView {
                name: name@,
                applicationId: application.applicationId@,
                applicationPath: Some(executable@),
                databaseId: None,
                categoryColors: None,
                commands: None,
                version: None,
                isCustom: Some(true),
                posterPath: Some(icon@),
                applicationFolder: None,
                isInstalled: None,
                posterTitlePosition: None,
                posterUrl: None,
            })
            &&& final(settings)@.keymapper == old(settings)@.keymapper
            &&& application_views(final(settings)@.applications) == with_application(
                application_views(old(settings)@.applications),
                first_match(
                    application_views(old(settings)@.applications),
                    has_id(application.applicationId@),
                ),
                application@,
            )
            &&& profile_views(final(settings)@.profiles) == with_profile(
                profile_views(old(settings)@.profiles),
                first_match(
                    profile_views(old(settings)@.profiles),
                    is_profile(application.applicationId@),
                ),
                default_profile(application.applicationId@),
            )
            &&& shows_active(
                *final(app),
                *old(app),
                application_views(final(settings)@.applications),
                tile_of(application@),
            )
        },
{
    let application = settings.new_application(name, executable, icon);
    proof {
        lemma_profiles_under_made_id(
            profile_views(settings@.profiles),
            application.applicationId@,
        );
    }
    match settings.add_application(application) {
        Some(application) => {
            let game = Game::from_settings(application.clone());
            let ghost once = application_views(settings@.applications);
            settings.commit(application.clone());
            proof {
                lemma_commit_twice(
                    application_views(old(settings)@.applications),
                    application@,
                );
                crate::seqs::lemma_first_match_is_first(
                    application_views(old(settings)@.applications),
                    has_id(application.applicationId@),
                );
                assert(all_shown(application_views(settings@.applications)));
            }
            app.load_applications(settings);
            app.set_application(game);
            Some(application)
        },
        None => None,
    }
}

/// Edits the application at work. `ui_edit` makes of its tile the tile as
/// the user wants it, or nothing where the user wants no change;
/// `settings_edit` carries that tile over to the application of the
/// settings. The edited application is put into the settings and becomes
/// the application at work.
pub fn property_edit<U, S>(
    app: &mut AppWindow,
    settings: &mut LogitechSettings,
    ui_edit: U,
    settings_edit: S,
) -> (outcome: EditOutcome) where
    U: FnOnce(&AppWindow, Game) -> Option<Game>,
    S: FnOnce(Application, Game) -> Application,

    requires
        all_shown(application_views(old(settings)@.applications)),
        call_requires(ui_edit, (old(app), old(app).active_application)),
        forall|application: Application, active: Game|
            call_requires(settings_edit, (application, active)),
        forall|application: Application, active: Game, edited: Application|
            call_ensures(settings_edit, (application, active), edited) ==> can_be_shown(
                edited@,
            ),
    ensures
        match outcome {
            EditOutcome::Unchanged => {
                &&& call_ensures(ui_edit, (old(app), old(app).active_application), None)
                &&& final(settings)@ == old(settings)@
                &&& *final(app) == *old(app)
            },
            EditOutcome::NotFound => exists|active: Game|
                {
                    &&& #[trigger] call_ensures(
                        ui_edit,
                        (old(app), old(app).active_application),
                        Some(active),
                    )
                    &&& first_match(
                        application_views(old(settings)@.applications),
                        has_id(active.id@),
                    ) is None
                    &&& final(settings)@ == old(settings)@
                    &&& shows(
                        *final(app),
                        *old(app),
                        application_views(old(settings)@.applications),
                    )
                },
            EditOutcome::Edited(edited) => exists|active: Game, found: Application|
                {
                    &&& call_ensures(
                        ui_edit,
                        (old(app), old(app).active_application),
                        Some(active),
                    )
                    &&& first_match(
                        application_views(old(settings)@.applications),
                        has_id(active.id@),
                    ) matches Some(at) && found@ == application_views(
                        old(settings)@.applications,
                    )[at]
                    &&& #[trigger] call_ensures(settings_edit, (found, active), edited)
                    &&& final(settings)@.profiles == old(settings)@.profiles
                    &&& final(settings)@.keymapper == old(settings)@.keymapper
                    &&& application_views(final(settings)@.applications) == with_application(
                        application_views(old(settings)@.applications),
                        first_match(
                            application_views(old(settings)@.applications),
                            has_id(edited.applicationId@),
                        ),
                        edited@,
                    )
                    &&& shows_active(
                        *final(app),
                        *old(app),
                        application_views(final(settings)@.applications),
                        tile_of(edited@),
                    )
                },
        },
{
    let tile = app.active_application.clone();
    match ui_edit(&*app, tile) {
        Some(active) => {
            let found = match settings.app_from_game(active.clone()) {
                Some(found) => found,
                None => {
                    app.load_applications(settings);
                    return EditOutcome::NotFound;
                },
            };
            let edited = settings_edit(found, active);
            let shown = edited.clone();
            settings.commit(shown);
            proof {
                crate::seqs::lemma_first_match_is_first(
                    application_views(old(settings)@.applications),
                    has_id(edited.applicationId@),
                );
                assert(all_shown(application_views(settings@.applications)));
            }
            app.load_applications(settings);
            app.set_application(Game::from_settings(edited.clone()));
            EditOutcome::Edited(edited)
        },
        None => EditOutcome::Unchanged,
    }
}

/// Forgets the application at work, if it is a custom one: it leaves the
/// settings with all its profiles, and the desktop becomes the application
/// at work.
pub fn forget_application(app: &mut AppWindow, settings: &mut LogitechSettings) -> (outcome:
    ForgetOutcome)
    requires
        all_shown(application_views(old(settings)@.applications)),
    ensures
        old(app).active_application.kind != GameType::Custom ==> {
            &&& outcome is NotCustom
            &&& final(settings)@ == old(settings)@
            &&& *final(app) == *old(app)
        },
        old(app).active_application.kind == GameType::Custom ==> match first_match(
            application_views(old(settings)@.applications),
            has_id(old(app).active_application.id@),
        ) {
            None => {
                &&& outcome is NotFound
                &&& final(settings)@ == old(settings)@
                &&& shows(*final(app), *old(app), application_views(old(settings)@.applications))
            },
            Some(at) => {
                &&& outcome matches ForgetOutcome::Forgotten { image_path }
                &&& image_path@ == old(app).active_application.image_path@
                &&& final(settings)@.keymapper == old(settings)@.keymapper
                &&& application_views(final(settings)@.applications) == application_views(
                    old(settings)@.applications,
                ).remove(at)
                &&& profile_views(final(settings)@.profiles) == profile_views(
                    old(settings)@.profiles,
                ).filter(belongs_elsewhere(old(app).active_application.id@))
                &&& shows_active(
                    *final(app),
                    *old(app),
                    application_views(final(settings)@.applications),
                    desktop_tile(),
                )
            },
        },
{
    let active = app.active_application.clone();
    if active.kind != GameType::Custom {
        return ForgetOutcome::NotCustom;
    }
    let image_path = active.image_path.clone();
    let application = match settings.app_from_game(active) {
        Some(found) => found,
        None => {
            app.load_applications(settings);
            return ForgetOutcome::NotFound;
        },
    };
    let profiles = settings.remove_profiles(&application);
    let applications = settings.remove_application(application);
    match applications {
        Some(applications) => {
            settings.commit(applications);
            settings.commit(profiles);
            app.load_applications(settings);
            app.set_application(Game::desktop());
            ForgetOutcome::Forgotten { image_path }
        },
        None => ForgetOutcome::NotFound,
    }
}

/// Adds a row to the bindings that the window shows: a binding of the
/// application at work with neither side set, numbered one above the count
/// of the rows.
pub fn new_key(app: &mut AppWindow)
    requires
        old(app).keybinds@.len() < i32::MAX,
    ensures
        keybind_views(final(app).keybinds@) == keybind_views(old(app).keybinds@).push(
            blank_keybind(
                (old(app).keybinds@.len() + 1) as i32,
                old(app).active_application.executable@,
            ),
        ),
        *final(app) == (AppWindow { keybinds: final(app).keybinds, ..*old(app) }),
{
    let index: i32 = app.keybinds.len() as i32 + 1;
    let row = Keybind::new(index, app.active_application.executable.clone());
    let ghost before = app.keybinds@;
    app.keybinds.push(row);
    assert(keybind_views(before.push(row)) =~= keybind_views(before).push(row@));
}

/// Starts the capture of a key for `side` of `keybind`: the window shows
/// the binding as waiting for that key.
pub fn set_key(app: &mut AppWindow, keybind: &Keybind, side: BindSide)
    ensures
        keybind_views(final(app).keybinds@) == with_keybind(
            keybind_views(old(app).keybinds@),
            listening_keybind(keybind@, side),
        ),
        *final(app) == (AppWindow { keybinds: final(app).keybinds, ..*old(app) }),
{
    let waiting = match side {
        BindSide::Pointer => Keybind::pointer_listening(keybind.clone()),
        BindSide::Object => Keybind::object_listening(keybind.clone()),
    };
    proof {
        lemma_with_keybind(old(app).keybinds@, waiting);
    }
    app.set_keymap(waiting);
}

/// Ends the capture of a key for `side` of `keybind`. Without a key the
/// window shows the binding as it was. With a key the window shows the
/// binding with that key, and, unless the key is `Escape`, the bindings of
/// the window with the new one behind them are to be stored for the
/// application at work: the changes that do so are returned.
pub fn key_captured(
    app: &mut AppWindow,
    settings: &LogitechSettings,
    keybind: Keybind,
    side: BindSide,
    key: Option<KeyboardKey>,
) -> (changes: Vec<KeymapperChange>)
    ensures
        *final(app) == (AppWindow { keybinds: final(app).keybinds, ..*old(app) }),
        match key {
            None => {
                &&& changes@.len() == 0
                &&& keybind_views(final(app).keybinds@) == with_keybind(
                    keybind_views(old(app).keybinds@),
                    keybind@,
                )
            },
            Some(key) => {
                &&& keybind_views(final(app).keybinds@) == with_keybind(
                    keybind_views(old(app).keybinds@),
                    captured_keybind(keybind, side, key),
                )
                &&& key == KeyboardKey::Escape ==> changes@.len() == 0
                &&& key != KeyboardKey::Escape ==> exists|stored: Seq<Keybind>|
                    {
                        &&& keybind_views(stored) == keybind_views(old(app).keybinds@).push(
                            captured_keybind(keybind, side, key),
                        )
                        &&& #[trigger] change_views(changes@) == changes_for(
                            old(app).active_application_executable@,
                            stored,
                        )
                    }
            },
        },
{
    match key {
        None => {
            proof {
                lemma_with_keybind(old(app).keybinds@, keybind);
            }
            app.set_keymap(keybind);
            Vec::new()
        },
        Some(key) => {
            let updated = match side {
                BindSide::Pointer => keybind.update_pointer(u64::from(&key)),
                BindSide::Object => keybind.update_object(u64::from(&key)),
            };
            let changes = match key {
                KeyboardKey::Escape => Vec::new(),
                _ => {
                    let mut keybinds = app.keybinds.clone();
                    assert(keybinds@ =~= app.keybinds@);
                    let copy = updated.clone();
                    keybinds.push(copy);
                    let ghost stored = keybinds@;
                    let changes = settings.set_keybinds(
                        app.active_application_executable.clone(),
                        keybinds,
                    );
                    proof {
                        assert(keybind_views(stored) =~= keybind_views(old(app).keybinds@).push(
                            updated@,
                        ));
                        assert(change_views(changes@) == changes_for(
                            old(app).active_application_executable@,
                            stored,
                        ));
                    }
                    changes
                },
            };
            proof {
                lemma_with_keybind(old(app).keybinds@, updated);
            }
            app.set_keymap(updated);
            changes
        },
    }
}

/// Removes the row of `keybind` and shows the bindings that are left for
/// the application at work. The change that removes the row from the table
/// is returned.
pub fn delete_key(app: &mut AppWindow, settings: &mut LogitechSettings, keybind: Keybind) -> (change:
    KeymapperChange)
    ensures
        change@ == (KeymapperChangeView::Remove { idx: keybind.index, exe: keybind.executable@ }),
        final(settings)@ == (SettingsView {
            keymapper: old(settings)@.keymapper.filter(
                is_other_row(keybind.index, keybind.executable@),
            ),
            ..old(settings)@
        }),
        keybind_views(final(app).keybinds@) == final(settings)@.keymapper.filter(
            is_row_of(old(app).active_application.executable@),
        ).map_values(|row: KeymapperRow| keybind_of_row(row)),
        *final(app) == (AppWindow { keybinds: final(app).keybinds, ..*old(app) }),
{
    let change = settings.remove_keybind(&keybind);
    let active = app.active_application.clone();
    app.load_keymaps(settings, &active);
    change
}

/// Showing a binding puts it where the first binding with its number was,
/// by the bindings themselves and by what they hold alike.
pub proof fn lemma_with_keybind(keybinds: Seq<Keybind>, keybind: Keybind)
    ensures
        keybind_views(
            match first_match(keybinds, has_index(keybind.index)) {
                Some(at) => keybinds.update(at, keybind),
                None => keybinds.push(keybind),
            },
        ) == with_keybind(keybind_views(keybinds), keybind@),
{
    let views = keybind_views(keybinds);
    let pred = has_index(keybind.index);
    let view_pred = |bind: KeybindView| bind.index == keybind@.index;
    crate::seqs::lemma_first_match_is_first(keybinds, pred);
    match first_match(keybinds, pred) {
        Some(at) => {
            assert(crate::seqs::is_first_match(views, view_pred, at));
            crate::seqs::lemma_first_match_found(views, view_pred, at);
            assert(keybind_views(keybinds.update(at, keybind)) =~= views.update(at, keybind@));
        },
        None => {
            crate::seqs::lemma_first_match_none(views, view_pred);
            assert(keybind_views(keybinds.push(keybind)) =~= views.push(keybind@));
        },
    }
}

} // verus!
