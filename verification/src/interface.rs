//! The state of the editor's window: what it shows, and how it changes when
//! applications, bindings or processes are loaded into it.

use vstd::prelude::*;
use crate::objects::{
    can_be_shown, game_views, keybind_views, tile_of, Game, GameType, GameView, Keybind, Process,
};
use crate::seqs::{
    first_match, is_first_match, lemma_filter_empty, lemma_filter_step, lemma_first_match_found,
    lemma_first_match_none,
};
use crate::settings::applications::is_copy_of_first;
use crate::settings::keymapper::{is_row_of, keybind_of_row, KeymapperRow};
use crate::settings::LogitechSettings;
use crate::text::{is_prefix, starts_with};
use crate::types::{application_views, has_id, Application, ApplicationView};

verus! {

/// The id of the entry "Open" in the menu of the tray icon.
pub const OPEN_MENU_ID: &'static str = "1000";

/// A button of the mouse.
#[derive(Clone, Copy, Debug, PartialEq, Eq, Structural)]
pub enum MouseButton {
    Left,
    Right,
    Middle,
}

/// Whether a button went down or came up.
#[derive(Clone, Copy, Debug, PartialEq, Eq, Structural)]
pub enum MouseButtonState {
    Up,
    Down,
}

/// What follows from the events of the tray icon.
#[derive(Clone, Copy, Debug, PartialEq, Eq, Structural)]
pub enum TrayAction {
    /// Nothing.
    Stay,
    /// Show the window.
    Show,
    /// End the program.
    Quit,
}

/// The window of the editor.
#[derive(Debug)]
pub struct AppWindow {
    pub visible: bool,
    pub active_application: Game,
    pub active_application_name: String,
    pub active_application_image: String,
    pub active_application_executable: String,
    pub active_application_type: GameType,
    pub applications: Vec<Game>,
    pub keybinds: Vec<Keybind>,
    pub processes: Vec<Process>,
    pub process_query: String,
}

/// The tiles of `applications` as the window arranges them: the desktop in
/// front, the others behind in their order.
pub open spec fn arranged(applications: Seq<ApplicationView>) -> Seq<GameView>
    decreases applications.len(),
{
    if applications.len() == 0 {
        Seq::empty()
    } else {
        let earlier = arranged(applications.drop_last());
        let tile = tile_of(applications.last());
        if tile.kind == GameType::Desktop {
            seq![tile] + earlier
        } else {
            earlier.push(tile)
        }
    }
}

/// True when every application holds what its tile shows.
pub open spec fn all_shown(applications: Seq<ApplicationView>) -> bool {
    forall|i: int| 0 <= i < applications.len() ==> can_be_shown(#[trigger] applications[i])
}

/// The test "has the number `index`".
pub open spec fn has_index(index: i32) -> spec_fn(Keybind) -> bool {
    |bind: Keybind| bind.index == index
}

/// True when the program at `executable` belongs to one of `applications`:
/// its path begins with the path of an application that has one.
pub open spec fn is_added(applications: Seq<Game>, executable: Seq<char>) -> bool {
    exists|i: int|
        0 <= i < applications.len() && (#[trigger] applications[i]).executable@.len() > 0
            && is_prefix(applications[i].executable@, executable)
}

/// The test "can be offered": its name begins with `query`, and it belongs
/// to none of `applications`.
pub open spec fn is_offered(query: Seq<char>, applications: Seq<Game>) -> spec_fn(Process) -> bool {
    |process: Process|
        is_prefix(query, process.name@) && !is_added(applications, process.executable@)
}

/// What follows from the events of the tray icon: any menu entry but "Open"
/// ends the program; "Open" shows the window, and so does a release of the
/// left button on the icon.
pub open spec fn tray_action(menu: Option<Seq<char>>, click: Option<(MouseButton, MouseButtonState)>) -> TrayAction {
    match menu {
        Some(id) if id != OPEN_MENU_ID@ => TrayAction::Quit,
        Some(_) => TrayAction::Show,
        None => if click == Some((MouseButton::Left, MouseButtonState::Up)) {
            TrayAction::Show
        } else {
            TrayAction::Stay
        },
    }
}

impl AppWindow {
    /// A hidden window that shows the desktop and nothing else.
    pub fn new() -> (window: AppWindow)
        ensures
            !window.visible,
            window.active_application@ == crate::objects::desktop_tile(),
            window.active_application_name@ == Seq::<char>::empty(),
            window.active_application_image@ == Seq::<char>::empty(),
            window.active_application_executable@ == Seq::<char>::empty(),
            window.active_application_type == GameType::Desktop,
            window.applications@.len() == 0,
            window.keybinds@.len() == 0,
            window.processes@.len() == 0,
            window.process_query@ == Seq::<char>::empty(),
    {
        AppWindow {
            visible: false,
            active_application: Game::desktop(),
            active_application_name: String::new(),
            active_application_image: String::new(),
            active_application_executable: String::new(),
            active_application_type: GameType::Desktop,
            applications: Vec::new(),
            keybinds: Vec::new(),
            processes: Vec::new(),
            process_query: String::new(),
        }
    }

    /// Makes `game` the application that the window works on.
    pub fn set_application(&mut self, game: Game)
        ensures
            *final(self) == (AppWindow {
                active_application: game,
                active_application_name: game.name,
                active_application_image: game.image_path,
                active_application_executable: game.executable,
                active_application_type: game.kind,
                ..*old(self)
            }),
    {
        self.active_application_name = game.name.clone();
        self.active_application_image = game.image_path.clone();
        self.active_application_executable = game.executable.clone();
        self.active_application_type = game.kind;
        self.active_application = game;
    }

    /// The application of the settings that the window works on.
    pub fn selected_application(&self, settings: &LogitechSettings) -> (found: Option<Application>)
        ensures
            is_copy_of_first(
                application_views(settings@.applications),
                has_id(self.active_application.id@),
                found,
            ),
    {
        settings.app_from_game(self.active_application.clone())
    }

    /// Shows the applications of the settings: the desktop in front, the
    /// others behind in their order.
    pub fn load_applications(&mut self, settings: &LogitechSettings)
        requires
            all_shown(application_views(settings@.applications)),
        ensures
            game_views(final(self).applications@) == arranged(
                application_views(settings@.applications),
            ),
            *final(self) == (AppWindow { applications: final(self).applications, ..*old(self) }),
    {
        let applications = settings.get_applications();
        let ghost all = application_views(settings@.applications);
        let mut games: Vec<Game> = Vec::new();
        proof {
            assert(game_views(games@) =~= arranged(all.take(0)));
        }
        let mut i: usize = 0;
        while i < applications.len()
            invariant
                i <= applications.len(),
                all == application_views(settings@.applications),
                all == application_views(applications@),
                forall|j: int| 0 <= j < all.len() ==> can_be_shown(#[trigger] all[j]),
                game_views(games@) == arranged(all.take(i as int)),
            decreases applications.len() - i,
        {
            proof {
                assert(all.take(i + 1).drop_last() == all.take(i as int));
                assert(all.take(i + 1).last() == all[i as int]);
                assert(applications@[i as int]@ == all[i as int]);
            }
            let component = Game::from_settings(applications[i].clone());
            let ghost before = games@;
            if component.kind == GameType::Desktop {
                games.insert(0, component);
                proof {
                    assert(game_views(games@) =~= seq![component@] + game_views(before));
                }
            } else {
                games.push(component);
                proof {
                    assert(game_views(games@) =~= game_views(before).push(component@));
                }
            }
            i += 1;
        }
        proof {
            assert(all.take(applications.len() as int) == all);
        }
        self.applications = games;
    }

    /// Shows `keybind` in the place of the first binding with its number,
    /// or behind all bindings where none has it.
    pub fn set_keymap(&mut self, keybind: Keybind)
        ensures
            final(self).keybinds@ == match first_match(
                old(self).keybinds@,
                has_index(keybind.index),
            ) {
                Some(at) => old(self).keybinds@.update(at, keybind),
                None => old(self).keybinds@.push(keybind),
            },
            *final(self) == (AppWindow { keybinds: final(self).keybinds, ..*old(self) }),
    {
        let ghost pred = has_index(keybind.index);
        let mut i: usize = 0;
        while i < self.keybinds.len()
            invariant
                i <= self.keybinds.len(),
                *self == *old(self),
                pred == has_index(keybind.index),
                forall|j: int| 0 <= j < i ==> !pred(#[trigger] self.keybinds@[j]),
            decreases self.keybinds.len() - i,
        {
            if self.keybinds[i].index == keybind.index {
                proof {
                    assert(is_first_match(self.keybinds@, pred, i as int));
                    lemma_first_match_found(self.keybinds@, pred, i as int);
                }
                self.keybinds.set(i, keybind);
                return ;
            }
            i += 1;
        }
        proof {
            lemma_first_match_none(self.keybinds@, pred);
        }
        self.keybinds.push(keybind);
    }

    /// Shows the bindings that the settings hold for `application`.
    pub fn load_keymaps(&mut self, settings: &LogitechSettings, application: &Game)
        ensures
            keybind_views(final(self).keybinds@) == settings@.keymapper.filter(
                is_row_of(application.executable@),
            ).map_values(|row: KeymapperRow| keybind_of_row(row)),
            *final(self) == (AppWindow { keybinds: final(self).keybinds, ..*old(self) }),
    {
        self.keybinds = settings.get_keybinds(&application.executable);
    }

    /// Tells whether the program at `executable` belongs to one of the
    /// applications that the window shows.
    pub fn is_added(&self, executable: &String) -> (added: bool)
        ensures
            added == is_added(self.applications@, executable@),
    {
        let mut i: usize = 0;
        while i < self.applications.len()
            invariant
                i <= self.applications.len(),
                forall|j: int|
                    0 <= j < i ==> !((#[trigger] self.applications@[j]).executable@.len() > 0
                        && is_prefix(self.applications@[j].executable@, executable@)),
            decreases self.applications.len() - i,
        {
            let application = &self.applications[i];
            if !application.executable.as_str().is_empty() && starts_with(
                executable.as_str(),
                application.executable.as_str(),
            ) {
                return true;
            }
            i += 1;
        }
        false
    }

    /// Offers the programs in front that can be added. A hidden window
    /// keeps its list; so does a window whose list is as long as the new
    /// one. Otherwise the list becomes those of `foreground` whose name
    /// begins with the query and which belong to no application shown.
    pub fn refresh_processes(&mut self, foreground: &Vec<Process>)
        ensures
            final(self).processes@ == if !old(self).visible || foreground@.filter(
                is_offered(old(self).process_query@, old(self).applications@),
            ).len() == old(self).processes@.len() {
                old(self).processes@
            } else {
                foreground@.filter(is_offered(old(self).process_query@, old(self).applications@))
            },
            *final(self) == (AppWindow { processes: final(self).processes, ..*old(self) }),
    {
        if !self.visible {
            return ;
        }
        let ghost pred = is_offered(self.process_query@, self.applications@);
        let mut processes: Vec<Process> = Vec::new();
        proof {
            lemma_filter_empty(foreground@.take(0), pred);
        }
        let mut i: usize = 0;
        while i < foreground.len()
            invariant
                i <= foreground.len(),
                *self == *old(self),
                pred == is_offered(self.process_query@, self.applications@),
                processes@ == foreground@.take(i as int).filter(pred),
            decreases foreground.len() - i,
        {
            proof {
                lemma_filter_step(foreground@, pred, i as int);
            }
            let process = &foreground[i];
            if starts_with(process.name.as_str(), self.process_query.as_str()) && !self.is_added(
                &process.executable,
            ) {
                processes.push(process.clone());
            }
            i += 1;
        }
        proof {
            assert(foreground@.take(foreground.len() as int) == foreground@);
        }
        if self.processes.len() == processes.len() {
            return ;
        }
        self.processes = processes;
    }

    /// Decides what follows from the events of the tray icon: `menu` is the
    /// id of the menu entry that was chosen, `click` the button on the icon
    /// and what it did.
    pub fn handle_trayicon(menu: Option<&String>, click: Option<(MouseButton, MouseButtonState)>) -> (action: TrayAction)
        ensures
            action == tray_action(
                match menu {
                    Some(id) => Some(id@),
                    None => None,
                },
                click,
            ),
    {
        match menu {
            Some(id) => {
                if *id == String::from_str(OPEN_MENU_ID) {
                    TrayAction::Show
                } else {
                    TrayAction::Quit
                }
            },
            None => match click {
                Some((MouseButton::Left, MouseButtonState::Up)) => TrayAction::Show,
                _ => TrayAction::Stay,
            },
        }
    }
}

} // verus!
