//! The records that the editor shows: a key binding, an application tile and
//! a running process.

use vstd::prelude::*;
use crate::remapper::keyboard::{key_of_wide_code, KeyboardKey};
use crate::seqs::{lemma_filter_empty, lemma_filter_step};
use crate::types::{Application, ApplicationView};
use crate::utils::APPLICATION_NAME_DESKTOP;

verus! {

/// One remap rule of one application, as the editor holds it.
///
/// `object` is the key that is pressed and `pointer` the key that is sent in
/// its place; each is kept as its label and as its raw code. A raw code of 0
/// says that the side is not set yet.
#[derive(Debug, PartialEq)]
pub struct Keybind {
    pub index: i32,
    pub executable: String,
    pub object: String,
    pub pointer: String,
    pub vkey_object: i32,
    pub vkey_pointer: i32,
}

/// What a binding holds, with its texts as sequences.
pub struct KeybindView {
    pub index: i32,
    pub executable: Seq<char>,
    pub object: Seq<char>,
    pub pointer: Seq<char>,
    pub vkey_object: i32,
    pub vkey_pointer: i32,
}

impl View for Keybind {
    type V = KeybindView;

    open spec fn view(&self) -> KeybindView {
        KeybindView {
            index: self.index,
            executable: self.executable@,
            object: self.object@,
            pointer: self.pointer@,
            vkey_object: self.vkey_object,
            vkey_pointer: self.vkey_pointer,
        }
    }
}

/// What the bindings hold, one view for each.
pub open spec fn keybind_views(keybinds: Seq<Keybind>) -> Seq<KeybindView> {
    keybinds.map_values(|bind: Keybind| bind@)
}

/// The binding made of two raw codes, each side labelled with the key that
/// its code stands for.
pub open spec fn keybind_of_vkeys(
    index: i32,
    pointer: u64,
    object: u64,
    executable: Seq<char>,
) -> KeybindView {
    KeybindView {
        index,
        executable,
        object: key_of_wide_code(object).label(),
        pointer: key_of_wide_code(pointer).label(),
        vkey_object: object as i32,
        vkey_pointer: pointer as i32,
    }
}

impl Clone for Keybind {
    fn clone(&self) -> (copy: Self)
        ensures
            copy == *self,
    {
        Keybind {
            index: self.index,
            executable: self.executable.clone(),
            object: self.object.clone(),
            pointer: self.pointer.clone(),
            vkey_object: self.vkey_object,
            vkey_pointer: self.vkey_pointer,
        }
    }
}

/// The key that a stored raw code stands for: a negative code is no key.
pub open spec fn key_of_stored_code(code: i32) -> KeyboardKey {
    if code >= 0 {
        key_of_wide_code(code as u64)
    } else {
        KeyboardKey::Escape
    }
}

impl Keybind {
    /// True when neither raw code is 0.
    pub open spec fn is_set(self) -> bool {
        self.vkey_pointer != 0 && self.vkey_object != 0
    }

    /// True when the low 16 bits of neither raw code are 0: only such a
    /// binding is installed.
    pub open spec fn is_live(self) -> bool {
        self.source() != 0 && self.destination() != 0
    }

    /// The code that triggers the rule: the low 16 bits of `vkey_object`.
    pub open spec fn source(self) -> u16 {
        self.vkey_object as u16
    }

    /// The code that the rule sends: the low 16 bits of `vkey_pointer`.
    pub open spec fn destination(self) -> u16 {
        self.vkey_pointer as u16
    }

    /// A rule with neither side set.
    pub fn new(index: i32, executable: String) -> (bind: Keybind)
        ensures
            bind.index == index,
            bind.executable == executable,
            bind.object@ == KeyboardKey::Escape.label(),
            bind.pointer@ == KeyboardKey::Escape.label(),
            bind.vkey_object == 0,
            bind.vkey_pointer == 0,
    {
        Keybind {
            index,
            executable,
            object: String::from_str("NONE"),
            pointer: String::from_str("NONE"),
            vkey_object: 0,
            vkey_pointer: 0,
        }
    }

    /// A rule from its two raw codes, each labelled with the key it stands for.
    pub fn from_vkeys(index: i32, pointer: u64, object: u64, executable: String) -> (bind: Keybind)
        ensures
            bind@ == keybind_of_vkeys(index, pointer, object, executable@),
            bind.executable == executable,
    {
        Keybind {
            index,
            pointer: KeyboardKey::from(pointer).to_string(),
            object: KeyboardKey::from(object).to_string(),
            executable,
            vkey_pointer: #[verifier::truncate] (pointer as i32),
            vkey_object: #[verifier::truncate] (object as i32),
        }
    }

    /// The rule while the editor waits for its sent key.
    pub fn pointer_listening(other: Keybind) -> (bind: Keybind)
        ensures
            bind.index == other.index,
            bind.executable == other.executable,
            bind.object == other.object,
            bind.pointer@ == "..."@,
            bind.vkey_object == other.vkey_object,
            bind.vkey_pointer == 0,
    {
        Keybind {
            index: other.index,
            executable: other.executable,
            object: other.object,
            pointer: String::from_str("..."),
            vkey_object: other.vkey_object,
            vkey_pointer: 0,
        }
    }

    /// The rule while the editor waits for its pressed key.
    pub fn object_listening(other: Keybind) -> (bind: Keybind)
        ensures
            bind.index == other.index,
            bind.executable == other.executable,
            bind.object@ == "..."@,
            bind.pointer == other.pointer,
            bind.vkey_object == 0,
            bind.vkey_pointer == other.vkey_pointer,
    {
        Keybind {
            index: other.index,
            executable: other.executable,
            object: String::from_str("..."),
            pointer: other.pointer,
            vkey_object: 0,
            vkey_pointer: other.vkey_pointer,
        }
    }

    /// The key that the rule sends.
    pub fn input_pointer(&self) -> (key: KeyboardKey)
        ensures
            key == key_of_stored_code(self.vkey_pointer),
    {
        stored_key(self.vkey_pointer)
    }

    /// The key that triggers the rule.
    pub fn input_object(&self) -> (key: KeyboardKey)
        ensures
            key == key_of_stored_code(self.vkey_object),
    {
        stored_key(self.vkey_object)
    }

    /// The rule with another sent key; the pressed side keeps its code and is
    /// labelled anew.
    pub fn update_pointer(&self, pointer: u64) -> (bind: Keybind)
        ensures
            bind@ == keybind_of_vkeys(
                self.index,
                pointer,
                self.vkey_object as u64,
                self.executable@,
            ),
            bind.vkey_object == self.vkey_object,
            bind.object@ == key_of_stored_code(self.vkey_object).label(),
    {
        let object = self.vkey_object;
        assert(object as u64 as i32 == object) by (bit_vector);
        assert(object < 0 ==> object as u64 > 0xFFFF_FFFFu64) by (bit_vector);
        Keybind::from_vkeys(
            self.index,
            pointer,
            #[verifier::truncate] (self.vkey_object as u64),
            self.executable.clone(),
        )
    }

    /// The rule with another pressed key; the sent side keeps its code and is
    /// labelled anew.
    pub fn update_object(&self, object: u64) -> (bind: Keybind)
        ensures
            bind@ == keybind_of_vkeys(
                self.index,
                self.vkey_pointer as u64,
                object,
                self.executable@,
            ),
            bind.vkey_pointer == self.vkey_pointer,
            bind.pointer@ == key_of_stored_code(self.vkey_pointer).label(),
    {
        let pointer = self.vkey_pointer;
        assert(pointer as u64 as i32 == pointer) by (bit_vector);
        assert(pointer < 0 ==> pointer as u64 > 0xFFFF_FFFFu64) by (bit_vector);
        Keybind::from_vkeys(
            self.index,
            #[verifier::truncate] (self.vkey_pointer as u64),
            object,
            self.executable.clone(),
        )
    }
}

/// Reads a stored raw code as a key.
fn stored_key(code: i32) -> (key: KeyboardKey)
    ensures
        key == key_of_stored_code(code),
{
    if code >= 0 {
        KeyboardKey::from(code as u64)
    } else {
        KeyboardKey::Escape
    }
}

/// The test "belongs to the executable `executable`".
pub open spec fn is_bound_to(executable: Seq<char>) -> spec_fn(Keybind) -> bool {
    |bind: Keybind| bind.executable@ == executable
}

/// The bindings of `keybinds` that belong to `executable`, in their order.
pub open spec fn bound_to(keybinds: Seq<Keybind>, executable: Seq<char>) -> Seq<Keybind> {
    keybinds.filter(is_bound_to(executable))
}

/// Returns the bindings whose executable is exactly `executable`, in their order.
pub fn keybinds_bound_to(keybinds: &Vec<Keybind>, executable: &String) -> (bound: Vec<Keybind>)
    ensures
        bound@ == bound_to(keybinds@, executable@),
{
    let mut bound: Vec<Keybind> = Vec::new();
    let ghost pred = is_bound_to(executable@);
    proof {
        lemma_filter_empty(keybinds@.take(0), pred);
    }
    let mut i: usize = 0;
    while i < keybinds.len()
        invariant
            i <= keybinds.len(),
            pred == is_bound_to(executable@),
            bound@ == keybinds@.take(i as int).filter(pred),
        decreases keybinds.len() - i,
    {
        proof {
            lemma_filter_step(keybinds@, pred, i as int);
        }
        if keybinds[i].executable == *executable {
            bound.push(keybinds[i].clone());
        }
        i += 1;
    }
    proof {
        assert(keybinds@.take(keybinds.len() as int) == keybinds@);
    }
    bound
}

/// The kind of an application tile.
#[derive(Clone, Copy, Debug, PartialEq, Eq, Structural)]
pub enum GameType {
    Desktop,
    Installed,
    Custom,
}

/// One application as the editor shows it.
#[derive(Debug, PartialEq)]
pub struct Game {
    pub id: String,
    pub name: String,
    pub image_path: String,
    pub executable: String,
    pub kind: GameType,
}

impl Clone for Game {
    fn clone(&self) -> (copy: Self)
        ensures
            copy == *self,
    {
        Game {
            id: self.id.clone(),
            name: self.name.clone(),
            image_path: self.image_path.clone(),
            executable: self.executable.clone(),
            kind: self.kind,
        }
    }
}

/// One running program that can be added as an application.
#[derive(Debug, PartialEq)]
pub struct Process {
    pub name: String,
    pub executable: String,
}

impl Clone for Process {
    fn clone(&self) -> (copy: Self)
        ensures
            copy == *self,
    {
        Process { name: self.name.clone(), executable: self.executable.clone() }
    }
}

impl Process {
    /// The entry for the program at `executable`, whose file is called `name`.
    pub fn from_exec(name: String, executable: String) -> (process: Process)
        ensures
            process == (Process { name, executable }),
    {
        Process { name, executable }
    }
}

/// What a tile holds, with its texts as sequences.
pub struct GameView {
    pub id: Seq<char>,
    pub name: Seq<char>,
    pub image_path: Seq<char>,
    pub executable: Seq<char>,
    pub kind: GameType,
}

impl View for Game {
    type V = GameView;

    open spec fn view(&self) -> GameView {
        GameView {
            id: self.id@,
            name: self.name@,
            image_path: self.image_path@,
            executable: self.executable@,
            kind: self.kind,
        }
    }
}

/// What the tiles hold, one view for each.
pub open spec fn game_views(games: Seq<Game>) -> Seq<GameView> {
    games.map_values(|game: Game| game@)
}

/// The kind of tile that stands for `app`: custom where the store marks it
/// so, the desktop by its name, installed otherwise.
pub open spec fn kind_of(app: ApplicationView) -> GameType {
    if app.isCustom is Some {
        GameType::Custom
    } else if app.name == APPLICATION_NAME_DESKTOP@ {
        GameType::Desktop
    } else {
        GameType::Installed
    }
}

/// True when `app` holds what its kind of tile shows: a custom application
/// its poster and its path, an installed one the address of its poster.
pub open spec fn can_be_shown(app: ApplicationView) -> bool {
    match kind_of(app) {
        GameType::Custom => app.posterPath is Some && app.applicationPath is Some,
        GameType::Desktop => true,
        GameType::Installed => app.posterUrl is Some,
    }
}

/// The tile of the desktop.
pub open spec fn desktop_tile() -> GameView {
    GameView {
        id: APPLICATION_NAME_DESKTOP@,
        name: "Desktop"@,
        image_path: Seq::empty(),
        executable: Seq::empty(),
        kind: GameType::Desktop,
    }
}

/// The tile that stands for `app`. A custom application shows its poster
/// and its path, an installed one the address of its poster and its path,
/// if it has one; the desktop shows neither.
pub open spec fn tile_of(app: ApplicationView) -> GameView {
    match kind_of(app) {
        GameType::Custom => GameView {
            id: app.applicationId,
            name: app.name,
            image_path: app.posterPath->Some_0,
            executable: app.applicationPath->Some_0,
            kind: GameType::Custom,
        },
        GameType::Desktop => desktop_tile(),
        GameType::Installed => GameView {
            id: app.applicationId,
            name: app.name,
            image_path: app.posterUrl->Some_0,
            executable: match app.applicationPath {
                Some(path) => path,
                None => Seq::empty(),
            },
            kind: GameType::Installed,
        },
    }
}

/// The width and height, in pixels, at which a tile of this kind draws its icon.
pub open spec fn icon_size_of(kind: GameType) -> (u32, u32) {
    match kind {
        GameType::Desktop => (48, 48),
        GameType::Installed => (150, 210),
        GameType::Custom => (48, 48),
    }
}

impl Game {
    /// Tells whether `app` holds what its tile shows, so that `from_settings`
    /// can be called on it.
    pub fn can_show(app: &Application) -> (shown: bool)
        ensures
            shown == can_be_shown(app@),
    {
        if app.isCustom.is_some() {
            app.posterPath.is_some() && app.applicationPath.is_some()
        } else if app.name == String::from_str(APPLICATION_NAME_DESKTOP) {
            true
        } else {
            app.posterUrl.is_some()
        }
    }

    /// The tile of an application of the store.
    pub fn from_settings(app: Application) -> (game: Game)
        requires
            can_be_shown(app@),
        ensures
            game@ == tile_of(app@),
    {
        if app.isCustom.is_some() {
            let thumbnail_path = app.posterPath.unwrap();
            Game::custom(app.applicationId, app.name, thumbnail_path, app.applicationPath.unwrap())
        } else if app.name == String::from_str(APPLICATION_NAME_DESKTOP) {
            Game::desktop()
        } else {
            let poster_url = app.posterUrl.unwrap();
            let executable = match app.applicationPath {
                Some(path) => path,
                None => String::new(),
            };
            Game::installed(app.applicationId, app.name, poster_url, executable)
        }
    }

    /// The tile of the desktop.
    pub fn desktop() -> (game: Game)
        ensures
            game@ == desktop_tile(),
    {
        Game {
            id: String::from_str(APPLICATION_NAME_DESKTOP),
            name: String::from_str("Desktop"),
            image_path: String::new(),
            executable: String::new(),
            kind: GameType::Desktop,
        }
    }

    /// The tile of an installed application.
    pub fn installed(id: String, name: String, image_path: String, executable: String) -> (game:
        Game)
        ensures
            game == (Game { id, name, image_path, executable, kind: GameType::Installed }),
    {
        Game { id, name, image_path, executable, kind: GameType::Installed }
    }

    /// The tile of a custom application.
    pub fn custom(id: String, name: String, image_path: String, executable: String) -> (game: Game)
        ensures
            game == (Game { id, name, image_path, executable, kind: GameType::Custom }),
    {
        Game { id, name, image_path, executable, kind: GameType::Custom }
    }

    /// The width and height, in pixels, at which this tile draws its icon.
    pub fn icon_size(&self) -> (size: (u32, u32))
        ensures
            size == icon_size_of(self.kind),
    {
        match self.kind {
            GameType::Desktop => (48, 48),
            GameType::Installed => (150, 210),
            GameType::Custom => (48, 48),
        }
    }
}

} // verus!
