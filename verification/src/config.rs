//! The settings in memory: the applications and profiles of the vendor's
//! store, and the remap rules of each application.

use vstd::prelude::*;
use vstd::hash_map::StringHashMap;
use crate::seqs::{first_match, is_first_match, lemma_first_match_found, lemma_first_match_none};
use crate::text::join_path;
use crate::types::gprofiles::{GProfilesData, Keybind};
use crate::types::logitech::LogitechData;
use crate::types::{
    application_index, application_views, belongs_to, has_id, has_name, profile_views,
    profiles_by_application,
    Application, Profile,
};
use crate::utils::APPLICATION_NAME_DESKTOP;

verus! {

/// The name of the folder, below the vendor's settings, that holds the icons.
pub const ICON_CACHE: &'static str = "icon_cache";

/// The rules that a settings file holds for each application id: of two
/// entries with one id the later one counts.
pub open spec fn keybinds_of(entries: Seq<(String, Vec<Keybind>)>) -> Map<Seq<char>, Vec<Keybind>>
    decreases entries.len(),
{
    if entries.len() == 0 {
        Map::empty()
    } else {
        keybinds_of(entries.drop_last()).insert(entries.last().0@, entries.last().1)
    }
}

/// The settings in memory.
pub struct Config {
    applications: Vec<Application>,
    profiles: Vec<Profile>,
    keybinds: StringHashMap<Vec<Keybind>>,
    gprofiles_settings: String,
    lghub_location: String,
}

/// What a `Config` holds.
pub struct ConfigView {
    pub applications: Seq<Application>,
    pub profiles: Seq<Profile>,
    pub keybinds: Map<Seq<char>, Vec<Keybind>>,
    pub gprofiles_settings: String,
    pub lghub_location: String,
}

impl View for Config {
    type V = ConfigView;

    closed spec fn view(&self) -> ConfigView {
        ConfigView {
            applications: self.applications@,
            profiles: self.profiles@,
            keybinds: self.keybinds@,
            gprofiles_settings: self.gprofiles_settings,
            lghub_location: self.lghub_location,
        }
    }
}

impl Config {
    /// The settings made of what the two settings files hold.
    /// `gprofiles_settings` is the place of this tool's own file and
    /// `lghub_location` the place of the vendor's settings.
    pub fn new(
        gprofiles_settings: String,
        gprofiles_data: GProfilesData,
        lghub_location: String,
        logitech_data: LogitechData,
    ) -> (config: Config)
        ensures
            config@ == (ConfigView {
                applications: logitech_data.applications.applications@,
                profiles: logitech_data.profiles.profiles@,
                keybinds: match gprofiles_data.keybinds {
                    Some(entries) => keybinds_of(entries@),
                    None => Map::empty(),
                },
                gprofiles_settings,
                lghub_location,
            }),
    {
        let applications = logitech_data.applications.applications;
        let profiles = logitech_data.profiles.profiles;
        let mut keybinds: StringHashMap<Vec<Keybind>> = StringHashMap::new();
        match gprofiles_data.keybinds {
            Some(entries) => {
                let ghost all = entries@;
                for entry in iter: entries
                    invariant
                        iter.seq() == all,
                        keybinds@ == keybinds_of(all.take(iter.index() as int)),
                {
                    proof {
                        assert(all.take(iter.index() + 1).drop_last() == all.take(
                            iter.index() as int,
                        ));
                    }
                    let (id, rules) = entry;
                    keybinds.insert(id, rules);
                }
                proof {
                    assert(all.take(all.len() as int) == all);
                }
            },
            None => {},
        }
        Config { applications, profiles, gprofiles_settings, lghub_location, keybinds }
    }

    /// The applications, in the order of the store.
    pub fn get_applications(&self) -> (applications: &Vec<Application>)
        ensures
            applications@ == self@.applications,
    {
        &self.applications
    }

    /// Replaces the first application with the id `id` by what `pred` makes
    /// of a copy of it. Without such an application nothing changes.
    pub fn edit_application<P: Fn(Application) -> Application>(&mut self, id: &String, pred: P)
        requires
            first_match(application_views(old(self)@.applications), has_id(id@)) matches Some(at) ==> forall|
                copy: Application,
            |
                copy@ == old(self)@.applications[at]@ ==> call_requires(pred, (copy,)),
        ensures
            first_match(application_views(old(self)@.applications), has_id(id@)) is None ==> final(self)@ == old(
                self,
            )@,
            first_match(application_views(old(self)@.applications), has_id(id@)) matches Some(at) ==> exists|
                copy: Application,
                edited: Application,
            |
                {
                    &&& copy@ == old(self)@.applications[at]@
                    &&& #[trigger] call_ensures(pred, (copy,), edited)
                    &&& final(self)@ == (ConfigView {
                        applications: old(self)@.applications.update(at, edited),
                        ..old(self)@
                    })
                },
    {
        if let Some(index) = self.get_application_index(id) {
            let copy = self.applications[index].clone();
            let edited = pred(copy);
            self.applications.set(index, edited);
            assert(copy@ == old(self)@.applications[index as int]@ && call_ensures(
                pred,
                (copy,),
                edited,
            ) && self@ == (ConfigView {
                applications: old(self)@.applications.update(index as int, edited),
                ..old(self)@
            }));
        }
    }

    /// Puts `app` in the place of the first application with the id `id`.
    /// Without such an application nothing changes.
    pub fn replace_application(&mut self, id: &String, app: Application)
        ensures
            final(self)@ == (ConfigView {
                applications: match first_match(application_views(old(self)@.applications), has_id(id@)) {
                    Some(at) => old(self)@.applications.update(at, app),
                    None => old(self)@.applications,
                },
                ..old(self)@
            }),
    {
        if let Some(index) = self.get_application_index(id) {
            self.applications.set(index, app);
        }
    }

    /// The first application with the id `id`.
    pub fn get_application(&self, id: &String) -> (found: Option<&Application>)
        ensures
            match first_match(application_views(self@.applications), has_id(id@)) {
                Some(at) => found == Some(&self@.applications[at]),
                None => found is None,
            },
    {
        match self.get_application_index(id) {
            Some(index) => Some(&self.applications[index]),
            None => None,
        }
    }

    /// The first application that carries the desktop's name.
    pub fn get_desktop_application(&self) -> (found: Option<&Application>)
        ensures
            match first_match(
                application_views(self@.applications),
                has_name(APPLICATION_NAME_DESKTOP@),
            ) {
                Some(at) => found == Some(&self@.applications[at]),
                None => found is None,
            },
    {
        let ghost pred = has_name(APPLICATION_NAME_DESKTOP@);
        let ghost views = application_views(self.applications@);
        let desktop = String::from_str(APPLICATION_NAME_DESKTOP);
        let mut i: usize = 0;
        while i < self.applications.len()
            invariant
                i <= self.applications.len(),
                pred == has_name(APPLICATION_NAME_DESKTOP@),
                views == application_views(self.applications@),
                desktop@ == APPLICATION_NAME_DESKTOP@,
                forall|j: int| 0 <= j < i ==> !pred(#[trigger] views[j]),
            decreases self.applications.len() - i,
        {
            if self.applications[i].name == desktop {
                proof {
                    assert(is_first_match(views, pred, i as int));
                    lemma_first_match_found(views, pred, i as int);
                }
                return Some(&self.applications[i]);
            }
            i += 1;
        }
        proof {
            lemma_first_match_none(views, pred);
        }
        None
    }

    /// The rules of the application `id`; none for an application without rules.
    pub fn get_keybinds_for(&self, id: &String) -> (rules: Vec<Keybind>)
        ensures
            rules@ == if self@.keybinds.contains_key(id@) {
                self@.keybinds[id@]@
            } else {
                Seq::empty()
            },
    {
        match self.keybinds.get(id.as_str()) {
            Some(rules) => {
                let copies = rules.clone();
                assert(copies@ =~= rules@);
                copies
            },
            None => Vec::new(),
        }
    }

    /// The profiles of the application `id`, in the order of the store.
    pub fn get_profiles_for(&self, id: &String) -> (profiles: Vec<Profile>)
        ensures
            profile_views(profiles@) == profile_views(self@.profiles).filter(belongs_to(id@)),
    {
        profiles_by_application(&self.profiles, id, true)
    }

    /// The folder of the icons, below the vendor's settings.
    pub fn get_icon_cache(&self) -> (folder: Option<String>)
        ensures
            folder is Some,
    {
        Some(join_path(self.lghub_location.as_str(), ICON_CACHE))
    }

    /// The place of the first application with the id `id`.
    pub fn get_application_index(&self, id: &String) -> (index: Option<usize>)
        ensures
            match index {
                Some(at) => at < self@.applications.len() && first_match(
                    application_views(self@.applications),
                    has_id(id@),
                ) == Some(at as int),
                None => first_match(application_views(self@.applications), has_id(id@)) is None,
            },
    {
        application_index(&self.applications, id)
    }
}

} // verus!
