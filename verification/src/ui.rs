//! The state that the window binds to: the lists it shows and the
//! application and profile it works on, kept in step with the settings in
//! memory.

use vstd::prelude::*;
use crate::config::Config;
use crate::seqs::{first_match, is_first_match, lemma_first_match_found, lemma_first_match_none};
use crate::types::gprofiles::Keybind;
use crate::types::utils::{
    application_model, keybind_model, profile_model, ApplicationModel, ApplicationModelView,
    ApplicationType, Component, KeybindModel, ProfileModel, ProfileModelView,
};
use crate::types::{application_views, belongs_to, has_id, profile_views, ApplicationView, ProfileView};
use crate::utils::APPLICATION_NAME_DESKTOP;

verus! {

/// What the window binds to.
#[derive(Debug)]
pub struct Singleton {
    pub applications: Vec<ApplicationModel>,
    pub name: String,
    pub image: String,
    pub executable: String,
    pub keybinds: Vec<KeybindModel>,
    pub profiles: Vec<ProfileModel>,
    pub profile_name: String,
    pub profile_id: String,
    pub active_profile_id: String,
    pub profile_app_name: String,
    pub profile_app_id: String,
    pub active_application_id: String,
    pub active_application_type: ApplicationType,
}

/// What the applications are listed as, one view for each.
pub open spec fn model_views(models: Seq<ApplicationModel>) -> Seq<ApplicationModelView> {
    models.map_values(|model: ApplicationModel| model@)
}

/// What the profiles are listed as, one view for each.
pub open spec fn profile_model_views(models: Seq<ProfileModel>) -> Seq<ProfileModelView> {
    models.map_values(|model: ProfileModel| model@)
}

/// The test "is listed under the desktop's name".
pub open spec fn is_desktop_model() -> spec_fn(ApplicationModelView) -> bool {
    |model: ApplicationModelView| model.name == APPLICATION_NAME_DESKTOP@
}

/// The test "is listed under another name than the desktop's".
pub open spec fn is_other_model() -> spec_fn(ApplicationModelView) -> bool {
    |model: ApplicationModelView| model.name != APPLICATION_NAME_DESKTOP@
}

/// The test "is the profile in use".
pub open spec fn is_active_model() -> spec_fn(ProfileModelView) -> bool {
    |model: ProfileModelView| model.active
}

/// The applications as the window lists them: the desktop in front, the
/// others behind, each group in the order of the settings.
pub open spec fn listed(applications: Seq<ApplicationView>) -> Seq<ApplicationModelView> {
    let models = applications.map_values(|app: ApplicationView| application_model(app));
    models.filter(is_desktop_model()) + models.filter(is_other_model())
}

/// The profile that the window works on: the first one in use, or the first
/// one where none is in use.
pub open spec fn shown_profile(models: Seq<ProfileModelView>) -> Option<ProfileModelView> {
    match first_match(models, is_active_model()) {
        Some(at) => Some(models[at]),
        None => if models.len() > 0 {
            Some(models[0])
        } else {
            None
        },
    }
}

/// The name under which profiles show their application: its display name,
/// or its name where it has none.
pub open spec fn shown_name(application: ApplicationModelView) -> Seq<char> {
    if application.display_name.len() > 0 {
        application.display_name
    } else {
        application.name
    }
}

/// The application that becomes the one at work on the id `id`: the
/// desktop as it is listed for the empty id, the application of the
/// settings with that id otherwise.
pub open spec fn chosen_application(
    listed: Seq<ApplicationModelView>,
    applications: Seq<ApplicationView>,
    id: Seq<char>,
) -> Option<ApplicationModelView> {
    if id.len() == 0 {
        match first_match(listed, is_desktop_model()) {
            Some(at) => Some(listed[at]),
            None => None,
        }
    } else {
        match first_match(applications, has_id(id)) {
            Some(at) => Some(application_model(applications[at])),
            None => None,
        }
    }
}

/// The rules that the settings hold for the application `id`, as the
/// window lists them.
pub open spec fn listed_keybinds(keybinds: Map<Seq<char>, Vec<Keybind>>, id: Seq<char>) -> Seq<
    KeybindModel,
> {
    if keybinds.contains_key(id) {
        keybinds[id]@.map_values(|keybind: Keybind| keybind_model(keybind))
    } else {
        Seq::empty()
    }
}

/// The profiles that the settings hold for the application `id`, as the
/// window lists them.
pub open spec fn listed_profiles(profiles: Seq<ProfileView>, id: Seq<char>) -> Seq<
    ProfileModelView,
> {
    profiles.filter(belongs_to(id)).map_values(|profile: ProfileView| profile_model(profile))
}

impl Singleton {
    /// True when the window works on `application` under `config`: its
    /// details, rules and profiles are those of `application`, and the lists
    /// of applications is the one of `before`.
    pub open spec fn works_on(
        self,
        before: Singleton,
        config: Config,
        application: ApplicationModelView,
    ) -> bool {
        &&& self.applications == before.applications
        &&& self.name@ == application.name
        &&& self.image@ == application.image_path
        &&& self.executable@ == application.executable
        &&& self.keybinds@ == listed_keybinds(config@.keybinds, application.id)
        &&& profile_model_views(self.profiles@) == listed_profiles(
            profile_views(config@.profiles),
            application.id,
        )
        &&& match shown_profile(profile_model_views(self.profiles@)) {
            Some(profile) => {
                &&& self.profile_name@ == profile.name
                &&& self.profile_id@ == profile.id
                &&& self.active_profile_id@ == profile.id
            },
            None => {
                &&& self.profile_name == before.profile_name
                &&& self.profile_id == before.profile_id
                &&& self.active_profile_id == before.active_profile_id
            },
        }
        &&& self.profile_app_name@ == shown_name(application)
        &&& self.profile_app_id@ == application.id
        &&& self.active_application_id@ == application.id
        &&& self.active_application_type == application.kind
    }

    /// True when the window lists the applications of `config` and works on
    /// the application with the id `id`, or on the desktop for the empty
    /// id, and is as `before` in what neither of the two touches.
    pub open spec fn relisted(self, before: Singleton, config: Config, id: Seq<char>) -> bool {
        let middle = Singleton { applications: self.applications, ..before };
        &&& model_views(self.applications@) == listed(application_views(config@.applications))
        &&& match chosen_application(
            model_views(self.applications@),
            application_views(config@.applications),
            id,
        ) {
            Some(application) => self.works_on(middle, config, application),
            None => self == middle,
        }
    }

    /// A window that lists nothing and works on nothing.
    pub fn new() -> (singleton: Singleton)
        ensures
            singleton.applications@.len() == 0,
            singleton.keybinds@.len() == 0,
            singleton.profiles@.len() == 0,
            singleton.name@.len() == 0,
            singleton.image@.len() == 0,
            singleton.executable@.len() == 0,
            singleton.profile_name@.len() == 0,
            singleton.profile_id@.len() == 0,
            singleton.active_profile_id@.len() == 0,
            singleton.profile_app_name@.len() == 0,
            singleton.profile_app_id@.len() == 0,
            singleton.active_application_id@.len() == 0,
            singleton.active_application_type == ApplicationType::Desktop,
    {
        Singleton {
            applications: Vec::new(),
            name: String::new(),
            image: String::new(),
            executable: String::new(),
            keybinds: Vec::new(),
            profiles: Vec::new(),
            profile_name: String::new(),
            profile_id: String::new(),
            active_profile_id: String::new(),
            profile_app_name: String::new(),
            profile_app_id: String::new(),
            active_application_id: String::new(),
            active_application_type: ApplicationType::Desktop,
        }
    }

    /// Lists the applications of `config` and works on the desktop.
    pub fn sync(&mut self, config: &Config)
        ensures
            model_views(final(self).applications@) == listed(
                application_views(config@.applications),
            ),
            final(self).relisted(*old(self), *config, Seq::empty()),
    {
        self.sync_applications(config);
        self.sync_active_application(config, &String::new());
    }

    /// Works on the application with the id `id`, or on the desktop for
    /// the empty id. Without such an application nothing changes.
    pub fn sync_active_application(&mut self, config: &Config, id: &String)
        ensures
            match chosen_application(
                model_views(old(self).applications@),
                application_views(config@.applications),
                id@,
            ) {
                Some(application) => final(self).works_on(*old(self), *config, application),
                None => *final(self) == *old(self),
            },
    {
        let active: Option<ApplicationModel> = if id.as_str().is_empty() {
            self.get_desktop_application()
        } else {
            match config.get_application(id) {
                Some(found) => {
                    let model: ApplicationModel = found.as_component();
                    Some(model)
                },
                None => None,
            }
        };
        match active {
            None => {},
            Some(app) => {
                self.sync_application_details(&app);
                self.sync_keybinds_for(config, &app);
                self.sync_profiles_for(config, &app);
                self.active_application_id = app.id.clone();
                self.active_application_type = app.kind;
            },
        }
    }

    /// Shows the name, the image and the executable of `application`.
    pub fn sync_application_details(&mut self, application: &ApplicationModel)
        ensures
            *final(self) == (Singleton {
                name: application.name,
                image: application.image_path,
                executable: application.executable,
                ..*old(self)
            }),
    {
        self.name = application.name.clone();
        self.image = application.image_path.clone();
        self.executable = application.executable.clone();
    }

    /// Lists the rules that `config` holds for `application`.
    pub fn sync_keybinds_for(&mut self, config: &Config, application: &ApplicationModel)
        ensures
            final(self).keybinds@ == listed_keybinds(config@.keybinds, application.id@),
            *final(self) == (Singleton { keybinds: final(self).keybinds, ..*old(self) }),
    {
        let rules = config.get_keybinds_for(&application.id);
        let models: Vec<KeybindModel> = rules.as_component();
        self.keybinds = models;
    }

    /// Lists the profiles that `config` holds for `application`, and works
    /// on the first one in use, or on the first one where none is in use.
    pub fn sync_profiles_for(&mut self, config: &Config, application: &ApplicationModel)
        ensures
            profile_model_views(final(self).profiles@) == listed_profiles(
                profile_views(config@.profiles),
                application.id@,
            ),
            match shown_profile(profile_model_views(final(self).profiles@)) {
                Some(profile) => {
                    &&& final(self).profile_name@ == profile.name
                    &&& final(self).profile_id@ == profile.id
                    &&& final(self).active_profile_id@ == profile.id
                },
                None => {
                    &&& final(self).profile_name == old(self).profile_name
                    &&& final(self).profile_id == old(self).profile_id
                    &&& final(self).active_profile_id == old(self).active_profile_id
                },
            },
            final(self).profile_app_name@ == shown_name(application@),
            final(self).profile_app_id@ == application.id@,
            *final(self) == (Singleton {
                profiles: final(self).profiles,
                profile_name: final(self).profile_name,
                profile_id: final(self).profile_id,
                active_profile_id: final(self).active_profile_id,
                profile_app_name: final(self).profile_app_name,
                profile_app_id: final(self).profile_app_id,
                ..*old(self)
            }),
    {
        let profiles = config.get_profiles_for(&application.id);
        let items: Vec<ProfileModel> = profiles.as_component();
        proof {
            assert(profile_model_views(items@) =~= profile_views(profiles@).map_values(
                |profile: ProfileView| profile_model(profile),
            ));
        }
        let ghost views = profile_model_views(items@);
        let ghost pred = is_active_model();
        let mut chosen: Option<usize> = None;
        let mut i: usize = 0;
        while i < items.len() && chosen.is_none()
            invariant
                i <= items.len(),
                views == profile_model_views(items@),
                pred == is_active_model(),
                chosen is None ==> forall|j: int| 0 <= j < i ==> !pred(#[trigger] views[j]),
                chosen matches Some(at) ==> at < items.len() && first_match(views, pred) == Some(
                    at as int,
                ),
            decreases items.len() - i,
        {
            if items[i].active {
                proof {
                    assert(is_first_match(views, pred, i as int));
                    lemma_first_match_found(views, pred, i as int);
                }
                chosen = Some(i);
            }
            i += 1;
        }
        proof {
            if chosen is None {
                lemma_first_match_none(views, pred);
            }
        }
        let shown: Option<usize> = match chosen {
            Some(at) => Some(at),
            None => if items.len() > 0 {
                Some(0)
            } else {
                None
            },
        };
        match shown {
            Some(at) => {
                self.profile_name = items[at].name.clone();
                self.profile_id = items[at].id.clone();
                self.active_profile_id = items[at].id.clone();
            },
            None => {},
        }
        let display_name = if !application.display_name.as_str().is_empty() {
            application.display_name.clone()
        } else {
            application.name.clone()
        };
        self.profile_app_name = display_name;
        self.profile_app_id = application.id.clone();
        self.profiles = items;
    }

    /// Lists the applications of `config`: the desktop in front, the others
    /// behind, each group in the order of the settings.
    pub fn sync_applications(&mut self, config: &Config)
        ensures
            model_views(final(self).applications@) == listed(
                application_views(config@.applications),
            ),
            *final(self) == (Singleton { applications: final(self).applications, ..*old(self) }),
    {
        let items: Vec<ApplicationModel> = config.get_applications().as_component();
        let ghost models = model_views(items@);
        proof {
            assert(models =~= application_views(config@.applications).map_values(
                |app: ApplicationView| application_model(app),
            ));
        }
        let desktop = String::from_str(APPLICATION_NAME_DESKTOP);
        let mut front: Vec<ApplicationModel> = Vec::new();
        let mut back: Vec<ApplicationModel> = Vec::new();
        proof {
            crate::seqs::lemma_filter_empty(models.take(0), is_desktop_model());
            crate::seqs::lemma_filter_empty(models.take(0), is_other_model());
            assert(model_views(front@) =~= models.take(0).filter(is_desktop_model()));
            assert(model_views(back@) =~= models.take(0).filter(is_other_model()));
        }
        let mut i: usize = 0;
        while i < items.len()
            invariant
                i <= items.len(),
                models == model_views(items@),
                desktop@ == APPLICATION_NAME_DESKTOP@,
                model_views(front@) == models.take(i as int).filter(is_desktop_model()),
                model_views(back@) == models.take(i as int).filter(is_other_model()),
            decreases items.len() - i,
        {
            proof {
                crate::seqs::lemma_filter_step(models, is_desktop_model(), i as int);
                crate::seqs::lemma_filter_step(models, is_other_model(), i as int);
            }
            let item = items[i].clone();
            if item.name == desktop {
                let ghost before = front@;
                front.push(item);
                proof {
                    assert(model_views(before.push(item)) =~= model_views(before).push(item@));
                }
            } else {
                let ghost before = back@;
                back.push(item);
                proof {
                    assert(model_views(before.push(item)) =~= model_views(before).push(item@));
                }
            }
            i += 1;
        }
        proof {
            assert(models.take(items.len() as int) == models);
        }
        let ghost head = front@;
        let ghost tail = back@;
        front.append(&mut back);
        proof {
            assert(model_views(head + tail) =~= model_views(head) + model_views(tail));
        }
        self.applications = front;
    }

    /// The desktop as the window lists it: the first listed application
    /// under the desktop's name.
    pub fn get_desktop_application(&self) -> (found: Option<ApplicationModel>)
        ensures
            match first_match(model_views(self.applications@), is_desktop_model()) {
                Some(at) => found == Some(self.applications@[at]),
                None => found is None,
            },
    {
        let ghost views = model_views(self.applications@);
        let ghost pred = is_desktop_model();
        let desktop = String::from_str(APPLICATION_NAME_DESKTOP);
        let mut i: usize = 0;
        while i < self.applications.len()
            invariant
                i <= self.applications.len(),
                views == model_views(self.applications@),
                pred == is_desktop_model(),
                desktop@ == APPLICATION_NAME_DESKTOP@,
                forall|j: int| 0 <= j < i ==> !pred(#[trigger] views[j]),
            decreases self.applications.len() - i,
        {
            if self.applications[i].name == desktop {
                proof {
                    assert(is_first_match(views, pred, i as int));
                    lemma_first_match_found(views, pred, i as int);
                }
                return Some(self.applications[i].clone());
            }
            i += 1;
        }
        proof {
            lemma_first_match_none(views, pred);
        }
        None
    }
}

/// The window and what it binds to.
#[derive(Debug)]
pub struct App {
    pub singleton: Singleton,
}

/// What the user does in the window.
#[derive(Debug)]
pub enum UiEvent {
    /// An application of the list was chosen.
    SelectApplication(ApplicationModel),
    /// A new name was entered for the application at work.
    ChangeName(String),
    /// A new image was asked for; the text is where the chosen image was
    /// stored, if one was chosen.
    ChangeImage(Option<String>),
    /// A new executable was asked for; the text is the chosen file, if
    /// one was chosen.
    ChangeExecutable(Option<String>),
}

/// The applications with the name of the first one that has the id `id`
/// changed to `name`.
pub open spec fn renamed(applications: Seq<ApplicationView>, id: Seq<char>, name: Seq<char>) -> Seq<
    ApplicationView,
> {
    match first_match(applications, has_id(id)) {
        Some(at) => applications.update(at, ApplicationView { name, ..applications[at] }),
        None => applications,
    }
}

/// The custom application with the id `id` that has a path, if the first
/// application with that id is one.
pub open spec fn custom_with_path(applications: Seq<ApplicationView>, id: Seq<char>) -> Option<int> {
    match first_match(applications, has_id(id)) {
        Some(at) => if applications[at].isCustom is Some && applications[at].applicationPath
            is Some {
            Some(at)
        } else {
            None
        },
        None => None,
    }
}

/// The custom application with the id `id` that has a poster, if the first
/// application with that id is one.
pub open spec fn custom_with_poster(applications: Seq<ApplicationView>, id: Seq<char>) -> Option<
    int,
> {
    match first_match(applications, has_id(id)) {
        Some(at) => if applications[at].isCustom is Some && applications[at].posterPath is Some {
            Some(at)
        } else {
            None
        },
        None => None,
    }
}

/// True when `after` is `before` in all but its applications.
pub open spec fn differs_in_applications(before: Config, after: Config) -> bool {
    &&& after@.profiles == before@.profiles
    &&& after@.keybinds == before@.keybinds
    &&& after@.gprofiles_settings == before@.gprofiles_settings
    &&& after@.lghub_location == before@.lghub_location
}

/// True when `after` shows the name, the image and the executable of
/// `application` and is `before` in everything else but, where `relisted`
/// is true, its list of applications.
pub open spec fn shows_details(
    before: Singleton,
    after: Singleton,
    application: ApplicationModelView,
    relisted: bool,
) -> bool {
    &&& after.name@ == application.name
    &&& after.image@ == application.image_path
    &&& after.executable@ == application.executable
    &&& after == (Singleton {
        applications: if relisted {
            after.applications
        } else {
            before.applications
        },
        name: after.name,
        image: after.image,
        executable: after.executable,
        ..before
    })
}

/// What the choice of the application `id` in the list does.
pub open spec fn selected(before: App, after: App, config: Config, id: Seq<char>) -> bool {
    match chosen_application(
        model_views(before.singleton.applications@),
        application_views(config@.applications),
        id,
    ) {
        Some(application) => after.singleton.works_on(before.singleton, config, application),
        None => after.singleton == before.singleton,
    }
}

/// What a new name for the application at work does: with no application
/// at work nothing; otherwise the application is renamed, the applications
/// are listed anew and the renamed one is worked on.
pub open spec fn name_changed(
    before: App,
    after: App,
    before_config: Config,
    after_config: Config,
    name: Seq<char>,
) -> bool {
    let id = before.singleton.active_application_id@;
    if id.len() == 0 {
        after == before && after_config == before_config
    } else {
        &&& application_views(after_config@.applications) == renamed(
            application_views(before_config@.applications),
            id,
            name,
        )
        &&& differs_in_applications(before_config, after_config)
        &&& after.singleton.relisted(before.singleton, after_config, id)
    }
}

/// What a new executable for the application at work does: a custom
/// application with a path gets the file that was picked, if one was; the
/// details of a custom application, edited or not, are shown; any other
/// application stays as it is.
pub open spec fn executable_changed(
    before: App,
    after: App,
    before_config: Config,
    after_config: Config,
    picked: Option<Seq<char>>,
) -> bool {
    let applications = application_views(before_config@.applications);
    &&& differs_in_applications(before_config, after_config)
    &&& match first_match(applications, has_id(before.singleton.active_application_id@)) {
        Some(at) => {
            let edited = if applications[at].applicationPath is Some && picked is Some {
                ApplicationView { applicationPath: picked, ..applications[at] }
            } else {
                applications[at]
            };
            if applications[at].isCustom is Some {
                &&& application_views(after_config@.applications) == applications.update(
                    at,
                    edited,
                )
                &&& shows_details(
                    before.singleton,
                    after.singleton,
                    application_model(edited),
                    false,
                )
            } else {
                &&& application_views(after_config@.applications) == applications
                &&& after == before
            }
        },
        None => after_config == before_config && after == before,
    }
}

/// What a new image for the application at work does: a custom application
/// with a poster gets the image that was stored, if one was; the details
/// of a custom application, edited or not, are shown; and the applications
/// are listed anew.
pub open spec fn image_changed(
    before: App,
    after: App,
    before_config: Config,
    after_config: Config,
    saved: Option<Seq<char>>,
) -> bool {
    let applications = application_views(before_config@.applications);
    &&& differs_in_applications(before_config, after_config)
    &&& model_views(after.singleton.applications@) == listed(
        application_views(after_config@.applications),
    )
    &&& match first_match(applications, has_id(before.singleton.active_application_id@)) {
        Some(at) => {
            let edited = if applications[at].posterPath is Some && saved is Some {
                ApplicationView { posterPath: saved, ..applications[at] }
            } else {
                applications[at]
            };
            if applications[at].isCustom is Some {
                &&& application_views(after_config@.applications) == applications.update(
                    at,
                    edited,
                )
                &&& shows_details(
                    before.singleton,
                    after.singleton,
                    application_model(edited),
                    true,
                )
            } else {
                &&& application_views(after_config@.applications) == applications
                &&& after.singleton == (Singleton {
                    applications: after.singleton.applications,
                    ..before.singleton
                })
            }
        },
        None => after_config == before_config && after.singleton == (Singleton {
            applications: after.singleton.applications,
            ..before.singleton
        }),
    }
}

impl App {
    /// A window that lists nothing and works on nothing.
    pub fn new() -> (app: App)
        ensures
            app.singleton.applications@.len() == 0,
            app.singleton.active_application_id@.len() == 0,
    {
        App { singleton: Singleton::new() }
    }

    /// Works on the application that was chosen in the list.
    pub fn on_select_application(&mut self, config: &Config, model: ApplicationModel)
        ensures
            selected(*old(self), *final(self), *config, model.id@),
    {
        self.singleton.sync_active_application(config, &model.id);
    }

    /// Gives the application at work the name `name`, lists the
    /// applications anew and works on the renamed one. With no application
    /// at work nothing happens.
    pub fn on_change_name(&mut self, config: &mut Config, name: String)
        ensures
            name_changed(*old(self), *final(self), *old(config), *final(config), name@),
    {
        let id = self.singleton.active_application_id.clone();
        if id.as_str().is_empty() {
            return ;
        }
        match config.get_application_index(&id) {
            Some(index) => {
                let mut edited = config.get_applications()[index].clone();
                edited.name = name;
                config.replace_application(&id, edited);
                proof {
                    assert(application_views(config@.applications) =~= renamed(
                        application_views(old(config)@.applications),
                        id@,
                        name@,
                    ));
                }
            },
            None => {},
        }
        self.singleton.sync_applications(config);
        self.singleton.sync_active_application(config, &id);
    }

    /// The folder in which to ask for a new executable of the application
    /// at work: the place of its present one. There is none unless the
    /// application is a custom one with a path.
    pub fn executable_folder(&self, config: &Config) -> (folder: Option<String>)
        ensures
            match custom_with_path(
                application_views(config@.applications),
                self.singleton.active_application_id@,
            ) {
                Some(at) => folder matches Some(path) && Some(path@) == application_views(
                    config@.applications,
                )[at].applicationPath,
                None => folder is None,
            },
    {
        match config.get_application(&self.singleton.active_application_id) {
            Some(app) => {
                if app.isCustom.is_none() {
                    return None;
                }
                match &app.applicationPath {
                    Some(path) => Some(path.clone()),
                    None => None,
                }
            },
            None => None,
        }
    }

    /// Gives the application at work the executable `picked`, if it is a
    /// custom application with a path and a file was picked, and shows the
    /// details of the application, edited or not, if it is a custom one.
    pub fn on_change_executable(&mut self, config: &mut Config, picked: Option<String>)
        ensures
            executable_changed(
                *old(self),
                *final(self),
                *old(config),
                *final(config),
                crate::types::text_of(picked),
            ),
    {
        let id = self.singleton.active_application_id.clone();
        match config.get_application_index(&id) {
            Some(index) => {
                let mut app = config.get_applications()[index].clone();
                if app.isCustom.is_none() {
                    proof {
                        assert(application_views(config@.applications) =~= application_views(
                            old(config)@.applications,
                        ));
                    }
                    return ;
                }
                if app.applicationPath.is_some() {
                    match picked {
                        Some(file) => {
                            app.applicationPath = Some(file);
                        },
                        None => {},
                    }
                }
                let model: ApplicationModel = app.as_component();
                self.singleton.sync_application_details(&model);
                let ghost edited = app@;
                config.replace_application(&id, app);
                proof {
                    assert(application_views(config@.applications) =~= application_views(
                        old(config)@.applications,
                    ).update(index as int, edited));
                }
            },
            None => {},
        }
    }

    /// The folder in which to ask for a new image of the application at
    /// work: the place of its present poster. There is none unless the
    /// application is a custom one with a poster.
    pub fn image_folder(&self, config: &Config) -> (folder: Option<String>)
        ensures
            match custom_with_poster(
                application_views(config@.applications),
                self.singleton.active_application_id@,
            ) {
                Some(at) => folder matches Some(path) && Some(path@) == application_views(
                    config@.applications,
                )[at].posterPath,
                None => folder is None,
            },
    {
        match config.get_application(&self.singleton.active_application_id) {
            Some(app) => {
                if app.isCustom.is_none() {
                    return None;
                }
                match &app.posterPath {
                    Some(path) => Some(path.clone()),
                    None => None,
                }
            },
            None => None,
        }
    }

    /// Gives the application at work the poster stored at `saved`, if it
    /// is a custom application with a poster and an image was stored;
    /// shows the details of the application, edited or not, if it is a
    /// custom one; and lists the applications anew.
    pub fn on_change_image(&mut self, config: &mut Config, saved: Option<String>)
        ensures
            image_changed(
                *old(self),
                *final(self),
                *old(config),
                *final(config),
                crate::types::text_of(saved),
            ),
    {
        let id = self.singleton.active_application_id.clone();
        match config.get_application_index(&id) {
            Some(index) => {
                let mut app = config.get_applications()[index].clone();
                if app.isCustom.is_some() {
                    if app.posterPath.is_some() {
                        match saved {
                            Some(file) => {
                                app.posterPath = Some(file);
                            },
                            None => {},
                        }
                    }
                    let model: ApplicationModel = app.as_component();
                    self.singleton.sync_application_details(&model);
                    let ghost edited = app@;
                    config.replace_application(&id, app);
                    proof {
                        assert(application_views(config@.applications) =~= application_views(
                            old(config)@.applications,
                        ).update(index as int, edited));
                    }
                } else {
                    proof {
                        assert(application_views(config@.applications) =~= application_views(
                            old(config)@.applications,
                        ));
                    }
                }
            },
            None => {},
        }
        self.singleton.sync_applications(config);
    }

    /// Carries out what the user did in the window: each event by the
    /// function that is named after it.
    pub fn dispatch(&mut self, config: &mut Config, event: UiEvent)
        ensures
            match event {
                UiEvent::SelectApplication(model) => *final(config) == *old(config) && selected(
                    *old(self),
                    *final(self),
                    *old(config),
                    model.id@,
                ),
                UiEvent::ChangeName(name) => name_changed(
                    *old(self),
                    *final(self),
                    *old(config),
                    *final(config),
                    name@,
                ),
                UiEvent::ChangeImage(saved) => image_changed(
                    *old(self),
                    *final(self),
                    *old(config),
                    *final(config),
                    crate::types::text_of(saved),
                ),
                UiEvent::ChangeExecutable(picked) => executable_changed(
                    *old(self),
                    *final(self),
                    *old(config),
                    *final(config),
                    crate::types::text_of(picked),
                ),
            },
    {
        match event {
            UiEvent::SelectApplication(model) => self.on_select_application(config, model),
            UiEvent::ChangeName(name) => self.on_change_name(config, name),
            UiEvent::ChangeImage(saved) => self.on_change_image(config, saved),
            UiEvent::ChangeExecutable(picked) => self.on_change_executable(config, picked),
        }
    }
}

} // verus!
