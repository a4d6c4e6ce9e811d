//! The applications of the settings: finding one, and the lists that put
//! one in, replace one or take one out.

use vstd::prelude::*;
use vstd::string::StrSliceExecFns;
use crate::objects::Game;
use crate::seqs::{first_match, is_first_match, lemma_first_match_found, lemma_first_match_none};
use crate::settings::{Commit, LogitechSettings};
use crate::types::{
    application_index, application_views, belongs_to, clone_applications, default_profile, has_id,
    is_profile, profile_views, Application, ApplicationView, Profile, ProfileView,
};
use crate::utils::APPLICATION_NAME_DESKTOP;

verus! {

/// The test "is installed in the folder `folder`".
pub open spec fn lies_in(folder: Seq<char>) -> spec_fn(ApplicationView) -> bool {
    |app: ApplicationView| app.applicationFolder == Some(folder)
}

/// The test "is the desktop": it carries the desktop's name and has no path.
pub open spec fn is_desktop() -> spec_fn(ApplicationView) -> bool {
    |app: ApplicationView| app.name == APPLICATION_NAME_DESKTOP@ && app.applicationPath is None
}

/// The list with `application` at `at`, or behind the others where `at` is
/// no place.
pub open spec fn with_application(
    applications: Seq<ApplicationView>,
    at: Option<int>,
    application: ApplicationView,
) -> Seq<ApplicationView> {
    match at {
        Some(at) => applications.update(at, application),
        None => applications.push(application),
    }
}

/// The list with `profile` at `at`, or behind the others where `at` is no
/// place.
pub open spec fn with_profile(profiles: Seq<ProfileView>, at: Option<int>, profile: ProfileView) -> Seq<
    ProfileView,
> {
    match at {
        Some(at) => profiles.update(at, profile),
        None => profiles.push(profile),
    }
}

/// True when `found` is a copy of the first element of `applications` that
/// meets `pred`, or nothing where none meets it.
pub open spec fn is_copy_of_first(
    applications: Seq<ApplicationView>,
    pred: spec_fn(ApplicationView) -> bool,
    found: Option<Application>,
) -> bool {
    match first_match(applications, pred) {
        Some(at) => found matches Some(app) && app@ == applications[at],
        None => found is None,
    }
}

/// True for a digit of lowercase hexadecimal.
pub open spec fn is_lower_hex(c: char) -> bool {
    ('0' <= c && c <= '9') || ('a' <= c && c <= 'f')
}

/// True for a UUID in its usual writing: 32 lowercase hexadecimal digits in
/// groups of 8, 4, 4, 4 and 12, with a hyphen between two groups.
pub open spec fn is_hyphenated_uuid(text: Seq<char>) -> bool {
    &&& text.len() == 36
    &&& forall|i: int|
        0 <= i < 36 ==> if i == 8 || i == 13 || i == 18 || i == 23 {
            #[trigger] text[i] == '-'
        } else {
            is_lower_hex(text[i])
        }
}

/// True for the id of an application that this tool made: 32 lowercase
/// hexadecimal digits.
pub open spec fn is_application_id(text: Seq<char>) -> bool {
    &&& text.len() == 32
    &&& forall|i: int| 0 <= i < 32 ==> is_lower_hex(#[trigger] text[i])
}

/// True when some profile belongs to an application whose id has the shape
/// of an id that this tool made.
pub open spec fn holds_made_id(profiles: Seq<ProfileView>) -> bool {
    exists|i: int|
        0 <= i < profiles.len() && is_application_id((#[trigger] profiles[i]).applicationId)
}

/// The digits of a UUID in its usual writing, without the hyphens.
pub open spec fn digits_of(uuid: Seq<char>) -> Seq<char> {
    uuid.subrange(0, 8) + uuid.subrange(9, 13) + uuid.subrange(14, 18) + uuid.subrange(19, 23)
        + uuid.subrange(24, 36)
}

/// `uuid::Uuid::new_v4` and the text that `to_string` makes of it: a random
/// UUID in its usual writing. Which one is left open.
#[verifier::external_body]
fn new_uuid() -> (text: String)
    ensures
        is_hyphenated_uuid(text@),
{
    uuid::Uuid::new_v4().to_string()
}

/// Takes the hyphens out of a UUID.
fn without_hyphens(uuid: &str) -> (digits: String)
    requires
        is_hyphenated_uuid(uuid@),
    ensures
        digits@ == digits_of(uuid@),
        is_application_id(digits@),
{
    let mut digits = String::from_str(uuid.substring_char(0, 8));
    digits.append(uuid.substring_char(9, 13));
    digits.append(uuid.substring_char(14, 18));
    digits.append(uuid.substring_char(19, 23));
    digits.append(uuid.substring_char(24, 36));
    proof {
        assert(digits@ =~= digits_of(uuid@));
        assert forall|i: int| 0 <= i < 32 implies is_lower_hex(#[trigger] digits@[i]) by {
            if i < 8 {
                assert(digits@[i] == uuid@[i]);
            } else if i < 12 {
                assert(digits@[i] == uuid@[i + 1]);
            } else if i < 16 {
                assert(digits@[i] == uuid@[i + 2]);
            } else if i < 20 {
                assert(digits@[i] == uuid@[i + 3]);
            } else {
                assert(digits@[i] == uuid@[i + 4]);
            }
        }
    }
    digits
}

/// Makes the id of a new application: the digits of a random UUID.
pub fn new_application_id() -> (id: String)
    ensures
        is_application_id(id@),
{
    let uuid = new_uuid();
    without_hyphens(uuid.as_str())
}

impl LogitechSettings {
    /// A custom application under a new id, for the program at `executable`
    /// whose file is called `name` and whose icon lies at `icon`.
    pub fn new_application(&self, name: String, executable: String, icon: String) -> (app:
        Application)
        ensures
            is_application_id(app.applicationId@),
            app@ == (ApplicationView {
                name: name@,
                applicationId: app.applicationId@,
                applicationPath: Some(executable@),
                databaseId: None,
                categoryColors: None,
                commands: None,
                version: None,
                isCustom: Some(true),
                posterPath: Some(icon@),
                applicationFolder: None,
                isInstalled: None,
                posterTitlePosition: None,
                posterUrl: None,
            }),
    {
        let app_id = new_application_id();
        Application::custom(name, app_id, executable, icon)
    }

    /// Makes a custom application for the program at `executable` and puts
    /// it into the settings with a first profile of its own, unless
    /// profiles under its new id are there already. Which id is drawn is
    /// left open; with no profile under an id of that shape in the settings
    /// the application is added whatever is drawn.
    pub fn create_application(&mut self, name: String, executable: String, icon: String) -> (added:
        Option<Application>)
        ensures
            !holds_made_id(profile_views(old(self)@.profiles)) ==> added is Some,
            added matches Some(app) ==> {
                &&& is_application_id(app.applicationId@)
                &&& app.name@ == name@
                &&& app.applicationPath matches Some(path) && path@ == executable@
                &&& app.posterPath matches Some(poster) && poster@ == icon@
                &&& app.isCustom == Some(true)
                &&& profile_views(old(self)@.profiles).filter(
                    belongs_to(app.applicationId@),
                ).len() == 0
                &&& final(self)@.keymapper == old(self)@.keymapper
                &&& application_views(final(self)@.applications) == with_application(
                    application_views(old(self)@.applications),
                    first_match(application_views(old(self)@.applications), has_id(app.applicationId@)),
                    app@,
                )
                &&& profile_views(final(self)@.profiles) == with_profile(
                    profile_views(old(self)@.profiles),
                    first_match(profile_views(old(self)@.profiles), is_profile(app.applicationId@)),
                    default_profile(app.applicationId@),
                )
            },
            added is None ==> final(self)@ == old(self)@,
    {
        let application = self.new_application(name, executable, icon);
        proof {
            lemma_profiles_under_made_id(
                profile_views(self@.profiles),
                application.applicationId@,
            );
        }
        self.add_application(application)
    }

    /// The application that the tile `game` stands for.
    pub fn app_from_game(&self, game: Game) -> (found: Option<Application>)
        ensures
            is_copy_of_first(application_views(self@.applications), has_id(game.id@), found),
    {
        let applications = &self.get_settings().applications.applications;
        match application_index(applications, &game.id) {
            Some(index) => Some(applications[index].clone()),
            None => None,
        }
    }

    /// Puts `application` into the settings with a first profile of its
    /// own, unless profiles of it are there already: then nothing changes
    /// and nothing is returned.
    pub fn add_application(&mut self, application: Application) -> (added: Option<Application>)
        ensures
            profile_views(old(self)@.profiles).filter(belongs_to(application.applicationId@)).len()
                > 0 ==> added is None && final(self)@ == old(self)@,
            profile_views(old(self)@.profiles).filter(belongs_to(application.applicationId@)).len()
                == 0 ==> {
                &&& added == Some(application)
                &&& final(self)@.keymapper == old(self)@.keymapper
                &&& application_views(final(self)@.applications) == with_application(
                    application_views(old(self)@.applications),
                    first_match(application_views(old(self)@.applications), has_id(application.applicationId@)),
                    application@,
                )
                &&& profile_views(final(self)@.profiles) == with_profile(
                    profile_views(old(self)@.profiles),
                    first_match(profile_views(old(self)@.profiles), is_profile(application.applicationId@)),
                    default_profile(application.applicationId@),
                )
            },
    {
        let profiles = self.get_profiles_for(&application);
        if profiles.len() == 0 {
            let first = Profile::default(&application.applicationId);
            self.commit(application.clone());
            self.commit(first);
            Some(application)
        } else {
            None
        }
    }

    /// The applications, copied.
    pub fn get_applications(&self) -> (applications: Vec<Application>)
        ensures
            application_views(applications@) == application_views(self@.applications),
    {
        clone_applications(&self.get_settings().applications.applications)
    }

    /// The first application that is installed in the folder `executable`.
    pub fn get_application(&self, executable: &String) -> (found: Option<Application>)
        ensures
            is_copy_of_first(application_views(self@.applications), lies_in(executable@), found),
    {
        let applications = &self.get_settings().applications.applications;
        let ghost pred = lies_in(executable@);
        let ghost views = application_views(applications@);
        let mut i: usize = 0;
        while i < applications.len()
            invariant
                i <= applications.len(),
                pred == lies_in(executable@),
                applications@ == self@.applications,
                views == application_views(applications@),
                forall|j: int| 0 <= j < i ==> !pred(#[trigger] views[j]),
            decreases applications.len() - i,
        {
            let matches = match &applications[i].applicationFolder {
                Some(folder) => *folder == *executable,
                None => false,
            };
            if matches {
                proof {
                    assert(is_first_match(views, pred, i as int));
                    lemma_first_match_found(views, pred, i as int);
                }
                return Some(applications[i].clone());
            }
            i += 1;
        }
        proof {
            lemma_first_match_none(views, pred);
        }
        None
    }

    /// The desktop: the first application with the desktop's name and no path.
    pub fn get_desktop_application(&self) -> (found: Option<Application>)
        ensures
            is_copy_of_first(application_views(self@.applications), is_desktop(), found),
    {
        let applications = &self.get_settings().applications.applications;
        let desktop = String::from_str(APPLICATION_NAME_DESKTOP);
        let ghost pred = is_desktop();
        let ghost views = application_views(applications@);
        let mut i: usize = 0;
        while i < applications.len()
            invariant
                i <= applications.len(),
                pred == is_desktop(),
                applications@ == self@.applications,
                views == application_views(applications@),
                desktop@ == APPLICATION_NAME_DESKTOP@,
                forall|j: int| 0 <= j < i ==> !pred(#[trigger] views[j]),
            decreases applications.len() - i,
        {
            if applications[i].name == desktop && applications[i].applicationPath.is_none() {
                proof {
                    assert(is_first_match(views, pred, i as int));
                    lemma_first_match_found(views, pred, i as int);
                }
                return Some(applications[i].clone());
            }
            i += 1;
        }
        proof {
            lemma_first_match_none(views, pred);
        }
        None
    }

    /// The applications with `application` in the place of the first one
    /// that has its id; nothing where none has it.
    pub fn update_application(&self, application: &Application) -> (updated: Option<
        Vec<Application>,
    >)
        ensures
            match first_match(
                application_views(self@.applications),
                has_id(application.applicationId@),
            ) {
                Some(at) => updated matches Some(list) && application_views(list@)
                    == application_views(self@.applications).update(at, application@),
                None => updated is None,
            },
    {
        let mut apps = self.get_applications();
        let ghost views = application_views(self@.applications);
        match application_index(
            &self.get_settings().applications.applications,
            &application.applicationId,
        ) {
            Some(index) => {
                assert(apps@.len() == views.len());
                apps.set(index, application.clone());
                assert(application_views(apps@) =~= views.update(index as int, application@));
                Some(apps)
            },
            None => None,
        }
    }

    /// The applications without the first one that has the id of
    /// `application`; nothing where none has it.
    pub fn remove_application(&self, application: Application) -> (remaining: Option<
        Vec<Application>,
    >)
        ensures
            match first_match(
                application_views(self@.applications),
                has_id(application.applicationId@),
            ) {
                Some(at) => remaining matches Some(list) && application_views(list@)
                    == application_views(self@.applications).remove(at),
                None => remaining is None,
            },
    {
        let mut apps = self.get_applications();
        let ghost views = application_views(self@.applications);
        match application_index(
            &self.get_settings().applications.applications,
            &application.applicationId,
        ) {
            Some(index) => {
                assert(apps@.len() == views.len());
                apps.remove(index);
                assert(application_views(apps@) =~= views.remove(index as int));
                Some(apps)
            },
            None => None,
        }
    }
}

impl Commit<Application> for LogitechSettings {
    /// Puts `settings` in the place of the first application that has its
    /// id, or behind all applications where none has it.
    fn commit(&mut self, settings: Application)
        ensures
            final(self)@.profiles == old(self)@.profiles,
            final(self)@.keymapper == old(self)@.keymapper,
            application_views(final(self)@.applications) == with_application(
                application_views(old(self)@.applications),
                first_match(application_views(old(self)@.applications), has_id(settings.applicationId@)),
                settings@,
            ),
    {
        match self.update_application(&settings) {
            Some(updated) => {
                self.commit(updated);
            },
            None => {
                let mut apps = self.get_applications();
                let ghost before = apps@;
                apps.push(settings);
                assert(application_views(before.push(settings)) =~= application_views(
                    before,
                ).push(settings@));
                self.commit(apps);
            },
        }
    }
}

/// Profiles that belong to an id of the shape of a made id are profiles
/// under a made id.
pub proof fn lemma_profiles_under_made_id(profiles: Seq<ProfileView>, id: Seq<char>)
    requires
        is_application_id(id),
    ensures
        profiles.filter(belongs_to(id)).len() > 0 ==> holds_made_id(profiles),
{
    let found = profiles.filter(belongs_to(id));
    if found.len() > 0 {
        profiles.lemma_filter_pred(belongs_to(id), 0);
        assert(found.contains(found[0]));
        profiles.lemma_filter_contains_rev(belongs_to(id), found[0]);
        let i = choose|i: int| 0 <= i < profiles.len() && profiles[i] == found[0];
        assert(is_application_id(profiles[i].applicationId));
    }
}

/// Putting an application in twice is putting it in once.
pub proof fn lemma_commit_twice(applications: Seq<ApplicationView>, application: ApplicationView)
    ensures
        ({
            let once = with_application(
                applications,
                first_match(applications, has_id(application.applicationId)),
                application,
            );
            with_application(
                once,
                first_match(once, has_id(application.applicationId)),
                application,
            ) == once
        }),
{
    let pred = has_id(application.applicationId);
    let once = with_application(applications, first_match(applications, pred), application);
    crate::seqs::lemma_first_match_is_first(applications, pred);
    let at = match first_match(applications, pred) {
        Some(at) => at,
        None => applications.len() as int,
    };
    assert(pred(application));
    assert(is_first_match(once, pred, at));
    lemma_first_match_found(once, pred, at);
    assert(once.update(at, application) =~= once);
}

} // verus!
