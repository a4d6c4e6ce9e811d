//! The records of the vendor's settings store: applications, their profiles
//! and what belongs to them.
#![allow(non_snake_case)]

pub mod gprofiles;
pub mod logitech;
pub mod utils;

use vstd::prelude::*;
use crate::seqs::{
    first_match, is_first_match, lemma_filter_empty, lemma_filter_step, lemma_first_match_found,
    lemma_first_match_none,
};
use crate::utils::{APPLICATION_NAME_DESKTOP, PROFILE_NAME_DEFAULT};

verus! {

/// A colour that the vendor's tool shows for a category of commands.
#[derive(Debug, PartialEq)]
pub struct CategoryColors {
    pub hex: String,
    pub tag: String,
}

impl Clone for CategoryColors {
    fn clone(&self) -> (copy: Self)
        ensures
            copy == *self,
    {
        CategoryColors { hex: self.hex.clone(), tag: self.tag.clone() }
    }
}

/// A command that an application offers for assignment.
#[derive(Debug, PartialEq)]
pub struct Command {
    pub cardId: String,
    pub category: String,
    pub name: String,
}

impl Clone for Command {
    fn clone(&self) -> (copy: Self)
        ensures
            copy == *self,
    {
        Command {
            cardId: self.cardId.clone(),
            category: self.category.clone(),
            name: self.name.clone(),
        }
    }
}

/// The assignment of a card to a slot of a device.
#[derive(Debug, PartialEq)]
pub struct Assignment {
    pub cardId: String,
    pub slotId: String,
}

impl Clone for Assignment {
    fn clone(&self) -> (copy: Self)
        ensures
            copy == *self,
    {
        Assignment { cardId: self.cardId.clone(), slotId: self.slotId.clone() }
    }
}

/// One application of the settings store. Which of the optional fields are
/// set tells its kind: the desktop, an installed application that the vendor
/// knows, or a custom one that the user added.
#[derive(Debug)]
pub struct Application {
    pub name: String,
    pub applicationId: String,
    pub applicationPath: Option<String>,
    pub databaseId: Option<String>,
    pub categoryColors: Option<Vec<CategoryColors>>,
    pub commands: Option<Vec<Command>>,
    pub version: Option<usize>,
    pub isCustom: Option<bool>,
    pub posterPath: Option<String>,
    pub applicationFolder: Option<String>,
    pub isInstalled: Option<bool>,
    pub posterTitlePosition: Option<String>,
    pub posterUrl: Option<String>,
}

/// What an application holds, with its texts and lists as sequences.
pub struct ApplicationView {
    pub name: Seq<char>,
    pub applicationId: Seq<char>,
    pub applicationPath: Option<Seq<char>>,
    pub databaseId: Option<Seq<char>>,
    pub categoryColors: Option<Seq<CategoryColors>>,
    pub commands: Option<Seq<Command>>,
    pub version: Option<usize>,
    pub isCustom: Option<bool>,
    pub posterPath: Option<Seq<char>>,
    pub applicationFolder: Option<Seq<char>>,
    pub isInstalled: Option<bool>,
    pub posterTitlePosition: Option<Seq<char>>,
    pub posterUrl: Option<Seq<char>>,
}

/// The characters of an optional text.
pub open spec fn text_of(text: Option<String>) -> Option<Seq<char>> {
    match text {
        Some(held) => Some(held@),
        None => None,
    }
}

/// The items of an optional list.
pub open spec fn items_of<T>(list: Option<Vec<T>>) -> Option<Seq<T>> {
    match list {
        Some(items) => Some(items@),
        None => None,
    }
}

impl View for Application {
    type V = ApplicationView;

    open spec fn view(&self) -> ApplicationView {
        ApplicationView {
            name: self.name@,
            applicationId: self.applicationId@,
            applicationPath: text_of(self.applicationPath),
            databaseId: text_of(self.databaseId),
            categoryColors: items_of(self.categoryColors),
            commands: items_of(self.commands),
            version: self.version,
            isCustom: self.isCustom,
            posterPath: text_of(self.posterPath),
            applicationFolder: text_of(self.applicationFolder),
            isInstalled: self.isInstalled,
            posterTitlePosition: text_of(self.posterTitlePosition),
            posterUrl: text_of(self.posterUrl),
        }
    }
}

/// Copies an optional text.
fn clone_text(text: &Option<String>) -> (copy: Option<String>)
    ensures
        copy == *text,
{
    match text {
        Some(value) => Some(value.clone()),
        None => None,
    }
}

impl Clone for Application {
    fn clone(&self) -> (copy: Self)
        ensures
            copy@ == self@,
    {
        let categoryColors = match &self.categoryColors {
            Some(colors) => {
                let copies = colors.clone();
                assert(copies@ =~= colors@);
                Some(copies)
            },
            None => None,
        };
        let commands = match &self.commands {
            Some(commands) => {
                let copies = commands.clone();
                assert(copies@ =~= commands@);
                Some(copies)
            },
            None => None,
        };
        Application {
            name: self.name.clone(),
            applicationId: self.applicationId.clone(),
            applicationPath: clone_text(&self.applicationPath),
            isCustom: self.isCustom,
            posterPath: clone_text(&self.posterPath),
            applicationFolder: clone_text(&self.applicationFolder),
            categoryColors,
            commands,
            databaseId: clone_text(&self.databaseId),
            isInstalled: self.isInstalled,
            posterTitlePosition: clone_text(&self.posterTitlePosition),
            posterUrl: clone_text(&self.posterUrl),
            version: self.version,
        }
    }
}

impl PartialEq for Application {
    /// Two applications are the same application when their ids are equal.
    fn eq(&self, other: &Self) -> (same: bool) {
        self.applicationId == other.applicationId
    }
}

impl vstd::std_specs::cmp::PartialEqSpecImpl for Application {
    open spec fn obeys_eq_spec() -> bool {
        true
    }

    open spec fn eq_spec(&self, other: &Self) -> bool {
        self.applicationId@ == other.applicationId@
    }
}

impl Application {
    /// An application with a name and an id and nothing else.
    pub fn new(name: &String, applicationId: &String) -> (app: Application)
        ensures
            app@ == (ApplicationView {
                name: name@,
                applicationId: applicationId@,
                applicationPath: None,
                databaseId: None,
                categoryColors: None,
                commands: None,
                version: None,
                isCustom: None,
                posterPath: None,
                applicationFolder: None,
                isInstalled: None,
                posterTitlePosition: None,
                posterUrl: None,
            }),
    {
        Application {
            name: name.clone(),
            applicationId: applicationId.clone(),
            applicationPath: None,
            databaseId: None,
            categoryColors: None,
            commands: None,
            version: None,
            isCustom: None,
            posterPath: None,
            applicationFolder: None,
            isInstalled: None,
            posterTitlePosition: None,
            posterUrl: None,
        }
    }

    /// An application that the user added: it has a path and a poster of its own.
    pub fn custom(
        name: String,
        applicationId: String,
        applicationPath: String,
        posterPath: String,
    ) -> (app: Application)
        ensures
            app@ == (ApplicationView {
                name: name@,
                applicationId: applicationId@,
                applicationPath: Some(applicationPath@),
                databaseId: None,
                categoryColors: None,
                commands: None,
                version: None,
                isCustom: Some(true),
                posterPath: Some(posterPath@),
                applicationFolder: None,
                isInstalled: None,
                posterTitlePosition: None,
                posterUrl: None,
            }),
    {
        let mut app = Application::new(&name, &applicationId);
        app.applicationPath = Some(applicationPath);
        app.posterPath = Some(posterPath);
        app.isCustom = Some(true);
        app
    }

    /// An application that the vendor knows and found installed.
    pub fn installed(
        name: String,
        applicationId: String,
        applicationPath: String,
        applicationFolder: String,
        categoryColors: Vec<CategoryColors>,
        commands: Vec<Command>,
        posterTitlePosition: String,
        posterUrl: String,
        version: usize,
    ) -> (app: Application)
        ensures
            app@ == (ApplicationView {
                name: name@,
                applicationId: applicationId@,
                applicationPath: Some(applicationPath@),
                databaseId: Some(applicationId@),
                categoryColors: Some(categoryColors@),
                commands: Some(commands@),
                version: Some(version),
                isCustom: None,
                posterPath: None,
                applicationFolder: Some(applicationFolder@),
                isInstalled: Some(true),
                posterTitlePosition: Some(posterTitlePosition@),
                posterUrl: Some(posterUrl@),
            }),
    {
        let mut app = Application::new(&name, &applicationId);
        app.applicationPath = Some(applicationPath);
        app.databaseId = Some(applicationId);
        app.categoryColors = Some(categoryColors);
        app.commands = Some(commands);
        app.version = Some(version);
        app.applicationFolder = Some(applicationFolder);
        app.isInstalled = Some(true);
        app.posterTitlePosition = Some(posterTitlePosition);
        app.posterUrl = Some(posterUrl);
        app
    }

    /// The desktop: the application that stands for no application in front.
    pub fn desktop(
        applicationId: String,
        categoryColors: Vec<CategoryColors>,
        commands: Vec<Command>,
        version: usize,
    ) -> (app: Application)
        ensures
            app@ == (ApplicationView {
                name: APPLICATION_NAME_DESKTOP@,
                applicationId: applicationId@,
                applicationPath: None,
                databaseId: Some(applicationId@),
                categoryColors: Some(categoryColors@),
                commands: Some(commands@),
                version: Some(version),
                isCustom: None,
                posterPath: None,
                applicationFolder: None,
                isInstalled: None,
                posterTitlePosition: None,
                posterUrl: None,
            }),
    {
        let mut app = Application::new(&String::from_str(APPLICATION_NAME_DESKTOP), &applicationId);
        app.categoryColors = Some(categoryColors);
        app.commands = Some(commands);
        app.databaseId = Some(applicationId);
        app.version = Some(version);
        app
    }

    /// Takes over every field of `app`.
    pub fn update(&mut self, app: Application)
        ensures
            *final(self) == app,
            final(self)@ == app@,
    {
        self.name = app.name;
        self.applicationId = app.applicationId;
        self.applicationPath = app.applicationPath;
        self.databaseId = app.databaseId;
        self.categoryColors = app.categoryColors;
        self.commands = app.commands;
        self.version = app.version;
        self.isCustom = app.isCustom;
        self.posterPath = app.posterPath;
        self.applicationFolder = app.applicationFolder;
        self.isInstalled = app.isInstalled;
        self.posterTitlePosition = app.posterTitlePosition;
        self.posterUrl = app.posterUrl;
    }
}

/// One profile of an application: a named set of assignments.
#[derive(Debug)]
pub struct Profile {
    pub activeForApplication: Option<bool>,
    pub applicationId: String,
    pub id: String,
    pub name: String,
    pub assignments: Vec<Assignment>,
}

/// What a profile holds, with its texts and assignments as sequences.
pub struct ProfileView {
    pub activeForApplication: Option<bool>,
    pub applicationId: Seq<char>,
    pub id: Seq<char>,
    pub name: Seq<char>,
    pub assignments: Seq<Assignment>,
}

/// The first profile of the application `id`: active, named as the store
/// names a default profile, with nothing assigned.
pub open spec fn default_profile(id: Seq<char>) -> ProfileView {
    ProfileView {
        activeForApplication: Some(true),
        applicationId: id,
        id,
        name: PROFILE_NAME_DEFAULT@,
        assignments: Seq::empty(),
    }
}

impl View for Profile {
    type V = ProfileView;

    open spec fn view(&self) -> ProfileView {
        ProfileView {
            activeForApplication: self.activeForApplication,
            applicationId: self.applicationId@,
            id: self.id@,
            name: self.name@,
            assignments: self.assignments@,
        }
    }
}

impl Clone for Profile {
    fn clone(&self) -> (copy: Self)
        ensures
            copy@ == self@,
    {
        let assignments = self.assignments.clone();
        assert(assignments@ =~= self.assignments@);
        Profile {
            activeForApplication: self.activeForApplication,
            applicationId: self.applicationId.clone(),
            id: self.id.clone(),
            name: self.name.clone(),
            assignments,
        }
    }
}

impl PartialEq for Profile {
    /// Two profiles are the same profile when their ids are equal.
    fn eq(&self, other: &Self) -> (same: bool) {
        self.id == other.id
    }
}

impl vstd::std_specs::cmp::PartialEqSpecImpl for Profile {
    open spec fn obeys_eq_spec() -> bool {
        true
    }

    open spec fn eq_spec(&self, other: &Self) -> bool {
        self.id@ == other.id@
    }
}

impl Profile {
    /// The first profile of the application `id`: active, named as the
    /// store names a default profile, with nothing assigned.
    pub fn default(id: &String) -> (profile: Profile)
        ensures
            profile@ == default_profile(id@),
    {
        Profile {
            activeForApplication: Some(true),
            applicationId: id.clone(),
            id: id.clone(),
            name: String::from_str(PROFILE_NAME_DEFAULT),
            assignments: Vec::new(),
        }
    }
}

/// The applications of the settings store.
#[derive(Debug)]
pub struct InnerApplications {
    pub applications: Vec<Application>,
}

/// The profiles of the settings store.
#[derive(Debug)]
pub struct InnerProfiles {
    pub profiles: Vec<Profile>,
}

/// The part of the settings store that this crate reads and writes.
#[derive(Debug)]
pub struct JsonData {
    pub applications: InnerApplications,
    pub profiles: InnerProfiles,
}

/// What the applications hold, one view for each.
pub open spec fn application_views(applications: Seq<Application>) -> Seq<ApplicationView> {
    applications.map_values(|app: Application| app@)
}

/// What the profiles hold, one view for each.
pub open spec fn profile_views(profiles: Seq<Profile>) -> Seq<ProfileView> {
    profiles.map_values(|profile: Profile| profile@)
}

/// The test "is the application with the id `id`".
pub open spec fn has_id(id: Seq<char>) -> spec_fn(ApplicationView) -> bool {
    |app: ApplicationView| app.applicationId == id
}

/// The test "is an application with the name `name`".
pub open spec fn has_name(name: Seq<char>) -> spec_fn(ApplicationView) -> bool {
    |app: ApplicationView| app.name == name
}

/// The test "is the profile with the id `id`".
pub open spec fn is_profile(id: Seq<char>) -> spec_fn(ProfileView) -> bool {
    |profile: ProfileView| profile.id == id
}

/// The test "belongs to the application `id`".
pub open spec fn belongs_to(id: Seq<char>) -> spec_fn(ProfileView) -> bool {
    |profile: ProfileView| profile.applicationId == id
}

/// The test "does not belong to the application `id`".
pub open spec fn belongs_elsewhere(id: Seq<char>) -> spec_fn(ProfileView) -> bool {
    |profile: ProfileView| profile.applicationId != id
}

/// Copies a list of applications.
pub fn clone_applications(applications: &Vec<Application>) -> (copies: Vec<Application>)
    ensures
        application_views(copies@) == application_views(applications@),
{
    let copies = applications.clone();
    assert(application_views(copies@) =~= application_views(applications@));
    copies
}

/// Copies a list of profiles.
pub fn clone_profiles(profiles: &Vec<Profile>) -> (copies: Vec<Profile>)
    ensures
        profile_views(copies@) == profile_views(profiles@),
{
    let copies = profiles.clone();
    assert(profile_views(copies@) =~= profile_views(profiles@));
    copies
}

/// The place of the first application with the id `id`.
pub fn application_index(applications: &Vec<Application>, id: &String) -> (index: Option<usize>)
    ensures
        match index {
            Some(at) => at < applications.len() && first_match(
                application_views(applications@),
                has_id(id@),
            ) == Some(at as int),
            None => first_match(application_views(applications@), has_id(id@)) is None,
        },
{
    let ghost pred = has_id(id@);
    let ghost views = application_views(applications@);
    let mut i: usize = 0;
    while i < applications.len()
        invariant
            i <= applications.len(),
            pred == has_id(id@),
            views == application_views(applications@),
            forall|j: int| 0 <= j < i ==> !pred(#[trigger] views[j]),
        decreases applications.len() - i,
    {
        if applications[i].applicationId == *id {
            proof {
                assert(is_first_match(views, pred, i as int));
                lemma_first_match_found(views, pred, i as int);
            }
            return Some(i);
        }
        i += 1;
    }
    proof {
        lemma_first_match_none(views, pred);
    }
    None
}

/// The place of the first profile with the id `id`.
pub fn profile_index(profiles: &Vec<Profile>, id: &String) -> (index: Option<usize>)
    ensures
        match index {
            Some(at) => at < profiles.len() && first_match(
                profile_views(profiles@),
                is_profile(id@),
            ) == Some(at as int),
            None => first_match(profile_views(profiles@), is_profile(id@)) is None,
        },
{
    let ghost pred = is_profile(id@);
    let ghost views = profile_views(profiles@);
    let mut i: usize = 0;
    while i < profiles.len()
        invariant
            i <= profiles.len(),
            pred == is_profile(id@),
            views == profile_views(profiles@),
            forall|j: int| 0 <= j < i ==> !pred(#[trigger] views[j]),
        decreases profiles.len() - i,
    {
        if profiles[i].id == *id {
            proof {
                assert(is_first_match(views, pred, i as int));
                lemma_first_match_found(views, pred, i as int);
            }
            return Some(i);
        }
        i += 1;
    }
    proof {
        lemma_first_match_none(views, pred);
    }
    None
}

/// The profiles that belong to the application `id` when `wanted` is true,
/// and those that do not when it is false, in their order.
pub fn profiles_by_application(profiles: &Vec<Profile>, id: &String, wanted: bool) -> (chosen: Vec<
    Profile,
>)
    ensures
        profile_views(chosen@) == profile_views(profiles@).filter(
            if wanted {
                belongs_to(id@)
            } else {
                belongs_elsewhere(id@)
            },
        ),
{
    let mut chosen: Vec<Profile> = Vec::new();
    let ghost pred = if wanted {
        belongs_to(id@)
    } else {
        belongs_elsewhere(id@)
    };
    let ghost all = profile_views(profiles@);
    proof {
        lemma_filter_empty(all.take(0), pred);
        assert(profile_views(chosen@) =~= Seq::<ProfileView>::empty());
    }
    let mut i: usize = 0;
    while i < profiles.len()
        invariant
            i <= profiles.len(),
            pred == if wanted {
                belongs_to(id@)
            } else {
                belongs_elsewhere(id@)
            },
            all == profile_views(profiles@),
            profile_views(chosen@) == all.take(i as int).filter(pred),
        decreases profiles.len() - i,
    {
        proof {
            lemma_filter_step(all, pred, i as int);
        }
        if (profiles[i].applicationId == *id) == wanted {
            let copy = profiles[i].clone();
            let ghost before = chosen@;
            chosen.push(copy);
            proof {
                assert(profile_views(before.push(copy)) =~= profile_views(before).push(copy@));
            }
        }
        i += 1;
    }
    proof {
        assert(all.take(profiles.len() as int) == all);
    }
    chosen
}

} // verus!
