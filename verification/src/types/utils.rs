//! What the window shows of an application, a profile and a rule, and how
//! the records of the settings are turned into it.

use vstd::prelude::*;
use vstd::string::StrSliceExecFns;
use crate::types::gprofiles::Keybind;
use crate::types::{Application, ApplicationView, Profile, ProfileView};
use crate::utils::PROFILE_NAME_DEFAULT;

verus! {

/// The kind of an application in the list of the window.
#[derive(Clone, Copy, Debug, PartialEq, Eq, Structural)]
pub enum ApplicationType {
    Desktop,
    Installed,
}

/// One application as the window lists it.
#[derive(Debug, PartialEq)]
pub struct ApplicationModel {
    pub executable: String,
    pub id: String,
    pub image_path: String,
    pub name: String,
    pub kind: ApplicationType,
    pub display_name: String,
}

/// What a listed application holds, with its texts as sequences.
pub struct ApplicationModelView {
    pub executable: Seq<char>,
    pub id: Seq<char>,
    pub image_path: Seq<char>,
    pub name: Seq<char>,
    pub kind: ApplicationType,
    pub display_name: Seq<char>,
}

impl View for ApplicationModel {
    type V = ApplicationModelView;

    open spec fn view(&self) -> ApplicationModelView {
        ApplicationModelView {
            executable: self.executable@,
            id: self.id@,
            image_path: self.image_path@,
            name: self.name@,
            kind: self.kind,
            display_name: self.display_name@,
        }
    }
}

impl Clone for ApplicationModel {
    fn clone(&self) -> (copy: Self)
        ensures
            copy == *self,
    {
        ApplicationModel {
            executable: self.executable.clone(),
            id: self.id.clone(),
            image_path: self.image_path.clone(),
            name: self.name.clone(),
            kind: self.kind,
            display_name: self.display_name.clone(),
        }
    }
}

/// One profile as the window lists it.
#[derive(Debug, PartialEq)]
pub struct ProfileModel {
    pub id: String,
    pub name: String,
    pub active: bool,
    pub application: String,
    pub display_name: String,
}

/// What a listed profile holds, with its texts as sequences.
pub struct ProfileModelView {
    pub id: Seq<char>,
    pub name: Seq<char>,
    pub active: bool,
    pub application: Seq<char>,
    pub display_name: Seq<char>,
}

impl View for ProfileModel {
    type V = ProfileModelView;

    open spec fn view(&self) -> ProfileModelView {
        ProfileModelView {
            id: self.id@,
            name: self.name@,
            active: self.active,
            application: self.application@,
            display_name: self.display_name@,
        }
    }
}

impl Clone for ProfileModel {
    fn clone(&self) -> (copy: Self)
        ensures
            copy == *self,
    {
        ProfileModel {
            id: self.id.clone(),
            name: self.name.clone(),
            active: self.active,
            application: self.application.clone(),
            display_name: self.display_name.clone(),
        }
    }
}

/// One rule as the window lists it.
#[derive(Debug, PartialEq)]
pub struct KeybindModel {
    pub input: String,
    pub output: String,
    pub vk_input: i32,
    pub vk_output: i32,
}

impl Clone for KeybindModel {
    fn clone(&self) -> (copy: Self)
        ensures
            copy == *self,
    {
        KeybindModel {
            input: self.input.clone(),
            output: self.output.clone(),
            vk_input: self.vk_input,
            vk_output: self.vk_output,
        }
    }
}

/// What the window lists for an application: with a poster of its own or
/// the address of one it is listed as installed under that poster, and
/// otherwise as the desktop.
pub open spec fn application_model(app: ApplicationView) -> ApplicationModelView {
    let executable = match app.applicationPath {
        Some(path) => path,
        None => Seq::empty(),
    };
    match (app.posterPath, app.posterUrl) {
        (Some(poster), _) => ApplicationModelView {
            executable,
            id: app.applicationId,
            image_path: poster,
            name: app.name,
            kind: ApplicationType::Installed,
            display_name: Seq::empty(),
        },
        (None, Some(url)) => ApplicationModelView {
            executable,
            id: app.applicationId,
            image_path: url,
            name: app.name,
            kind: ApplicationType::Installed,
            display_name: Seq::empty(),
        },
        (None, None) => ApplicationModelView {
            executable,
            id: app.applicationId,
            image_path: Seq::empty(),
            name: app.name,
            kind: ApplicationType::Desktop,
            display_name: "Desktop"@,
        },
    }
}

/// What the window lists for a profile: a first profile under the name
/// "Default", any other under its own.
pub open spec fn profile_model(profile: ProfileView) -> ProfileModelView {
    ProfileModelView {
        id: profile.id,
        name: profile.name,
        active: profile.activeForApplication == Some(true),
        application: profile.applicationId,
        display_name: if profile.name == PROFILE_NAME_DEFAULT@ {
            "Default"@
        } else {
            profile.name
        },
    }
}

/// What the window lists for a rule.
pub open spec fn keybind_model(keybind: Keybind) -> KeybindModel {
    KeybindModel {
        input: keybind.input,
        output: keybind.output,
        vk_input: keybind.virtual_input,
        vk_output: keybind.virtual_output,
    }
}

/// The part of `url` behind its last slash, and all of it where it has none.
pub open spec fn last_segment(url: Seq<char>) -> Seq<char>
    decreases url.len(),
{
    if url.len() == 0 {
        url
    } else if url.last() == '/' {
        Seq::empty()
    } else {
        last_segment(url.drop_last()).push(url.last())
    }
}

/// A record of the settings that the window can list as a `T`.
pub trait Component<T> {
    /// What the window lists for this record.
    fn as_component(&self) -> T;
}

impl Component<ApplicationModel> for Application {
    fn as_component(&self) -> (model: ApplicationModel)
        ensures
            model@ == application_model(self@),
    {
        let executable = match &self.applicationPath {
            Some(path) => path.clone(),
            None => String::new(),
        };
        let id = self.applicationId.clone();
        let name = self.name.clone();
        match (&self.posterPath, &self.posterUrl) {
            (Some(poster_path), _) => ApplicationModel {
                executable,
                id,
                image_path: poster_path.clone(),
                name,
                kind: ApplicationType::Installed,
                display_name: String::new(),
            },
            (None, Some(poster_url)) => ApplicationModel {
                executable,
                id,
                image_path: poster_url.clone(),
                name,
                kind: ApplicationType::Installed,
                display_name: String::new(),
            },
            _ => ApplicationModel {
                executable,
                id,
                image_path: String::new(),
                name,
                kind: ApplicationType::Desktop,
                display_name: String::from_str("Desktop"),
            },
        }
    }
}

impl Component<Vec<ApplicationModel>> for Vec<Application> {
    fn as_component(&self) -> (models: Vec<ApplicationModel>)
        ensures
            models@.map_values(|model: ApplicationModel| model@) == self@.map_values(
                |app: Application| application_model(app@),
            ),
    {
        let mut models: Vec<ApplicationModel> = Vec::new();
        let mut i: usize = 0;
        while i < self.len()
            invariant
                i <= self.len(),
                models@.map_values(|model: ApplicationModel| model@) == self@.take(
                    i as int,
                ).map_values(|app: Application| application_model(app@)),
            decreases self.len() - i,
        {
            let model: ApplicationModel = self[i].as_component();
            let ghost before = models@;
            models.push(model);
            proof {
                assert(before.push(model).map_values(|model: ApplicationModel| model@)
                    =~= before.map_values(|model: ApplicationModel| model@).push(model@));
                assert(self@.take(i + 1).map_values(|app: Application| application_model(app@))
                    =~= self@.take(i as int).map_values(
                    |app: Application| application_model(app@),
                ).push(application_model(self@[i as int]@)));
            }
            i += 1;
        }
        proof {
            assert(self@.take(self.len() as int) == self@);
        }
        models
    }
}

impl Component<ProfileModel> for Profile {
    fn as_component(&self) -> (model: ProfileModel)
        ensures
            model@ == profile_model(self@),
    {
        let first = self.name == String::from_str(PROFILE_NAME_DEFAULT);
        ProfileModel {
            id: self.id.clone(),
            name: self.name.clone(),
            active: match self.activeForApplication {
                Some(active) => active,
                None => false,
            },
            application: self.applicationId.clone(),
            display_name: if first {
                String::from_str("Default")
            } else {
                self.name.clone()
            },
        }
    }
}

impl Component<Vec<ProfileModel>> for Vec<Profile> {
    fn as_component(&self) -> (models: Vec<ProfileModel>)
        ensures
            models@.map_values(|model: ProfileModel| model@) == self@.map_values(
                |profile: Profile| profile_model(profile@),
            ),
    {
        let mut models: Vec<ProfileModel> = Vec::new();
        let mut i: usize = 0;
        while i < self.len()
            invariant
                i <= self.len(),
                models@.map_values(|model: ProfileModel| model@) == self@.take(
                    i as int,
                ).map_values(|profile: Profile| profile_model(profile@)),
            decreases self.len() - i,
        {
            let model: ProfileModel = self[i].as_component();
            let ghost before = models@;
            models.push(model);
            proof {
                assert(before.push(model).map_values(|model: ProfileModel| model@)
                    =~= before.map_values(|model: ProfileModel| model@).push(model@));
                assert(self@.take(i + 1).map_values(|profile: Profile| profile_model(profile@))
                    =~= self@.take(i as int).map_values(
                    |profile: Profile| profile_model(profile@),
                ).push(profile_model(self@[i as int]@)));
            }
            i += 1;
        }
        proof {
            assert(self@.take(self.len() as int) == self@);
        }
        models
    }
}

impl Component<KeybindModel> for Keybind {
    fn as_component(&self) -> (model: KeybindModel)
        ensures
            model == keybind_model(*self),
    {
        KeybindModel {
            input: self.input.clone(),
            output: self.output.clone(),
            vk_input: self.virtual_input,
            vk_output: self.virtual_output,
        }
    }
}

impl Component<Vec<KeybindModel>> for Vec<Keybind> {
    fn as_component(&self) -> (models: Vec<KeybindModel>)
        ensures
            models@ == self@.map_values(|keybind: Keybind| keybind_model(keybind)),
    {
        let mut models: Vec<KeybindModel> = Vec::new();
        let mut i: usize = 0;
        while i < self.len()
            invariant
                i <= self.len(),
                models@ == self@.take(i as int).map_values(
                    |keybind: Keybind| keybind_model(keybind),
                ),
            decreases self.len() - i,
        {
            let model: KeybindModel = self[i].as_component();
            models.push(model);
            proof {
                assert(models@ =~= self@.take(i + 1).map_values(
                    |keybind: Keybind| keybind_model(keybind),
                ));
            }
            i += 1;
        }
        proof {
            assert(self@.take(self.len() as int) == self@);
        }
        models
    }
}

/// Returns the part of `url` behind its last slash: the name of the file
/// that an address points to.
pub fn poster_name(url: &str) -> (name: String)
    ensures
        name@ == last_segment(url@),
{
    let total = url.unicode_len();
    let mut start: usize = 0;
    let mut length: usize = 0;
    for c in iter: url.chars()
        invariant
            iter.seq() == url@,
            total == url@.len(),
            length == iter.index(),
            start <= length,
            last_segment(url@.take(length as int)) == url@.subrange(start as int, length as int),
    {
        proof {
            assert(url@.take(length + 1).drop_last() == url@.take(length as int));
            assert(url@.take(length + 1).last() == url@[length as int]);
            assert(url@.subrange(start as int, length as int).push(url@[length as int])
                =~= url@.subrange(start as int, length + 1));
            assert(url@.subrange(length + 1, length + 1) =~= Seq::<char>::empty());
        }
        length += 1;
        if c == '/' {
            start = length;
        }
    }
    proof {
        assert(url@.take(url@.len() as int) == url@);
    }
    String::from_str(url.substring_char(start, total))
}

} // verus!
