//! The profiles of the settings: those of one application, the first
//! profile of an application, and the lists that replace or drop profiles.

use vstd::prelude::*;
use crate::seqs::{first_match, is_first_match, lemma_first_match_found, lemma_first_match_none};
use crate::settings::applications::with_profile;
use crate::settings::{Commit, LogitechSettings};
use crate::types::{
    belongs_elsewhere, belongs_to, clone_profiles, is_profile, profile_index, profile_views,
    profiles_by_application, Application, Profile, ProfileView,
};
use crate::utils::PROFILE_NAME_DEFAULT;

verus! {

/// The test "is named as a first profile is".
pub open spec fn is_default_profile() -> spec_fn(ProfileView) -> bool {
    |profile: ProfileView| profile.name == PROFILE_NAME_DEFAULT@
}

impl LogitechSettings {
    /// The profiles, copied.
    pub fn get_profiles(&self) -> (profiles: Vec<Profile>)
        ensures
            profile_views(profiles@) == profile_views(self@.profiles),
    {
        clone_profiles(&self.get_settings().profiles.profiles)
    }

    /// The profiles of `app`, in the order of the settings.
    pub fn get_profiles_for(&self, app: &Application) -> (profiles: Vec<Profile>)
        ensures
            profile_views(profiles@) == profile_views(self@.profiles).filter(
                belongs_to(app.applicationId@),
            ),
    {
        profiles_by_application(&self.get_settings().profiles.profiles, &app.applicationId, true)
    }

    /// The first of `profiles` that is named as a first profile is.
    pub fn get_default_profile(&self, profiles: Vec<Profile>) -> (found: Option<Profile>)
        ensures
            match first_match(profile_views(profiles@), is_default_profile()) {
                Some(at) => found matches Some(profile) && profile@ == profiles@[at]@,
                None => found is None,
            },
    {
        let name = String::from_str(PROFILE_NAME_DEFAULT);
        let ghost pred = is_default_profile();
        let ghost views = profile_views(profiles@);
        let mut i: usize = 0;
        while i < profiles.len()
            invariant
                i <= profiles.len(),
                pred == is_default_profile(),
                views == profile_views(profiles@),
                name@ == PROFILE_NAME_DEFAULT@,
                forall|j: int| 0 <= j < i ==> !pred(#[trigger] views[j]),
            decreases profiles.len() - i,
        {
            if profiles[i].name == name {
                proof {
                    assert(is_first_match(views, pred, i as int));
                    lemma_first_match_found(views, pred, i as int);
                }
                return Some(profiles[i].clone());
            }
            i += 1;
        }
        proof {
            lemma_first_match_none(views, pred);
        }
        None
    }

    /// The profiles with `profile` in the place of the first one that has
    /// its id; nothing where none has it.
    pub fn update_profile(&self, profile: &Profile) -> (updated: Option<Vec<Profile>>)
        ensures
            match first_match(profile_views(self@.profiles), is_profile(profile.id@)) {
                Some(at) => updated matches Some(list) && profile_views(list@) == profile_views(
                    self@.profiles,
                ).update(at, profile@),
                None => updated is None,
            },
    {
        let mut profiles = self.get_profiles();
        let ghost views = profile_views(self@.profiles);
        match profile_index(&self.get_settings().profiles.profiles, &profile.id) {
            Some(index) => {
                assert(profiles@.len() == views.len());
                profiles.set(index, profile.clone());
                assert(profile_views(profiles@) =~= views.update(index as int, profile@));
                Some(profiles)
            },
            None => None,
        }
    }

    /// The profiles that do not belong to `application`, in the order of
    /// the settings.
    pub fn remove_profiles(&self, application: &Application) -> (remaining: Vec<Profile>)
        ensures
            profile_views(remaining@) == profile_views(self@.profiles).filter(
                belongs_elsewhere(application.applicationId@),
            ),
    {
        profiles_by_application(
            &self.get_settings().profiles.profiles,
            &application.applicationId,
            false,
        )
    }
}

impl Commit<Profile> for LogitechSettings {
    /// Puts `settings` in the place of the first profile that has its id, or
    /// behind all profiles where none has it.
    fn commit(&mut self, settings: Profile)
        ensures
            final(self)@.applications == old(self)@.applications,
            final(self)@.keymapper == old(self)@.keymapper,
            profile_views(final(self)@.profiles) == with_profile(
                profile_views(old(self)@.profiles),
                first_match(profile_views(old(self)@.profiles), is_profile(settings.id@)),
                settings@,
            ),
    {
        match self.update_profile(&settings) {
            Some(updated) => {
                self.commit(updated);
            },
            None => {
                let mut profiles = self.take_profiles();
                let ghost before = profiles@;
                profiles.push(settings);
                assert(profile_views(before.push(settings)) =~= profile_views(before).push(
                    settings@,
                ));
                self.commit(profiles);
            },
        }
    }
}

} // verus!
