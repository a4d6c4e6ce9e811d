//! The vendor's settings as they were read: the queries on them and the
//! changes that are written back.

pub mod applications;
pub mod keymapper;
pub mod profiles;

use vstd::prelude::*;
use crate::settings::keymapper::KeymapperRow;
use crate::types::{Application, JsonData, Profile};

verus! {

/// A change that can be written to the settings.
pub trait Commit<T> {
    /// Writes `settings` to the settings.
    fn commit(&mut self, settings: T);
}

/// The vendor's settings in memory. Queries read them; `commit` changes
/// them, and `close` hands them back to be stored.
pub struct LogitechSettings {
    settings: JsonData,
    keymapper: Vec<KeymapperRow>,
}

/// What a `LogitechSettings` holds.
pub struct SettingsView {
    pub applications: Seq<Application>,
    pub profiles: Seq<Profile>,
    pub keymapper: Seq<KeymapperRow>,
}

impl View for LogitechSettings {
    type V = SettingsView;

    closed spec fn view(&self) -> SettingsView {
        SettingsView {
            applications: self.settings.applications.applications@,
            profiles: self.settings.profiles.profiles@,
            keymapper: self.keymapper@,
        }
    }
}

impl LogitechSettings {
    /// The settings as they were read: the vendor's applications and
    /// profiles, and the rows of the table of remap rules.
    pub fn new(settings: JsonData, keymapper: Vec<KeymapperRow>) -> (opened: LogitechSettings)
        ensures
            opened@ == (SettingsView {
                applications: settings.applications.applications@,
                profiles: settings.profiles.profiles@,
                keymapper: keymapper@,
            }),
    {
        LogitechSettings { settings, keymapper }
    }

    /// The rows of the table of remap rules, as they were read.
    pub fn get_keymapper(&self) -> (rows: &Vec<KeymapperRow>)
        ensures
            rows@ == self@.keymapper,
    {
        &self.keymapper
    }

    /// The settings as they stand.
    pub fn get_settings(&self) -> (settings: &JsonData)
        ensures
            settings.applications.applications@ == self@.applications,
            settings.profiles.profiles@ == self@.profiles,
    {
        &self.settings
    }

    /// Takes the profiles out, to put them back changed.
    pub(crate) fn take_profiles(&mut self) -> (profiles: Vec<Profile>)
        ensures
            profiles@ == old(self)@.profiles,
            final(self)@.applications == old(self)@.applications,
            final(self)@.keymapper == old(self)@.keymapper,
    {
        let mut profiles: Vec<Profile> = Vec::new();
        std::mem::swap(&mut self.settings.profiles.profiles, &mut profiles);
        profiles
    }

    /// Takes the rows of the table out, to put them back changed.
    pub(crate) fn take_keymapper(&mut self) -> (rows: Vec<KeymapperRow>)
        ensures
            rows@ == old(self)@.keymapper,
            final(self)@.applications == old(self)@.applications,
            final(self)@.profiles == old(self)@.profiles,
    {
        let mut rows: Vec<KeymapperRow> = Vec::new();
        std::mem::swap(&mut self.keymapper, &mut rows);
        rows
    }

    /// Puts the rows of the table in place.
    pub(crate) fn put_keymapper(&mut self, rows: Vec<KeymapperRow>)
        ensures
            final(self)@ == (SettingsView { keymapper: rows@, ..old(self)@ }),
    {
        self.keymapper = rows;
    }

    /// Ends the work on the settings and hands them back.
    pub fn close(self) -> (settings: JsonData)
        ensures
            settings.applications.applications@ == self@.applications,
            settings.profiles.profiles@ == self@.profiles,
    {
        self.settings
    }
}

impl Commit<Vec<Application>> for LogitechSettings {
    /// Puts `settings` in the place of all applications.
    fn commit(&mut self, settings: Vec<Application>)
        ensures
            final(self)@ == (SettingsView { applications: settings@, ..old(self)@ }),
    {
        self.settings.applications.applications = settings;
    }
}

impl Commit<Vec<Profile>> for LogitechSettings {
    /// Puts `settings` in the place of all profiles.
    fn commit(&mut self, settings: Vec<Profile>)
        ensures
            final(self)@ == (SettingsView { profiles: settings@, ..old(self)@ }),
    {
        self.settings.profiles.profiles = settings;
    }
}

} // verus!
