//! Names that the settings store gives to its built-in entries.

use vstd::prelude::*;

verus! {

/// The name under which the settings store keeps the desktop.
pub const APPLICATION_NAME_DESKTOP: &'static str = "APPLICATION_NAME_DESKTOP";

/// The name under which the settings store keeps an application's first profile.
pub const PROFILE_NAME_DEFAULT: &'static str = "PROFILE_NAME_DEFAULT";

} // verus!
