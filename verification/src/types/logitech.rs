//! The vendor's settings as one value.

use vstd::prelude::*;
use crate::types::{InnerApplications, InnerProfiles};

verus! {

/// What the vendor's settings hold of applications and profiles.
#[derive(Debug)]
pub struct LogitechData {
    pub applications: InnerApplications,
    pub profiles: InnerProfiles,
}

} // verus!
