use vstd::prelude::*;
use crate::profile::FanProfile;

verus! {

/// The active profile: a fan curve, and the keyboard colour profile as the
/// JSON document that the keyboard subsystem reads.
#[derive(Debug)]
pub struct Profile {
    pub fan: FanProfile,
    pub keyboard: String,
}

impl Profile {
    pub open spec fn wf(&self) -> bool {
        self.fan.wf()
    }

    /// A profile from what was loaded; whatever failed to load falls back to
    /// the built-in fan curve or to an empty keyboard document.
    pub fn from_loaded(fan: Option<FanProfile>, keyboard: Option<String>) -> (r: Profile)
        requires
            fan matches Some(f) ==> f.wf(),
        ensures
            r.wf(),
            fan matches Some(f) ==> r.fan == f,
            keyboard matches Some(k) ==> r.keyboard@ == k@,
            keyboard.is_none() ==> r.keyboard@ == "{}"@,
    {
        let fan = match fan {
            Some(f) => f,
            None => FanProfile::default(),
        };
        let keyboard = match keyboard {
            Some(k) => k,
            None => String::from_str("{}"),
        };
        Profile { fan, keyboard }
    }
}

} // verus!
