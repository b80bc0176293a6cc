//! The switcher's own settings.
use vstd::prelude::*;

verus! {

/// Whether usage is refreshed every five minutes.
#[derive(Clone, Copy, Debug, PartialEq, Eq, Structural)]
pub struct Settings {
    pub periodic_usage_refresh: bool,
}

/// The periodic refresh is on unless turned off.
pub fn enabled_by_default() -> (enabled: bool)
    ensures
        enabled,
{
    true
}

impl Default for Settings {
    fn default() -> (s: Self)
        ensures
            s.periodic_usage_refresh,
    {
        Settings { periodic_usage_refresh: enabled_by_default() }
    }
}

} // verus!
