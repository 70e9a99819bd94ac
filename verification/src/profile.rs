//! Profiles: activatable system configurations and the commands that
//! switch to and activate them.

use vstd::prelude::*;
use vstd::string::StringExecFns;
use crate::goal::Goal;
use crate::store_path::StorePath;
use crate::store_path::is_valid_store_path;
use crate::text::concat2;

verus! {

/// The well-known system-wide profile registration path.
pub open spec fn system_profile() -> Seq<char> {
    "/nix/var/nix/profiles/system"@
}

/// The system-wide profile registration path.
pub fn system_profile_str() -> (r: &'static str)
    ensures
        r@ == system_profile(),
{
    "/nix/var/nix/profiles/system"
}

/// A store path holding an activatable system configuration.
#[derive(Debug)]
pub struct Profile {
    path: StorePath,
}

impl View for Profile {
    type V = Seq<char>;

    closed spec fn view(&self) -> Seq<char> {
        self.path@
    }
}

/// The activation command of a profile for a goal: the profile's own
/// activation program, with the goal's name as its argument.
pub open spec fn spec_activation_command(profile: Seq<char>, goal: Goal) -> Seq<Seq<char>> {
    seq![profile + "/bin/switch-to-configuration"@, goal.spec_name()]
}

/// The command that atomically repoints the system-wide profile
/// registration to the given profile.
pub open spec fn spec_switch_profile_command(profile: Seq<char>) -> Seq<Seq<char>> {
    seq!["nix-env"@, "--profile"@, system_profile(), "--set"@, profile]
}

impl Profile {
    pub open spec fn wf(self) -> bool {
        is_valid_store_path(self@)
    }

    pub fn new(path: StorePath) -> (r: Profile)
        ensures
            r@ == path@,
            path.wf() ==> r.wf(),
    {
        Profile { path }
    }

    /// The textual form of the profile's path.
    pub fn as_path(&self) -> (r: &str)
        ensures
            r@ == self@,
    {
        self.path.as_path()
    }

    /// The command that activates this profile for the given goal.  It is
    /// defined for every goal, so that activation can also be re-run
    /// against the current profile when the profile is not switched.
    pub fn activation_command(&self, goal: Goal) -> (r: Vec<String>)
        ensures
            r.deep_view() =~~= spec_activation_command(self@, goal),
    {
        let mut v: Vec<String> = Vec::new();
        v.push(concat2(self.path.as_path(), "/bin/switch-to-configuration"));
        v.push(String::from_str(goal.as_name()));
        v
    }

    /// The command that repoints the system-wide profile to this profile.
    pub fn switch_profile_command(&self) -> (r: Vec<String>)
        ensures
            r.deep_view() =~~= spec_switch_profile_command(self@),
    {
        let mut v: Vec<String> = Vec::new();
        v.push(String::from_str("nix-env"));
        v.push(String::from_str("--profile"));
        v.push(String::from_str(system_profile_str()));
        v.push(String::from_str("--set"));
        v.push(String::from_str(self.path.as_path()));
        v
    }
}

} // verus!
