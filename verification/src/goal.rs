//! Deployment goals and their side-effect semantics.

use vstd::prelude::*;
use crate::text::str_eq;

verus! {

/// The requested deployment intent for one pipeline run.
///
/// The goal determines which pipeline steps have a real effect: only
/// `Switch`, `Boot` and `Test` repoint the system profile, while the
/// activation command runs for every goal.
#[derive(Clone, Copy, PartialEq, Eq, Structural, Debug)]
pub enum Goal {
    Push,
    Switch,
    Boot,
    Test,
    DryActivate,
}

impl Goal {
    /// The textual name of the goal: what the command line accepts and what
    /// is handed to the profile's activation program as its argument.
    pub open spec fn spec_name(self) -> Seq<char> {
        match self {
            Goal::Push => "push"@,
            Goal::Switch => "switch"@,
            Goal::Boot => "boot"@,
            Goal::Test => "test"@,
            Goal::DryActivate => "dry-activate"@,
        }
    }

    /// Whether a pipeline run with this goal repoints the system-wide
    /// profile before activation.
    pub open spec fn spec_should_switch_profile(self) -> bool {
        match self {
            Goal::Switch | Goal::Boot | Goal::Test => true,
            Goal::Push | Goal::DryActivate => false,
        }
    }

    /// Parses a goal from its textual name; unknown names are rejected.
    pub fn from_name(s: &str) -> (r: Option<Goal>)
        ensures
            match r {
                Some(g) => s@ == g.spec_name(),
                None => forall|g: Goal| s@ != g.spec_name(),
            },
    {
        if str_eq(s, "push") {
            Some(Goal::Push)
        } else if str_eq(s, "switch") {
            Some(Goal::Switch)
        } else if str_eq(s, "boot") {
            Some(Goal::Boot)
        } else if str_eq(s, "test") {
            Some(Goal::Test)
        } else if str_eq(s, "dry-activate") {
            Some(Goal::DryActivate)
        } else {
            None
        }
    }

    /// The textual name of the goal.
    pub fn as_name(self) -> (r: &'static str)
        ensures
            r@ == self.spec_name(),
    {
        match self {
            Goal::Push => "push",
            Goal::Switch => "switch",
            Goal::Boot => "boot",
            Goal::Test => "test",
            Goal::DryActivate => "dry-activate",
        }
    }

    /// Whether this goal repoints the system profile.
    pub fn should_switch_profile(self) -> (b: bool)
        ensures
            b == self.spec_should_switch_profile(),
    {
        match self {
            Goal::Switch | Goal::Boot | Goal::Test => true,
            Goal::Push | Goal::DryActivate => false,
        }
    }
}

/// For every goal `g`, the profile is switched exactly when `g` is one of
/// switch, boot or test, and never for push or dry-activate.
pub proof fn lemma_should_switch_profile(g: Goal)
    ensures
        g.spec_should_switch_profile() <==> (g == Goal::Switch || g == Goal::Boot || g
            == Goal::Test),
        (g == Goal::Push || g == Goal::DryActivate) ==> !g.spec_should_switch_profile(),
{
}

} // verus!
