//! The one-shot privilege escalation flow run before any pipeline starts.
//!
//! The decision is a pure function of the effective privilege level and the
//! two flags; the unverified driver performs the re-exec the decision asks
//! for and propagates the child's exit status.

use vstd::prelude::*;
use vstd::string::StringExecFns;
use crate::text::str_eq;

verus! {

/// The effective privilege of this process, as a narrow platform
/// capability.
#[derive(Clone, Copy, PartialEq, Eq, Structural, Debug)]
pub enum PrivilegeLevel {
    Elevated,
    Standard,
}

/// The terminal decision of the escalation flow.
#[derive(Clone, Copy, PartialEq, Eq, Structural, Debug)]
pub enum EscalationDecision {
    /// Already privileged: proceed, regardless of any flags.
    AlreadyPrivileged,
    /// Not privileged and no escalation requested: proceed with a warning;
    /// downstream steps are expected to fail naturally.
    ProceedUnprivileged,
    /// Escalation was already attempted (the marker flag is set) and the
    /// process is still unprivileged: fatal, with a distinct exit status.
    EscalationFailed,
    /// Re-invoke the program once, under the elevation utility, with the
    /// marker flag appended; the child's exit status becomes ours.
    Escalate,
}

/// The hidden marker flag set only by the escalation re-exec.
pub open spec fn marker_flag() -> Seq<char> {
    "--we-are-launched-by-sudo"@
}

/// The hidden marker flag.
pub fn marker_flag_str() -> (r: &'static str)
    ensures
        r@ == marker_flag(),
{
    "--we-are-launched-by-sudo"
}

/// The escalation decision: a total function of the privilege level and of
/// whether escalation was requested and whether the marker flag is present.
pub open spec fn spec_decide_escalation(
    level: PrivilegeLevel,
    sudo_requested: bool,
    marker_present: bool,
) -> EscalationDecision {
    if level == PrivilegeLevel::Elevated {
        EscalationDecision::AlreadyPrivileged
    } else if marker_present {
        EscalationDecision::EscalationFailed
    } else if sudo_requested {
        EscalationDecision::Escalate
    } else {
        EscalationDecision::ProceedUnprivileged
    }
}

pub fn decide_escalation(level: PrivilegeLevel, sudo_requested: bool, marker_present: bool) -> (r:
    EscalationDecision)
    ensures
        r == spec_decide_escalation(level, sudo_requested, marker_present),
{
    if matches!(level, PrivilegeLevel::Elevated) {
        EscalationDecision::AlreadyPrivileged
    } else if marker_present {
        EscalationDecision::EscalationFailed
    } else if sudo_requested {
        EscalationDecision::Escalate
    } else {
        EscalationDecision::ProceedUnprivileged
    }
}

/// The command line of the escalation re-exec: the elevation utility, an
/// argument separator, the original arguments, and the marker flag.
pub open spec fn spec_escalation_argv(args: Seq<Seq<char>>) -> Seq<Seq<char>> {
    seq!["sudo"@, "--"@] + args + seq![marker_flag()]
}

pub fn escalation_argv(args: &Vec<String>) -> (r: Vec<String>)
    ensures
        r.deep_view() == spec_escalation_argv(args.deep_view()),
{
    let mut v: Vec<String> = Vec::new();
    v.push(String::from_str("sudo"));
    v.push(String::from_str("--"));
    let mut i: usize = 0;
    while i < args.len()
        invariant
            i <= args.len(),
            v.deep_view() =~~= seq!["sudo"@, "--"@] + args.deep_view().take(i as int),
        decreases args.len() - i,
    {
        let ghost prev = v.deep_view();
        v.push(args[i].clone());
        proof {
            assert(v.deep_view() =~~= prev.push(args.deep_view()[i as int]));
            assert(args.deep_view().take(i + 1) =~~= args.deep_view().take(i as int).push(
                args.deep_view()[i as int],
            ));
            assert(v.deep_view() =~~= seq!["sudo"@, "--"@] + args.deep_view().take(i + 1));
        }
        i = i + 1;
    }
    v.push(String::from_str(marker_flag_str()));
    proof {
        assert(args.deep_view().take(args.len() as int) =~~= args.deep_view());
        assert(v.deep_view() =~~= spec_escalation_argv(args.deep_view()));
    }
    v
}

/// Whether the marker flag occurs among the arguments.
pub fn has_marker_flag(args: &Vec<String>) -> (r: bool)
    ensures
        r == args.deep_view().contains(marker_flag()),
{
    let mut i: usize = 0;
    while i < args.len()
        invariant
            i <= args.len(),
            forall|j: int| 0 <= j < i ==> args.deep_view()[j] != marker_flag(),
        decreases args.len() - i,
    {
        if str_eq(args[i].as_str(), marker_flag_str()) {
            proof {
                assert(args.deep_view()[i as int] == marker_flag());
            }
            return true;
        }
        i = i + 1;
    }
    proof {
        assert(!args.deep_view().contains(marker_flag()));
    }
    false
}

/// The escalation flow is one-shot and total:
/// - the re-exec command line always carries the marker flag, so the child
///   runs with the marker present;
/// - with the marker present the flow never escalates again — it either
///   succeeds (already privileged) or fails fatally;
/// - an already privileged process never spawns a child, whatever the
///   flags;
/// - an unprivileged process without the marker is never treated as a
///   failed escalation.
pub proof fn lemma_escalation_one_shot(
    args: Seq<Seq<char>>,
    level: PrivilegeLevel,
    sudo_requested: bool,
    marker_present: bool,
)
    ensures
        spec_escalation_argv(args).contains(marker_flag()),
        spec_decide_escalation(level, sudo_requested, true) != EscalationDecision::Escalate,
        spec_decide_escalation(PrivilegeLevel::Elevated, sudo_requested, marker_present)
            == EscalationDecision::AlreadyPrivileged,
        spec_decide_escalation(PrivilegeLevel::Standard, sudo_requested, false)
            != EscalationDecision::EscalationFailed,
{
    let v = spec_escalation_argv(args);
    assert(v[2 + args.len() as int] == marker_flag());
}

} // verus!
