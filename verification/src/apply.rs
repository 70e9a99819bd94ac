//! Entry-point decisions of a local deployment: the operating-system
//! identity check, target-host selection, and the fatal exit codes.

use vstd::prelude::*;
use crate::text::contains_seq;
use crate::text::contains_str;
use crate::text::str_eq;

verus! {

/// A fatal condition checked before any pipeline starts.
#[derive(Clone, Copy, PartialEq, Eq, Structural, Debug)]
pub enum FatalError {
    /// The OS-identity file lacks the expected platform marker.
    UnsupportedOs,
    /// The OS identity could not be determined at all.
    UnknownOs,
    /// Escalation was attempted and the process is still unprivileged.
    EscalationFailed,
    /// The target host is not present in the configuration.
    UnknownHost,
    /// The target host exists but does not allow local deployment.
    LocalDeploymentDisabled,
}

impl FatalError {
    /// The process exit status each fatal condition carries.
    pub open spec fn spec_exit_code(self) -> int {
        match self {
            FatalError::UnsupportedOs => 5,
            FatalError::UnknownOs => 5,
            FatalError::EscalationFailed => 3,
            FatalError::UnknownHost => 2,
            FatalError::LocalDeploymentDisabled => 2,
        }
    }

    pub fn exit_code(self) -> (c: i32)
        ensures
            c as int == self.spec_exit_code(),
    {
        match self {
            FatalError::UnsupportedOs => 5,
            FatalError::UnknownOs => 5,
            FatalError::EscalationFailed => 3,
            FatalError::UnknownHost => 2,
            FatalError::LocalDeploymentDisabled => 2,
        }
    }
}

/// The marker that the OS-identity file of the supported platform carries.
pub open spec fn os_marker() -> Seq<char> {
    "ID=nixos\n"@
}

/// The platform marker.
pub fn os_marker_str() -> (r: &'static str)
    ensures
        r@ == os_marker(),
{
    "ID=nixos\n"
}

/// Checks the OS identity before any pipeline starts: no readable identity
/// is fatal, and so is an identity without the platform marker.
pub fn check_os(contents: Option<&str>) -> (r: Result<(), FatalError>)
    ensures
        match contents {
            Some(s) => if contains_seq(s@, os_marker()) {
                r is Ok
            } else {
                r == Result::<(), FatalError>::Err(FatalError::UnsupportedOs)
            },
            None => r == Result::<(), FatalError>::Err(FatalError::UnknownOs),
        },
{
    match contents {
        Some(s) => {
            if contains_str(s, os_marker_str()) {
                Ok(())
            } else {
                Err(FatalError::UnsupportedOs)
            }
        },
        None => Err(FatalError::UnknownOs),
    }
}

/// One host of the configuration, as the deployment info hands it over:
/// its name and whether it allows local deployment.
#[derive(Debug)]
pub struct NodeInfo {
    pub name: String,
    pub allows_local_deployment: bool,
}

/// The first node of the given name, if any: whether it allows local
/// deployment.
pub open spec fn spec_find_node(nodes: Seq<NodeInfo>, name: Seq<char>) -> Option<bool>
    decreases nodes.len(),
{
    if nodes.len() == 0 {
        Option::None
    } else if nodes[0].name@ == name {
        Some(nodes[0].allows_local_deployment)
    } else {
        spec_find_node(nodes.drop_first(), name)
    }
}

/// Selects the local deployment target: the named host must exist in the
/// configuration and must allow local deployment; each failure is fatal
/// with its own exit status.
pub fn select_local_target(nodes: &Vec<NodeInfo>, name: &str) -> (r: Result<(), FatalError>)
    ensures
        match spec_find_node(nodes@, name@) {
            Some(allowed) => if allowed {
                r is Ok
            } else {
                r == Result::<(), FatalError>::Err(FatalError::LocalDeploymentDisabled)
            },
            Option::None => r == Result::<(), FatalError>::Err(FatalError::UnknownHost),
        },
{
    let mut i: usize = 0;
    proof {
        assert(nodes@.subrange(0, nodes@.len() as int) =~= nodes@);
    }
    while i < nodes.len()
        invariant
            i <= nodes.len(),
            spec_find_node(nodes@, name@) == spec_find_node(
                nodes@.subrange(i as int, nodes@.len() as int),
                name@,
            ),
        decreases nodes.len() - i,
    {
        let ghost rest = nodes@.subrange(i as int, nodes@.len() as int);
        proof {
            assert(rest[0] == nodes@[i as int]);
            assert(rest.drop_first() =~= nodes@.subrange(i + 1, nodes@.len() as int));
        }
        if str_eq(nodes[i].name.as_str(), name) {
            if nodes[i].allows_local_deployment {
                return Ok(());
            } else {
                return Err(FatalError::LocalDeploymentDisabled);
            }
        }
        i = i + 1;
    }
    proof {
        assert(nodes@.subrange(nodes@.len() as int, nodes@.len() as int) =~= Seq::<
            NodeInfo,
        >::empty());
    }
    Err(FatalError::UnknownHost)
}

} // verus!
