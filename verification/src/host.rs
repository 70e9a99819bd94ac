//! The local machine as a deployment target.
//!
//! The in-scope implementation of the host capability set: closure
//! transfer (a no-op locally), realization, activation, progress
//! attachment, and log retrieval.  Key upload is sequenced by
//! [`crate::keys::KeyUploader`] over the key deployment protocol.  The
//! unverified driver spawns the commands these methods describe and hands
//! each finished [`CommandExecution`] back.

use vstd::prelude::*;
use vstd::string::StringExecFns;
use crate::error::ExecError;
use crate::error::HostError;
use crate::exec::CommandExecution;
use crate::exec::SpawnOutcome;
use crate::goal::Goal;
use crate::profile::Profile;
use crate::profile::spec_activation_command;
use crate::profile::spec_switch_profile_command;
use crate::store_path::StorePath;
use crate::store_path::spec_store_paths;
use crate::store_path::parse_store_paths;
use crate::text::spec_lines;
use crate::text::split_lines;

verus! {

/// The direction of a closure transfer.
#[derive(Clone, Copy, PartialEq, Eq, Structural, Debug)]
pub enum CopyDirection {
    ToRemote,
    FromRemote,
}

/// Options of a closure transfer.
#[derive(Clone, Copy, PartialEq, Eq, Structural, Debug)]
pub struct CopyOptions {
    pub include_outputs: bool,
    pub use_substitutes: bool,
    pub gzip: bool,
}

impl Default for CopyOptions {
    fn default() -> (r: CopyOptions)
        ensures
            r.include_outputs && r.use_substitutes && r.gzip,
    {
        CopyOptions { include_outputs: true, use_substitutes: true, gzip: true }
    }
}

/// The command that realizes a derivation, with garbage-collection
/// warnings suppressed.
pub open spec fn spec_realize_command(derivation: Seq<char>) -> Seq<Seq<char>> {
    seq!["nix-store"@, "--no-gc-warning"@, "--realise"@, derivation]
}

pub fn realize_command(derivation: &StorePath) -> (r: Vec<String>)
    ensures
        r.deep_view() =~~= spec_realize_command(derivation@),
{
    let mut v: Vec<String> = Vec::new();
    v.push(String::from_str("nix-store"));
    v.push(String::from_str("--no-gc-warning"));
    v.push(String::from_str("--realise"));
    v.push(String::from_str(derivation.as_path()));
    v
}

/// The two commands of one activation: the profile switch, present exactly
/// when the goal switches the profile, and the activation command itself,
/// which runs for every goal.
pub struct ActivationPlan {
    pub switch_profile: Option<Vec<String>>,
    pub activation: Vec<String>,
}

/// Interprets the outcome of the profile-switch command, whose output is
/// passed through rather than captured: exit code zero succeeds; anything
/// else aborts the activation.
pub fn interpret_passthrough(outcome: SpawnOutcome) -> (r: Result<(), HostError>)
    ensures
        match outcome {
            SpawnOutcome::Exited(c) => if c == 0 {
                r is Ok
            } else {
                r matches Err(HostError::Exec(ExecError::NonZeroExit(rc, se))) && rc == c
                    && se@ == Seq::<char>::empty()
            },
            SpawnOutcome::SpawnFailed(cause) => r matches Err(
                HostError::Exec(ExecError::SpawnFailed(m)),
            ) && m@ == cause@,
        },
{
    match outcome {
        SpawnOutcome::Exited(c) => {
            if c == 0 {
                Ok(())
            } else {
                Err(HostError::Exec(ExecError::NonZeroExit(c, String::new())))
            }
        },
        SpawnOutcome::SpawnFailed(cause) => Err(HostError::Exec(ExecError::SpawnFailed(cause))),
    }
}

/// A realize invocation that yields no output lines yields an empty
/// result list on success, not an error.
pub proof fn lemma_empty_realize_output()
    ensures
        spec_lines(Seq::<char>::empty()) == Seq::<Seq<char>>::empty(),
        spec_store_paths(spec_lines(Seq::<char>::empty())) == Some(Seq::<Seq<char>>::empty()),
{
}

/// The local machine as a deployment target.
///
/// It owns an append-only log buffer, filled only by this instance's own
/// pipeline steps, and an optional progress attachment used by all
/// subsequent operations.
#[derive(Debug)]
pub struct Local {
    progress: bool,
    logs: String,
    ran: bool,
}

impl Local {
    /// The accumulated log buffer.
    pub closed spec fn spec_logs(self) -> Seq<char> {
        self.logs@
    }

    /// Whether any step has run yet.
    pub closed spec fn has_run(self) -> bool {
        self.ran
    }

    /// Whether a progress reporter is attached.
    pub closed spec fn progress_attached(self) -> bool {
        self.progress
    }

    pub fn new() -> (r: Local)
        ensures
            r.spec_logs() == Seq::<char>::empty(),
            !r.has_run(),
            !r.progress_attached(),
    {
        Local { progress: false, logs: String::new(), ran: false }
    }

    /// Attaches a progress reporter used by all subsequent operations on
    /// this host.
    pub fn set_progress_bar(&mut self)
        ensures
            final(self).progress_attached(),
            final(self).spec_logs() == old(self).spec_logs(),
            final(self).has_run() == old(self).has_run(),
    {
        self.progress = true;
    }

    /// Transfers a closure to or from the local machine: always a
    /// successful no-op, with no observable effect, since the artifact is
    /// already local.
    pub fn copy_closure(
        &mut self,
        _closure: &StorePath,
        _direction: CopyDirection,
        _options: CopyOptions,
    ) -> (r: Result<(), HostError>)
        ensures
            r is Ok,
            *final(self) == *old(self),
    {
        Ok(())
    }

    /// Consumes a finished realize invocation: the captured standard-error
    /// text is appended to the host log even on failure, and on success the
    /// captured standard output yields one store path per non-empty line —
    /// a malformed line fails the whole call with no partial list.
    pub fn realize_finish(&mut self, execution: &CommandExecution) -> (r: Result<
        Vec<StorePath>,
        HostError,
    >)
        requires
            !execution.running(),
        ensures
            final(self).spec_logs() == old(self).spec_logs() + execution.spec_stderr_text(),
            final(self).has_run(),
            final(self).progress_attached() == old(self).progress_attached(),
            match execution.spec_outcome() {
                Some(SpawnOutcome::Exited(c)) => if c == 0 {
                    match spec_store_paths(spec_lines(execution.spec_stdout_text())) {
                        Some(ps) => r matches Ok(v) && v.deep_view() == ps,
                        Option::None => r matches Err(HostError::InvalidStorePath(_)),
                    }
                } else {
                    r matches Err(HostError::Exec(ExecError::NonZeroExit(rc, se))) && rc == c
                        && se@ == execution.spec_stderr_text()
                },
                Some(SpawnOutcome::SpawnFailed(cause)) => r matches Err(
                    HostError::Exec(ExecError::SpawnFailed(m)),
                ) && m@ == cause@,
                Option::None => true,
            },
    {
        let (stdout, stderr) = execution.get_logs();
        self.logs.append(stderr.as_str());
        self.ran = true;
        match execution.result() {
            Ok(_) => {
                let lines = split_lines(stdout.as_str());
                parse_store_paths(lines)
            },
            Err(e) => Err(HostError::Exec(e)),
        }
    }

    /// The two commands of an activation for this goal: the system profile
    /// is repointed exactly when the goal asks for it, and the activation
    /// command always runs, so that activation can be re-run against the
    /// current profile.
    pub fn activation_plan(&self, profile: &Profile, goal: Goal) -> (r: ActivationPlan)
        ensures
            r.switch_profile is Some <==> goal.spec_should_switch_profile(),
            match r.switch_profile {
                Some(c) => c.deep_view() == spec_switch_profile_command(profile@),
                Option::None => true,
            },
            r.activation.deep_view() == spec_activation_command(profile@, goal),
    {
        let switch_profile = if goal.should_switch_profile() {
            Some(profile.switch_profile_command())
        } else {
            None
        };
        ActivationPlan { switch_profile, activation: profile.activation_command(goal) }
    }

    /// Consumes a finished activation invocation: both streams are
    /// appended to the host log in true arrival order, so interleaving is
    /// not lost, and the command's outcome becomes the step's result.
    pub fn activate_finish(&mut self, execution: &CommandExecution) -> (r: Result<(), HostError>)
        requires
            !execution.running(),
        ensures
            final(self).spec_logs() == old(self).spec_logs() + execution.spec_merged_text(),
            final(self).has_run(),
            final(self).progress_attached() == old(self).progress_attached(),
            match execution.spec_outcome() {
                Some(SpawnOutcome::Exited(c)) => if c == 0 {
                    r is Ok
                } else {
                    r matches Err(HostError::Exec(ExecError::NonZeroExit(rc, se))) && rc == c
                        && se@ == execution.spec_stderr_text()
                },
                Some(SpawnOutcome::SpawnFailed(cause)) => r matches Err(
                    HostError::Exec(ExecError::SpawnFailed(m)),
                ) && m@ == cause@,
                Option::None => true,
            },
    {
        let merged = execution.merged_log();
        self.logs.append(merged.as_str());
        self.ran = true;
        match execution.result() {
            Ok(_) => Ok(()),
            Err(e) => Err(HostError::Exec(e)),
        }
    }

    /// The accumulated log buffer, or nothing if no step has run yet.
    pub fn dump_logs(&self) -> (r: Option<&String>)
        ensures
            match r {
                Some(l) => self.has_run() && l@ == self.spec_logs(),
                Option::None => !self.has_run(),
            },
    {
        if self.ran {
            Some(&self.logs)
        } else {
            None
        }
    }
}

} // verus!
