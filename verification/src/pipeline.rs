//! The per-host deployment pipeline: its steps run strictly in the
//! declared order — closure copy, realization, key upload, activation —
//! because each depends on the previous one succeeding.

use vstd::prelude::*;
use crate::goal::Goal;

verus! {

/// One step of a host's pipeline.
#[derive(Clone, Copy, PartialEq, Eq, Structural, Debug)]
pub enum PipelineStep {
    CopyClosure,
    Realize,
    UploadKeys,
    Activate,
}

/// Where a pipeline stands.
#[derive(Clone, Copy, PartialEq, Eq, Structural, Debug)]
pub enum PipelinePhase {
    AtCopyClosure,
    AtRealize,
    AtUploadKeys,
    AtActivate,
    Done,
    Failed,
}

/// The phase a successful step leads to.
pub open spec fn spec_next_phase(p: PipelinePhase) -> PipelinePhase {
    match p {
        PipelinePhase::AtCopyClosure => PipelinePhase::AtRealize,
        PipelinePhase::AtRealize => PipelinePhase::AtUploadKeys,
        PipelinePhase::AtUploadKeys => PipelinePhase::AtActivate,
        PipelinePhase::AtActivate => PipelinePhase::Done,
        PipelinePhase::Done => PipelinePhase::Done,
        PipelinePhase::Failed => PipelinePhase::Failed,
    }
}

/// The step a phase awaits, if any.
pub open spec fn spec_phase_step(p: PipelinePhase) -> Option<PipelineStep> {
    match p {
        PipelinePhase::AtCopyClosure => Some(PipelineStep::CopyClosure),
        PipelinePhase::AtRealize => Some(PipelineStep::Realize),
        PipelinePhase::AtUploadKeys => Some(PipelineStep::UploadKeys),
        PipelinePhase::AtActivate => Some(PipelineStep::Activate),
        PipelinePhase::Done => Option::None,
        PipelinePhase::Failed => Option::None,
    }
}

/// One pipeline run for one host and one goal.
pub struct Pipeline {
    goal: Goal,
    phase: PipelinePhase,
}

impl Pipeline {
    pub closed spec fn spec_goal(self) -> Goal {
        self.goal
    }

    pub closed spec fn spec_phase(self) -> PipelinePhase {
        self.phase
    }

    pub fn new(goal: Goal) -> (r: Pipeline)
        ensures
            r.spec_goal() == goal,
            r.spec_phase() == PipelinePhase::AtCopyClosure,
    {
        Pipeline { goal, phase: PipelinePhase::AtCopyClosure }
    }

    pub fn goal(&self) -> (r: Goal)
        ensures
            r == self.spec_goal(),
    {
        self.goal
    }

    /// Whether the pipeline ended in failure.
    pub fn failed(&self) -> (r: bool)
        ensures
            r == (self.spec_phase() == PipelinePhase::Failed),
    {
        matches!(self.phase, PipelinePhase::Failed)
    }

    /// The step to run next, or nothing once the pipeline ended.
    pub fn next_step(&self) -> (r: Option<PipelineStep>)
        ensures
            r == spec_phase_step(self.spec_phase()),
    {
        match self.phase {
            PipelinePhase::AtCopyClosure => Some(PipelineStep::CopyClosure),
            PipelinePhase::AtRealize => Some(PipelineStep::Realize),
            PipelinePhase::AtUploadKeys => Some(PipelineStep::UploadKeys),
            PipelinePhase::AtActivate => Some(PipelineStep::Activate),
            PipelinePhase::Done => None,
            PipelinePhase::Failed => None,
        }
    }

    /// Records the outcome of the awaited step: a success moves to the
    /// next step in the declared order, a failure ends the pipeline.
    pub fn advance(&mut self, succeeded: bool)
        requires
            spec_phase_step(old(self).spec_phase()) is Some,
        ensures
            final(self).spec_goal() == old(self).spec_goal(),
            final(self).spec_phase() == if succeeded {
                spec_next_phase(old(self).spec_phase())
            } else {
                PipelinePhase::Failed
            },
    {
        if succeeded {
            self.phase = match self.phase {
                PipelinePhase::AtCopyClosure => PipelinePhase::AtRealize,
                PipelinePhase::AtRealize => PipelinePhase::AtUploadKeys,
                PipelinePhase::AtUploadKeys => PipelinePhase::AtActivate,
                PipelinePhase::AtActivate => PipelinePhase::Done,
                PipelinePhase::Done => PipelinePhase::Done,
                PipelinePhase::Failed => PipelinePhase::Failed,
            };
        } else {
            self.phase = PipelinePhase::Failed;
        }
    }
}

/// Within one pipeline, the steps run strictly in the declared order:
/// from the start, the sequence of awaited steps under repeated success is
/// exactly closure copy, realization, key upload, activation, and then the
/// pipeline is done.
pub proof fn lemma_pipeline_order()
    ensures
        ({
            let p0 = PipelinePhase::AtCopyClosure;
            let p1 = spec_next_phase(p0);
            let p2 = spec_next_phase(p1);
            let p3 = spec_next_phase(p2);
            let p4 = spec_next_phase(p3);
            &&& spec_phase_step(p0) == Some(PipelineStep::CopyClosure)
            &&& spec_phase_step(p1) == Some(PipelineStep::Realize)
            &&& spec_phase_step(p2) == Some(PipelineStep::UploadKeys)
            &&& spec_phase_step(p3) == Some(PipelineStep::Activate)
            &&& spec_phase_step(p4) == Option::<PipelineStep>::None
            &&& p4 == PipelinePhase::Done
        }),
{
}

} // verus!
