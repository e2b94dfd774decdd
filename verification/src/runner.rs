//! The run of a plan as a small state machine: the configure step
//! first, then — only after a successful exit — the build step.  The
//! caller performs each invocation and hands the observed outcome
//! back; every decision is taken here.

use crate::config::BuildPlan;
use vstd::prelude::*;

verus! {

/// Where a run stands.
#[derive(Clone, Copy, Debug, PartialEq, Eq, Structural)]
pub enum Phase {
    /// The configure step has not run yet.
    Configuring,
    /// The configure step exited successfully; the build step is due.
    Building,
    /// Both steps exited successfully.
    Done,
    /// A step could not be spawned or exited unsuccessfully.
    Failed,
}

/// What became of one spawned tool invocation.
#[derive(Clone, Copy, Debug, PartialEq, Eq, Structural)]
pub enum Outcome {
    /// The tool could not be spawned at all.
    SpawnFailed,
    /// The tool ran and exited with this code.
    Exited(i32),
}

/// The transition relation of a run: an invocation that exits with
/// code zero advances the run, anything else ends it; `Done` and
/// `Failed` are final.
pub open spec fn spec_step(p: Phase, o: Outcome) -> Phase {
    match p {
        Phase::Configuring => if o == Outcome::Exited(0) {
            Phase::Building
        } else {
            Phase::Failed
        },
        Phase::Building => if o == Outcome::Exited(0) {
            Phase::Done
        } else {
            Phase::Failed
        },
        Phase::Done => Phase::Done,
        Phase::Failed => Phase::Failed,
    }
}

/// A plan together with how far its run has come.
pub struct Runner {
    plan: BuildPlan,
    phase: Phase,
}

impl Runner {
    /// The phase the run stands in.
    pub closed spec fn spec_phase(&self) -> Phase {
        self.phase
    }

    /// The plan being run.
    pub closed spec fn spec_plan(&self) -> BuildPlan {
        self.plan
    }

    /// A fresh run of the given plan, about to configure.
    pub fn new(plan: BuildPlan) -> (r: Runner)
        ensures
            r.spec_phase() == Phase::Configuring,
            r.spec_plan() == plan,
    {
        Runner { plan, phase: Phase::Configuring }
    }

    /// Where the run stands.
    pub fn phase(&self) -> (p: Phase)
        ensures
            p == self.spec_phase(),
    {
        self.phase
    }

    /// The plan being run.
    pub fn plan(&self) -> (p: &BuildPlan)
        ensures
            *p == self.spec_plan(),
    {
        &self.plan
    }

    /// The argument list of the next invocation to perform, if one is
    /// due: the configure step's while configuring, the build step's
    /// while building, and none once the run is done or has failed.
    pub fn next_args(&self) -> (r: Option<&Vec<String>>)
        ensures
            self.spec_phase() == Phase::Configuring ==> (r matches Some(a) && *a
                == self.spec_plan().configure_args),
            self.spec_phase() == Phase::Building ==> (r matches Some(a) && *a
                == self.spec_plan().build_args),
            self.spec_phase() == Phase::Done ==> r is None,
            self.spec_phase() == Phase::Failed ==> r is None,
    {
        match self.phase {
            Phase::Configuring => Some(&self.plan.configure_args),
            Phase::Building => Some(&self.plan.build_args),
            Phase::Done => None,
            Phase::Failed => None,
        }
    }

    /// Advances the run by one observed outcome, along the transition
    /// relation; the plan itself never changes.
    pub fn step(&mut self, outcome: Outcome)
        ensures
            final(self).spec_phase() == spec_step(old(self).spec_phase(), outcome),
            final(self).spec_plan() == old(self).spec_plan(),
    {
        let zero_exit = match outcome {
            Outcome::Exited(code) => code == 0,
            Outcome::SpawnFailed => false,
        };
        let next = match self.phase {
            Phase::Configuring => if zero_exit {
                Phase::Building
            } else {
                Phase::Failed
            },
            Phase::Building => if zero_exit {
                Phase::Done
            } else {
                Phase::Failed
            },
            Phase::Done => Phase::Done,
            Phase::Failed => Phase::Failed,
        };
        self.phase = next;
    }

    /// The library directory the plan points the tool's output at.
    pub fn lib_dir(&self) -> (r: &String)
        ensures
            *r == self.spec_plan().lib_dir,
    {
        &self.plan.lib_dir
    }
}

/// A configure step that did not exit with code zero drives the run
/// into `Failed`, and `Failed` absorbs every later outcome: the build
/// step is never issued after a failed configure step.
pub proof fn lemma_configure_failure_blocks_build(first: Outcome, later: Outcome)
    requires
        first != Outcome::Exited(0),
    ensures
        spec_step(Phase::Configuring, first) == Phase::Failed,
        spec_step(Phase::Failed, later) == Phase::Failed,
{
}

} // verus!
