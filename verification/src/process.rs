//! Ending a process together with the processes that it has started, on a
//! system that has no groups of processes.
use vstd::prelude::*;

verus! {

/// The ways of ending a process, from the surest to the last resort.
#[derive(Clone, Copy, Debug, PartialEq, Eq, Structural)]
pub enum KillStep {
    /// Ask whether the process has ended already.
    CheckExited,
    /// End the job that holds the process and all that it has started.
    TerminateJob,
    /// End the process and what it has started by a command.
    KillTree,
    /// Ask once more whether the process has ended.
    CheckAgain,
    /// End the process alone.
    KillDirectly,
    /// Nothing is left to do.
    Done,
}

/// The step behind one that has, or has not, come to its aim: the process has
/// ended, or the means has worked. A process that could not be put into a job
/// is ended by a command.
pub open spec fn after_kill_step(step: KillStep, worked: bool, has_job: bool) -> KillStep {
    if worked {
        KillStep::Done
    } else {
        match step {
            KillStep::CheckExited => if has_job {
                KillStep::TerminateJob
            } else {
                KillStep::KillTree
            },
            KillStep::TerminateJob => KillStep::KillTree,
            KillStep::KillTree => KillStep::CheckAgain,
            KillStep::CheckAgain => KillStep::KillDirectly,
            KillStep::KillDirectly => KillStep::Done,
            KillStep::Done => KillStep::Done,
        }
    }
}

/// The step behind one that has, or has not, come to its aim.
pub fn kill_next(step: KillStep, worked: bool, has_job: bool) -> (r: KillStep)
    ensures
        r == after_kill_step(step, worked, has_job),
{
    if worked {
        return KillStep::Done;
    }
    match step {
        KillStep::CheckExited => if has_job {
            KillStep::TerminateJob
        } else {
            KillStep::KillTree
        },
        KillStep::TerminateJob => KillStep::KillTree,
        KillStep::KillTree => KillStep::CheckAgain,
        KillStep::CheckAgain => KillStep::KillDirectly,
        KillStep::KillDirectly => KillStep::Done,
        KillStep::Done => KillStep::Done,
    }
}

/// How many steps may still be taken.
pub open spec fn kill_steps_left(step: KillStep) -> nat {
    match step {
        KillStep::CheckExited => 5,
        KillStep::TerminateJob => 4,
        KillStep::KillTree => 3,
        KillStep::CheckAgain => 2,
        KillStep::KillDirectly => 1,
        KillStep::Done => 0,
    }
}

/// Ending a process comes to an end: every step leaves fewer steps.
pub proof fn killing_comes_to_an_end(step: KillStep, worked: bool, has_job: bool)
    requires
        step != KillStep::Done,
    ensures
        kill_steps_left(after_kill_step(step, worked, has_job)) < kill_steps_left(step),
{
}

/// The process alone is ended only after everything that would also end what
/// it has started has failed, and it is still there.
pub proof fn direct_kill_is_the_last_resort(step: KillStep, worked: bool, has_job: bool)
    ensures
        after_kill_step(step, worked, has_job) == KillStep::KillDirectly ==> step
            == KillStep::CheckAgain && !worked,
{
}

/// A process is ended by ever harsher means, each only where the one before has
/// not worked: its job where it has one, then what it has started, and it alone
/// in the end. What has worked ends the matter.
pub proof fn harsher_means_follow(step: KillStep, has_job: bool)
    ensures
        after_kill_step(step, true, has_job) is Done,
        after_kill_step(KillStep::CheckExited, false, true) is TerminateJob,
        after_kill_step(KillStep::CheckExited, false, false) is KillTree,
        after_kill_step(KillStep::TerminateJob, false, has_job) is KillTree,
        after_kill_step(KillStep::KillTree, false, has_job) is CheckAgain,
        after_kill_step(KillStep::CheckAgain, false, has_job) is KillDirectly,
        after_kill_step(KillStep::KillDirectly, false, has_job) is Done,
{
}

} // verus!
