//! What the background jobs and their supervisors do.

use crate::jobs::{
    supervisor_step, worker_step, Job, SupervisorEventView, SupervisorStepView, WorkerEvent,
    WorkerStepView,
};
use vstd::prelude::*;

verus! {

/// Either job waits for a tick, works at it and waits for the next one; where the work fails, it
/// panics in a context that tells the jobs apart.
pub proof fn law_job_works_at_every_tick(job: Job)
    ensures
        worker_step(job, WorkerEvent::Launched) == WorkerStepView::AwaitTick,
        worker_step(job, WorkerEvent::Ticked) == WorkerStepView::Work,
        worker_step(job, WorkerEvent::Succeeded) == WorkerStepView::AwaitTick,
        job == Job::Schedule ==> worker_step(job, WorkerEvent::Failed) == WorkerStepView::Panic(
            "database schedule jobs"@,
        ),
        job == Job::Run ==> worker_step(job, WorkerEvent::Failed) == WorkerStepView::Panic(
            "run database scheduled jobs"@,
        ),
{
}

/// A supervisor launches its task at once and again after every rest. Whatever error the task
/// dies with, the supervisor reports the job and that error in full and rests for five seconds.
/// A task that ends in another way is a fault.
pub proof fn law_supervisor_reports_the_error(job: Job, error: Seq<char>)
    ensures
        supervisor_step(job, SupervisorEventView::Started) == SupervisorStepView::Launch,
        supervisor_step(job, SupervisorEventView::Rested) == SupervisorStepView::Launch,
        supervisor_step(job, SupervisorEventView::Ended) == SupervisorStepView::Unreachable,
        supervisor_step(
            job,
            SupervisorEventView::Panicked(error),
        ) matches SupervisorStepView::Rest { report, secs } && {
            &&& secs == 5
            &&& job == Job::Schedule ==> report == "schedule_jobs task died (error="@ + error
                + ")"@
            &&& job == Job::Run ==> report == "run_scheduled_jobs task died (error="@ + error
                + ")"@
        },
{
    reveal_strlit("schedule_jobs");
    reveal_strlit("run_scheduled_jobs");
    reveal_strlit(" task died (error=");
    reveal_strlit("schedule_jobs task died (error=");
    reveal_strlit("run_scheduled_jobs task died (error=");
    assert("schedule_jobs"@ + " task died (error="@ =~= "schedule_jobs task died (error="@);
    assert("run_scheduled_jobs"@ + " task died (error="@
        =~= "run_scheduled_jobs task died (error="@);
}

} // verus!
