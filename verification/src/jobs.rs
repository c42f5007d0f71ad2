//! The background jobs and their supervision.
//!
//! Each job runs in a task of its own, which works at every tick of a clock and panics where the
//! work fails. A supervisor waits for the task to die, reports it, rests and launches it again.

use vstd::prelude::*;
use vstd::string::StringExecFns;

verus! {

/// How long a supervisor rests before it launches a task again, in seconds.
pub const RESTART_DELAY_SECS: u64 = 5;

/// A background job.
#[derive(Clone, Copy, Debug, PartialEq, Eq, Structural)]
pub enum Job {
    /// Puts the jobs that are due into the queue.
    Schedule,
    /// Takes jobs out of the queue and runs them.
    Run,
}

impl Job {
    /// The name of the job in reports.
    pub open spec fn spec_name(self) -> Seq<char> {
        match self {
            Job::Schedule => "schedule_jobs"@,
            Job::Run => "run_scheduled_jobs"@,
        }
    }

    /// The context that is put around an error of the job.
    pub open spec fn spec_context(self) -> Seq<char> {
        match self {
            Job::Schedule => "database schedule jobs"@,
            Job::Run => "run database scheduled jobs"@,
        }
    }

    fn name(self) -> (name: &'static str)
        ensures
            name@ == self.spec_name(),
    {
        match self {
            Job::Schedule => "schedule_jobs",
            Job::Run => "run_scheduled_jobs",
        }
    }

    fn context(self) -> (context: &'static str)
        ensures
            context@ == self.spec_context(),
    {
        match self {
            Job::Schedule => "database schedule jobs",
            Job::Run => "run database scheduled jobs",
        }
    }
}

/// What happens to the task of a job.
#[derive(Clone, Copy, Debug, PartialEq, Eq, Structural)]
pub enum WorkerEvent {
    /// The task has been launched.
    Launched,
    /// The clock has ticked.
    Ticked,
    /// The work of this tick is done.
    Succeeded,
    /// The work of this tick has failed.
    Failed,
}

/// What the task of a job does next.
pub enum WorkerStep {
    /// Wait for the next tick.
    AwaitTick,
    /// Do the work.
    Work,
    /// Panic with the error of the work, in this context.
    Panic(String),
}

/// The model of a [`WorkerStep`].
pub enum WorkerStepView {
    AwaitTick,
    Work,
    Panic(Seq<char>),
}

impl View for WorkerStep {
    type V = WorkerStepView;

    open spec fn view(&self) -> WorkerStepView {
        match self {
            WorkerStep::AwaitTick => WorkerStepView::AwaitTick,
            WorkerStep::Work => WorkerStepView::Work,
            WorkerStep::Panic(context) => WorkerStepView::Panic(context@),
        }
    }
}

/// What the task of a job does after an event.
pub open spec fn worker_step(job: Job, event: WorkerEvent) -> WorkerStepView {
    match event {
        WorkerEvent::Launched => WorkerStepView::AwaitTick,
        WorkerEvent::Ticked => WorkerStepView::Work,
        WorkerEvent::Succeeded => WorkerStepView::AwaitTick,
        WorkerEvent::Failed => WorkerStepView::Panic(job.spec_context()),
    }
}

/// Decides what the task of a job does after an event.
pub fn work(job: Job, event: WorkerEvent) -> (step: WorkerStep)
    ensures
        step@ == worker_step(job, event),
{
    match event {
        WorkerEvent::Launched => WorkerStep::AwaitTick,
        WorkerEvent::Ticked => WorkerStep::Work,
        WorkerEvent::Succeeded => WorkerStep::AwaitTick,
        WorkerEvent::Failed => WorkerStep::Panic(job.context().to_owned()),
    }
}

/// What happens to a supervisor.
pub enum SupervisorEvent {
    /// The supervisor has been started.
    Started,
    /// The task has panicked, with this report.
    Panicked(String),
    /// The task has ended in another way.
    Ended,
    /// The supervisor has rested.
    Rested,
}

/// The model of a [`SupervisorEvent`].
pub enum SupervisorEventView {
    Started,
    Panicked(Seq<char>),
    Ended,
    Rested,
}

impl View for SupervisorEvent {
    type V = SupervisorEventView;

    open spec fn view(&self) -> SupervisorEventView {
        match self {
            SupervisorEvent::Started => SupervisorEventView::Started,
            SupervisorEvent::Panicked(error) => SupervisorEventView::Panicked(error@),
            SupervisorEvent::Ended => SupervisorEventView::Ended,
            SupervisorEvent::Rested => SupervisorEventView::Rested,
        }
    }
}

/// What a supervisor does next.
pub enum SupervisorStep {
    /// Launch the task and wait for its end.
    Launch,
    /// Report this and rest for this many seconds.
    Rest { report: String, secs: u64 },
    /// Panic: a task never ends in this way.
    Unreachable,
}

/// The model of a [`SupervisorStep`].
pub enum SupervisorStepView {
    Launch,
    Rest { report: Seq<char>, secs: u64 },
    Unreachable,
}

impl View for SupervisorStep {
    type V = SupervisorStepView;

    open spec fn view(&self) -> SupervisorStepView {
        match self {
            SupervisorStep::Launch => SupervisorStepView::Launch,
            SupervisorStep::Rest { report, secs } => SupervisorStepView::Rest {
                report: report@,
                secs: *secs,
            },
            SupervisorStep::Unreachable => SupervisorStepView::Unreachable,
        }
    }
}

/// What a supervisor does after an event.
pub open spec fn supervisor_step(job: Job, event: SupervisorEventView) -> SupervisorStepView {
    match event {
        SupervisorEventView::Started => SupervisorStepView::Launch,
        SupervisorEventView::Panicked(error) => SupervisorStepView::Rest {
            report: job.spec_name() + " task died (error="@ + error + ")"@,
            secs: RESTART_DELAY_SECS,
        },
        SupervisorEventView::Ended => SupervisorStepView::Unreachable,
        SupervisorEventView::Rested => SupervisorStepView::Launch,
    }
}

/// Decides what a supervisor does after an event.
pub fn supervise(job: Job, event: SupervisorEvent) -> (step: SupervisorStep)
    ensures
        step@ == supervisor_step(job, event@),
{
    match event {
        SupervisorEvent::Started => SupervisorStep::Launch,
        SupervisorEvent::Panicked(error) => {
            let mut report: String = job.name().to_owned();
            report.append(" task died (error=");
            report.append(&error);
            report.append(")");
            SupervisorStep::Rest { report, secs: RESTART_DELAY_SECS }
        },
        SupervisorEvent::Ended => SupervisorStep::Unreachable,
        SupervisorEvent::Rested => SupervisorStep::Launch,
    }
}

} // verus!
