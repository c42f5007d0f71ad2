//! Bringing the server up.
//!
//! [`run_server`] decides what has to be done first and [`resume_server`] how to go on after it,
//! until the server can be launched. The migrations run after the workqueue has been dealt with
//! and right before the launch, so that an older instance meets a newer database schema for as
//! short a time as possible.

use crate::config::{is_scheduled_jobs_disabled, is_switched_on, switched_on, EnvVar, EnvVarView};
use vstd::prelude::*;

verus! {

/// How long loading the workqueue may take, in seconds.
pub const WORKQUEUE_TIMEOUT_SECS: u64 = 60;

/// The environment variables that decide how the server comes up.
pub struct ServerEnv {
    /// `SKIP_WORKQUEUE`
    pub skip_workqueue: EnvVar,
    /// `DATABASE_URL`
    pub database_url: EnvVar,
    /// `SKIP_DB_MIGRATIONS`
    pub skip_db_migrations: EnvVar,
    /// `TRIAGEBOT_USERNAME`
    pub username: EnvVar,
    /// `TRIAGEBOT_TEST_DISABLE_JOBS`
    pub disable_jobs: EnvVar,
}

/// The model of a [`ServerEnv`].
pub struct ServerEnvView {
    pub skip_workqueue: EnvVarView,
    pub database_url: EnvVarView,
    pub skip_db_migrations: EnvVarView,
    pub username: EnvVarView,
    pub disable_jobs: EnvVarView,
}

impl View for ServerEnv {
    type V = ServerEnvView;

    open spec fn view(&self) -> ServerEnvView {
        ServerEnvView {
            skip_workqueue: self.skip_workqueue@,
            database_url: self.database_url@,
            skip_db_migrations: self.skip_db_migrations@,
            username: self.username@,
            disable_jobs: self.disable_jobs@,
        }
    }
}

/// The workqueue that the server starts with.
#[derive(Clone, Copy, Debug, PartialEq, Eq, Structural)]
pub enum Workqueue {
    /// The one that was loaded.
    Loaded,
    /// An empty one, to be filled later.
    Empty,
}

/// Work that has to be done before the server can be launched.
pub enum StartTask {
    /// Load the workqueue, in this many seconds at most.
    LoadWorkqueue { timeout_secs: u64 },
    /// Run the migrations of this database; the workqueue is settled.
    RunMigrations { database_url: String, workqueue: Workqueue },
}

/// The model of a [`StartTask`].
pub enum StartTaskView {
    LoadWorkqueue { timeout_secs: u64 },
    RunMigrations { database_url: Seq<char>, workqueue: Workqueue },
}

impl View for StartTask {
    type V = StartTaskView;

    open spec fn view(&self) -> StartTaskView {
        match self {
            StartTask::LoadWorkqueue { timeout_secs } => StartTaskView::LoadWorkqueue {
                timeout_secs: *timeout_secs,
            },
            StartTask::RunMigrations { database_url, workqueue } => StartTaskView::RunMigrations {
                database_url: database_url@,
                workqueue: *workqueue,
            },
        }
    }
}

/// The outcome of a [`StartTask`].
#[derive(Clone, Copy, Debug, PartialEq, Eq, Structural)]
pub enum StartEvent {
    WorkqueueLoaded,
    WorkqueueFailed,
    WorkqueueTimedOut,
    MigrationsDone,
    MigrationsFailed,
}

/// With what the server is launched.
pub struct Launch {
    pub database_url: String,
    /// The name under which the bot acts.
    pub username: String,
    pub workqueue: Workqueue,
    /// Whether the background jobs are started.
    pub run_jobs: bool,
}

/// The model of a [`Launch`].
pub struct LaunchView {
    pub database_url: Seq<char>,
    pub username: Seq<char>,
    pub workqueue: Workqueue,
    pub run_jobs: bool,
}

impl View for Launch {
    type V = LaunchView;

    open spec fn view(&self) -> LaunchView {
        LaunchView {
            database_url: self.database_url@,
            username: self.username@,
            workqueue: self.workqueue,
            run_jobs: self.run_jobs,
        }
    }
}

/// What comes next on the way up.
pub enum StartStep {
    /// Do this work and hand its outcome to [`resume_server`].
    Perform(StartTask),
    /// Start the jobs and the HTTP server.
    Launch(Launch),
    /// Panic with this message.
    Panic(String),
    /// Give up with the error of the migrations, in this context.
    MigrationError(String),
    /// Give up because the username is not valid Unicode.
    UsernameError,
}

/// The model of a [`StartStep`].
pub enum StartStepView {
    Perform(StartTaskView),
    Launch(LaunchView),
    Panic(Seq<char>),
    MigrationError(Seq<char>),
    UsernameError,
}

impl View for StartStep {
    type V = StartStepView;

    open spec fn view(&self) -> StartStepView {
        match self {
            StartStep::Perform(task) => StartStepView::Perform(task@),
            StartStep::Launch(launch) => StartStepView::Launch(launch@),
            StartStep::Panic(message) => StartStepView::Panic(message@),
            StartStep::MigrationError(context) => StartStepView::MigrationError(context@),
            StartStep::UsernameError => StartStepView::UsernameError,
        }
    }
}

/// The step once the database is ready.
pub open spec fn launch_step(
    env: ServerEnvView,
    database_url: Seq<char>,
    workqueue: Workqueue,
) -> StartStepView {
    let run_jobs = env.disable_jobs == EnvVarView::Unset;
    match env.username {
        EnvVarView::Value(username) => StartStepView::Launch(
            LaunchView { database_url, username, workqueue, run_jobs },
        ),
        EnvVarView::Unset => StartStepView::Launch(
            LaunchView { database_url, username: "rustbot"@, workqueue, run_jobs },
        ),
        EnvVarView::NotUnicode => StartStepView::UsernameError,
    }
}

/// The step once the workqueue is settled.
pub open spec fn database_step(env: ServerEnvView, workqueue: Workqueue) -> StartStepView {
    match env.database_url {
        EnvVarView::Value(database_url) => if switched_on(env.skip_db_migrations) {
            launch_step(env, database_url, workqueue)
        } else {
            StartStepView::Perform(StartTaskView::RunMigrations { database_url, workqueue })
        },
        _ => StartStepView::Panic("needs DATABASE_URL"@),
    }
}

/// The first step.
pub open spec fn first_start_step(env: ServerEnvView) -> StartStepView {
    if switched_on(env.skip_workqueue) {
        database_step(env, Workqueue::Empty)
    } else {
        StartStepView::Perform(
            StartTaskView::LoadWorkqueue { timeout_secs: WORKQUEUE_TIMEOUT_SECS },
        )
    }
}

/// Whether `event` is an outcome of `task`.
pub open spec fn is_start_outcome(task: StartTaskView, event: StartEvent) -> bool {
    match task {
        StartTaskView::LoadWorkqueue { .. } => event is WorkqueueLoaded || event is WorkqueueFailed
            || event is WorkqueueTimedOut,
        StartTaskView::RunMigrations { .. } => event is MigrationsDone || event is MigrationsFailed,
    }
}

/// The step that follows an outcome of a task. Where the workqueue could not be loaded, the
/// server comes up with an empty one.
pub open spec fn next_start_step(
    env: ServerEnvView,
    task: StartTaskView,
    event: StartEvent,
) -> StartStepView {
    match task {
        StartTaskView::LoadWorkqueue { .. } => database_step(
            env,
            if event is WorkqueueLoaded {
                Workqueue::Loaded
            } else {
                Workqueue::Empty
            },
        ),
        StartTaskView::RunMigrations { database_url, workqueue } => if event is MigrationsDone {
            launch_step(env, database_url, workqueue)
        } else {
            StartStepView::MigrationError("database migrations"@)
        },
    }
}

fn launch(env: &ServerEnv, database_url: String, workqueue: Workqueue) -> (step: StartStep)
    ensures
        step@ == launch_step(env@, database_url@, workqueue),
{
    let username: String = match &env.username {
        EnvVar::Value(username) => username.clone(),
        EnvVar::Unset => "rustbot".to_owned(),
        EnvVar::NotUnicode => {
            return StartStep::UsernameError;
        },
    };
    let run_jobs: bool = !is_scheduled_jobs_disabled(&env.disable_jobs);
    StartStep::Launch(Launch { database_url, username, workqueue, run_jobs })
}

fn prepare_database(env: &ServerEnv, workqueue: Workqueue) -> (step: StartStep)
    ensures
        step@ == database_step(env@, workqueue),
{
    match &env.database_url {
        EnvVar::Value(database_url) => {
            let database_url: String = database_url.clone();
            if is_switched_on(&env.skip_db_migrations) {
                launch(env, database_url, workqueue)
            } else {
                StartStep::Perform(StartTask::RunMigrations { database_url, workqueue })
            }
        },
        _ => StartStep::Panic("needs DATABASE_URL".to_owned()),
    }
}

/// Decides the first step on the way up.
pub fn run_server(env: &ServerEnv) -> (step: StartStep)
    ensures
        step@ == first_start_step(env@),
{
    if is_switched_on(&env.skip_workqueue) {
        prepare_database(env, Workqueue::Empty)
    } else {
        StartStep::Perform(StartTask::LoadWorkqueue { timeout_secs: WORKQUEUE_TIMEOUT_SECS })
    }
}

/// Decides the step that follows an outcome of a task.
pub fn resume_server(env: &ServerEnv, task: StartTask, event: StartEvent) -> (step: StartStep)
    requires
        is_start_outcome(task@, event),
    ensures
        step@ == next_start_step(env@, task@, event),
{
    match task {
        StartTask::LoadWorkqueue { .. } => match event {
            StartEvent::WorkqueueLoaded => prepare_database(env, Workqueue::Loaded),
            _ => prepare_database(env, Workqueue::Empty),
        },
        StartTask::RunMigrations { database_url, workqueue } => match event {
            StartEvent::MigrationsDone => launch(env, database_url, workqueue),
            _ => StartStep::MigrationError("database migrations".to_owned()),
        },
    }
}

} // verus!
