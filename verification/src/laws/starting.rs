//! What the server comes up with.

use crate::config::EnvVarView;
use crate::startup::{
    first_start_step, is_start_outcome, next_start_step, LaunchView, ServerEnvView, StartEvent,
    StartStepView, StartTaskView, Workqueue,
};
use vstd::prelude::*;

verus! {

/// Unless that is skipped by the value `1`, the first thing is to load the workqueue, which may
/// take a minute; it may be loaded, fail or time out, and nothing else comes of it.
pub proof fn law_workqueue_comes_first(env: ServerEnvView, event: StartEvent)
    requires
        env.skip_workqueue != EnvVarView::Value("1"@),
    ensures
        first_start_step(env) matches StartStepView::Perform(task) && {
            &&& task == (StartTaskView::LoadWorkqueue { timeout_secs: 60 })
            &&& is_start_outcome(task, event) <==> event == StartEvent::WorkqueueLoaded || event
                == StartEvent::WorkqueueFailed || event == StartEvent::WorkqueueTimedOut
        },
{
}

/// Migrations are done or fail, and nothing else comes of them.
pub proof fn law_migrations_end(
    database_url: Seq<char>,
    workqueue: Workqueue,
    event: StartEvent,
)
    ensures
        is_start_outcome(StartTaskView::RunMigrations { database_url, workqueue }, event) <==> event
            == StartEvent::MigrationsDone || event == StartEvent::MigrationsFailed,
{
}

/// A workqueue that was loaded is launched, whether the migrations are skipped or done; the
/// database is that of the environment throughout.
pub proof fn law_loaded_workqueue_is_launched(
    env: ServerEnvView,
    timeout_secs: u64,
    database_url: Seq<char>,
    username: Seq<char>,
)
    requires
        env.database_url == EnvVarView::Value(database_url),
        env.username == EnvVarView::Value(username) || env.username == EnvVarView::Unset && username
            == "rustbot"@,
    ensures
        ({
            let load = StartTaskView::LoadWorkqueue { timeout_secs };
            let step = next_start_step(env, load, StartEvent::WorkqueueLoaded);
            let launch = LaunchView {
                database_url,
                username,
                workqueue: Workqueue::Loaded,
                run_jobs: env.disable_jobs is Unset,
            };
            &&& env.skip_db_migrations == EnvVarView::Value("1"@) ==> step == StartStepView::Launch(
                launch,
            )
            &&& env.skip_db_migrations != EnvVarView::Value("1"@) ==> {
                let migrate = StartTaskView::RunMigrations {
                    database_url,
                    workqueue: Workqueue::Loaded,
                };
                &&& step == StartStepView::Perform(migrate)
                &&& next_start_step(env, migrate, StartEvent::MigrationsDone)
                    == StartStepView::Launch(launch)
            }
        }),
{
}

/// Where loading the workqueue failed or timed out, an empty one is launched, whether the
/// migrations are skipped or done; the database is that of the environment throughout.
pub proof fn law_workqueue_that_failed_is_empty(
    env: ServerEnvView,
    timeout_secs: u64,
    event: StartEvent,
    database_url: Seq<char>,
    username: Seq<char>,
)
    requires
        event == StartEvent::WorkqueueFailed || event == StartEvent::WorkqueueTimedOut,
        env.database_url == EnvVarView::Value(database_url),
        env.username == EnvVarView::Value(username) || env.username == EnvVarView::Unset && username
            == "rustbot"@,
    ensures
        ({
            let load = StartTaskView::LoadWorkqueue { timeout_secs };
            let step = next_start_step(env, load, event);
            let launch = LaunchView {
                database_url,
                username,
                workqueue: Workqueue::Empty,
                run_jobs: env.disable_jobs is Unset,
            };
            &&& env.skip_db_migrations == EnvVarView::Value("1"@) ==> step == StartStepView::Launch(
                launch,
            )
            &&& env.skip_db_migrations != EnvVarView::Value("1"@) ==> {
                let migrate = StartTaskView::RunMigrations {
                    database_url,
                    workqueue: Workqueue::Empty,
                };
                &&& step == StartStepView::Perform(migrate)
                &&& next_start_step(env, migrate, StartEvent::MigrationsDone)
                    == StartStepView::Launch(launch)
            }
        }),
{
}

/// Where loading the workqueue is skipped, an empty one is launched, whether the migrations are
/// skipped or done; the database is that of the environment throughout.
pub proof fn law_workqueue_that_was_skipped_is_empty(
    env: ServerEnvView,
    database_url: Seq<char>,
    username: Seq<char>,
)
    requires
        env.skip_workqueue == EnvVarView::Value("1"@),
        env.database_url == EnvVarView::Value(database_url),
        env.username == EnvVarView::Value(username) || env.username == EnvVarView::Unset && username
            == "rustbot"@,
    ensures
        ({
            let step = first_start_step(env);
            let launch = LaunchView {
                database_url,
                username,
                workqueue: Workqueue::Empty,
                run_jobs: env.disable_jobs is Unset,
            };
            &&& env.skip_db_migrations == EnvVarView::Value("1"@) ==> step == StartStepView::Launch(
                launch,
            )
            &&& env.skip_db_migrations != EnvVarView::Value("1"@) ==> {
                let migrate = StartTaskView::RunMigrations {
                    database_url,
                    workqueue: Workqueue::Empty,
                };
                &&& step == StartStepView::Perform(migrate)
                &&& next_start_step(env, migrate, StartEvent::MigrationsDone)
                    == StartStepView::Launch(launch)
            }
        }),
{
}

/// However the server comes to be launched after it tried to load the workqueue, it is launched
/// with the workqueue exactly where that was loaded, with the database of the environment, and
/// without migrations only where the environment skips them.
pub proof fn law_launch_follows_from_what_happened(
    env: ServerEnvView,
    timeout_secs: u64,
    load: StartEvent,
    migrate: StartEvent,
)
    requires
        load == StartEvent::WorkqueueLoaded || load == StartEvent::WorkqueueFailed || load
            == StartEvent::WorkqueueTimedOut,
        migrate == StartEvent::MigrationsDone || migrate == StartEvent::MigrationsFailed,
    ensures
        ({
            let step = next_start_step(env, StartTaskView::LoadWorkqueue { timeout_secs }, load);
            &&& step matches StartStepView::Launch(launch) ==> {
                &&& launch.workqueue == Workqueue::Loaded <==> load == StartEvent::WorkqueueLoaded
                &&& env.database_url == EnvVarView::Value(launch.database_url)
                &&& env.skip_db_migrations == EnvVarView::Value("1"@)
                &&& launch.run_jobs <==> env.disable_jobs == EnvVarView::Unset
            }
            &&& step matches StartStepView::Perform(task) ==> (next_start_step(
                env,
                task,
                migrate,
            ) matches StartStepView::Launch(launch) ==> {
                &&& launch.workqueue == Workqueue::Loaded <==> load == StartEvent::WorkqueueLoaded
                &&& env.database_url == EnvVarView::Value(launch.database_url)
                &&& env.skip_db_migrations != EnvVarView::Value("1"@)
                &&& migrate == StartEvent::MigrationsDone
                &&& launch.run_jobs <==> env.disable_jobs == EnvVarView::Unset
            })
        }),
{
}

/// Migrations are followed by a launch with the database that they ran on and the workqueue that
/// was settled before them; where they fail, the server gives up.
pub proof fn law_migrations_keep_the_workqueue(
    env: ServerEnvView,
    database_url: Seq<char>,
    workqueue: Workqueue,
    username: Seq<char>,
)
    ensures
        ({
            let migrate = StartTaskView::RunMigrations { database_url, workqueue };
            let step = next_start_step(env, migrate, StartEvent::MigrationsDone);
            &&& env.username == EnvVarView::Value(username) || env.username == EnvVarView::Unset
                && username == "rustbot"@ ==> {
                &&& step matches StartStepView::Launch(launch)
                &&& launch.database_url == database_url
                &&& launch.workqueue == workqueue
                &&& launch.username == username
                &&& launch.run_jobs <==> env.disable_jobs == EnvVarView::Unset
            }
            &&& env.username == EnvVarView::NotUnicode ==> step == StartStepView::UsernameError
            &&& next_start_step(env, migrate, StartEvent::MigrationsFailed)
                == StartStepView::MigrationError("database migrations"@)
        }),
{
}

/// Without a database, or with one that is not named in Unicode, the server panics once the
/// workqueue is settled.
pub proof fn law_database_is_needed(env: ServerEnvView, timeout_secs: u64, event: StartEvent)
    requires
        env.database_url == EnvVarView::Unset || env.database_url == EnvVarView::NotUnicode,
        event == StartEvent::WorkqueueLoaded || event == StartEvent::WorkqueueFailed || event
            == StartEvent::WorkqueueTimedOut,
    ensures
        next_start_step(env, StartTaskView::LoadWorkqueue { timeout_secs }, event)
            == StartStepView::Panic("needs DATABASE_URL"@),
        env.skip_workqueue == EnvVarView::Value("1"@) ==> first_start_step(env)
            == StartStepView::Panic("needs DATABASE_URL"@),
{
}

/// A username that is not Unicode keeps the server from being launched, whatever becomes of the
/// workqueue and of the migrations.
pub proof fn law_username_is_text(
    env: ServerEnvView,
    timeout_secs: u64,
    event: StartEvent,
    database_url: Seq<char>,
)
    requires
        env.username == EnvVarView::NotUnicode,
        env.database_url == EnvVarView::Value(database_url),
        env.skip_db_migrations == EnvVarView::Value("1"@),
        event == StartEvent::WorkqueueLoaded || event == StartEvent::WorkqueueFailed || event
            == StartEvent::WorkqueueTimedOut,
    ensures
        next_start_step(env, StartTaskView::LoadWorkqueue { timeout_secs }, event)
            == StartStepView::UsernameError,
        env.skip_workqueue == EnvVarView::Value("1"@) ==> first_start_step(env)
            == StartStepView::UsernameError,
{
}

} // verus!
