use triagebot_server::agenda::{
    agenda_failure, handle_agenda_request, Agenda, AGENDA_BUFFER, AGENDA_PERIOD_SECS, AGENDA_RATE,
};
use triagebot_server::config::{
    is_output_colored, is_scheduled_jobs_disabled, is_switched_on, listen_address, parse_port,
    EnvVar,
};
use triagebot_server::jobs::{
    supervise, work, Job, SupervisorEvent, SupervisorStep, WorkerEvent, WorkerStep,
};
use triagebot_server::startup::{
    resume_server, run_server, Launch, ServerEnv, StartEvent, StartStep, StartTask, Workqueue,
};

fn value(text: &str) -> EnvVar {
    EnvVar::Value(text.to_string())
}

#[test]
fn known_agendas() {
    assert_eq!(handle_agenda_request("/agenda/lang/triage"), Ok(Agenda::LangTriage));
    assert_eq!(handle_agenda_request("/agenda/lang/planning"), Ok(Agenda::LangPlanning));
    assert_eq!(handle_agenda_request("/agenda/types/planning"), Ok(Agenda::TypesPlanning));
}

#[test]
fn unknown_agenda() {
    assert_eq!(
        handle_agenda_request("/agenda"),
        Err("Unknown agenda; see /agenda for index.".to_string())
    );
}

#[test]
fn agenda_limits() {
    assert_eq!(AGENDA_BUFFER, 10);
    assert_eq!(AGENDA_RATE, 2);
    assert_eq!(AGENDA_PERIOD_SECS, 60);
    assert_eq!(agenda_failure(), "Rate limit of 2 request / 60 seconds exceeded");
}

#[test]
fn ports() {
    assert_eq!(parse_port("0"), Some(0));
    assert_eq!(parse_port("80"), Some(80));
    assert_eq!(parse_port("+8080"), Some(8080));
    assert_eq!(parse_port("0000000000000080"), Some(80));
    assert_eq!(parse_port("65535"), Some(65535));
    assert_eq!(parse_port("65536"), None);
    assert_eq!(parse_port("99999999999999999999"), None);
}

#[test]
fn not_ports() {
    for text in ["", "+", "-", "-1", "++1", " 80", "80 ", "8_0", "8a", "٣", "+٣", "65536x"] {
        assert_eq!(parse_port(text), None);
    }
}

#[test]
fn ports_agree_with_the_standard_library() {
    for port in 0..=u16::MAX {
        assert_eq!(parse_port(&port.to_string()), Some(port));
    }
    for text in ["", "+", "+0", "-0", "70000", "1e3", "0x10", "\u{661}"] {
        assert_eq!(parse_port(text), text.parse::<u16>().ok());
    }
}

#[test]
fn addresses() {
    assert_eq!(listen_address(&EnvVar::Unset), Some(([0, 0, 0, 0], 8000)));
    assert_eq!(listen_address(&EnvVar::NotUnicode), Some(([0, 0, 0, 0], 8000)));
    assert_eq!(listen_address(&value("3000")), Some(([0, 0, 0, 0], 3000)));
    assert_eq!(listen_address(&value("")), None);
}

#[test]
fn switches() {
    assert!(is_switched_on(&value("1")));
    assert!(!is_switched_on(&value("true")));
    assert!(!is_switched_on(&value("")));
    assert!(!is_switched_on(&EnvVar::NotUnicode));
    assert!(!is_switched_on(&EnvVar::Unset));
}

#[test]
fn presence_of_variables() {
    assert!(is_scheduled_jobs_disabled(&value("")));
    assert!(is_scheduled_jobs_disabled(&EnvVar::NotUnicode));
    assert!(!is_scheduled_jobs_disabled(&EnvVar::Unset));
    assert!(!is_output_colored(&value("0")));
    assert!(!is_output_colored(&EnvVar::NotUnicode));
    assert!(is_output_colored(&EnvVar::Unset));
}

fn env() -> ServerEnv {
    ServerEnv {
        skip_workqueue: EnvVar::Unset,
        database_url: value("postgres://db"),
        skip_db_migrations: EnvVar::Unset,
        username: EnvVar::Unset,
        disable_jobs: EnvVar::Unset,
    }
}

fn start_task(step: StartStep) -> StartTask {
    match step {
        StartStep::Perform(task) => task,
        _ => panic!("no task"),
    }
}

fn launched(step: StartStep) -> Launch {
    match step {
        StartStep::Launch(launch) => launch,
        _ => panic!("not launched"),
    }
}

#[test]
fn server_comes_up() {
    let env = env();
    let loading = start_task(run_server(&env));
    assert!(matches!(loading, StartTask::LoadWorkqueue { timeout_secs: 60 }));
    let migrating = start_task(resume_server(&env, loading, StartEvent::WorkqueueLoaded));
    match &migrating {
        StartTask::RunMigrations { database_url, workqueue } => {
            assert_eq!(database_url, "postgres://db");
            assert_eq!(*workqueue, Workqueue::Loaded);
        }
        _ => panic!("no migrations"),
    }
    let launch = launched(resume_server(&env, migrating, StartEvent::MigrationsDone));
    assert_eq!(launch.database_url, "postgres://db");
    assert_eq!(launch.username, "rustbot");
    assert_eq!(launch.workqueue, Workqueue::Loaded);
    assert!(launch.run_jobs);
}

#[test]
fn workqueue_failure_leaves_it_empty() {
    let mut env = env();
    env.skip_db_migrations = value("1");
    env.username = value("bot");
    env.disable_jobs = value("");
    for event in [StartEvent::WorkqueueFailed, StartEvent::WorkqueueTimedOut] {
        let launch = launched(resume_server(&env, start_task(run_server(&env)), event));
        assert_eq!(launch.workqueue, Workqueue::Empty);
        assert_eq!(launch.username, "bot");
        assert!(!launch.run_jobs);
    }
}

#[test]
fn skipping_the_workqueue_goes_to_the_migrations() {
    let mut env = env();
    env.skip_workqueue = value("1");
    assert!(matches!(
        run_server(&env),
        StartStep::Perform(StartTask::RunMigrations { workqueue: Workqueue::Empty, .. })
    ));
    env.skip_db_migrations = value("1");
    assert_eq!(launched(run_server(&env)).workqueue, Workqueue::Empty);
}

#[test]
fn database_is_needed_after_the_workqueue() {
    let mut env = env();
    env.database_url = EnvVar::Unset;
    let loading = start_task(run_server(&env));
    match resume_server(&env, loading, StartEvent::WorkqueueLoaded) {
        StartStep::Panic(message) => assert_eq!(message, "needs DATABASE_URL"),
        _ => panic!("came up without a database"),
    }
    env.database_url = EnvVar::NotUnicode;
    env.skip_workqueue = value("1");
    assert!(matches!(run_server(&env), StartStep::Panic(_)));
}

#[test]
fn migrations_may_fail() {
    let env = env();
    let migrating = StartTask::RunMigrations {
        database_url: "postgres://db".to_string(),
        workqueue: Workqueue::Empty,
    };
    match resume_server(&env, migrating, StartEvent::MigrationsFailed) {
        StartStep::MigrationError(context) => assert_eq!(context, "database migrations"),
        _ => panic!("came up without migrations"),
    }
}

#[test]
fn username_must_be_text() {
    let mut env = env();
    env.skip_workqueue = value("1");
    env.skip_db_migrations = value("1");
    env.username = EnvVar::NotUnicode;
    assert!(matches!(run_server(&env), StartStep::UsernameError));
}

#[test]
fn workers_work_at_every_tick() {
    for job in [Job::Schedule, Job::Run] {
        assert!(matches!(work(job, WorkerEvent::Launched), WorkerStep::AwaitTick));
        assert!(matches!(work(job, WorkerEvent::Ticked), WorkerStep::Work));
        assert!(matches!(work(job, WorkerEvent::Succeeded), WorkerStep::AwaitTick));
    }
}

#[test]
fn workers_panic_in_context() {
    match work(Job::Schedule, WorkerEvent::Failed) {
        WorkerStep::Panic(context) => assert_eq!(context, "database schedule jobs"),
        _ => panic!("went on"),
    }
    match work(Job::Run, WorkerEvent::Failed) {
        WorkerStep::Panic(context) => assert_eq!(context, "run database scheduled jobs"),
        _ => panic!("went on"),
    }
}

#[test]
fn supervisors_relaunch() {
    for (job, report) in [
        (Job::Schedule, "schedule_jobs task died (error=boom)"),
        (Job::Run, "run_scheduled_jobs task died (error=boom)"),
    ] {
        assert!(matches!(supervise(job, SupervisorEvent::Started), SupervisorStep::Launch));
        match supervise(job, SupervisorEvent::Panicked("boom".to_string())) {
            SupervisorStep::Rest { report: text, secs } => {
                assert_eq!(text, report);
                assert_eq!(secs, 5);
            }
            _ => panic!("did not rest"),
        }
        assert!(matches!(supervise(job, SupervisorEvent::Rested), SupervisorStep::Launch));
        assert!(matches!(supervise(job, SupervisorEvent::Ended), SupervisorStep::Unreachable));
    }
}
