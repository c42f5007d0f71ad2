//! What the models of the library's values hold: every part of a value, as it is.

use crate::config::{EnvVar, EnvVarView};
use crate::headers::{header_table, HeaderText, HeaderTextView};
use crate::jobs::{
    SupervisorEvent, SupervisorEventView, SupervisorStep, SupervisorStepView, WorkerStep,
    WorkerStepView,
};
use crate::query::pairs_view;
use crate::response::{Response, Status};
use crate::routes::{Page, PageView};
use crate::serve::{
    Event, EventView, Request, Site, Step, StepView, Task, TaskView,
};
use crate::startup::{
    Launch, ServerEnv, StartStep, StartStepView, StartTask, StartTaskView,
};
use vstd::prelude::*;

verus! {

/// The model of a response has its status, its header and its body.
pub proof fn law_response_model(response: Response)
    ensures
        response@.status == response.status,
        response@.header is Some <==> response.header is Some,
        response.header matches Some(header) ==> response@.header == Some((header.0@, header.1@)),
        response@.body == response.body@,
{
}

/// Each status has its number in the HTTP protocol.
pub proof fn law_status_numbers()
    ensures
        Status::Success.spec_code() == 200,
        Status::BadRequest.spec_code() == 400,
        Status::Forbidden.spec_code() == 403,
        Status::NotFound.spec_code() == 404,
        Status::MethodNotAllowed.spec_code() == 405,
        Status::InternalServerError.spec_code() == 500,
{
}

/// The model of a request has its method, its path, its query string and its headers.
pub proof fn law_request_model(req: Request)
    ensures
        req@.method == req.method@,
        req@.path == req.path@,
        req@.query is Some <==> req.query is Some,
        req.query matches Some(query) ==> req@.query == Some(query@),
        req@.headers == header_table(req.headers),
{
}

/// The model of a site has its paths and its list of agendas.
pub proof fn law_site_model(site: Site)
    ensures
        site@.ansi_up_url == site.ansi_up_url@,
        site@.success_url == site.success_url@,
        site@.failure_url == site.failure_url@,
        site@.agenda_index == site.agenda_index@,
{
}

/// The model of a page is of its kind and has its parameters.
pub proof fn law_page_model(page: Page)
    ensures
        page@ is Index <==> page is Index,
        page@ is Pulls <==> page is Pulls,
        page matches Page::Pulls { owner, repo } ==> page@ == (PageView::Pulls {
            owner: owner@,
            repo: repo@,
        }),
        page matches Page::GhaLogs { owner, repo, log_id } ==> page@ == (PageView::GhaLogs {
            owner: owner@,
            repo: repo@,
            log_id: log_id@,
        }),
{
}

/// The model of a header that was read is of its kind and has its text.
pub proof fn law_header_model(header: HeaderText)
    ensures
        header@ is Missing <==> header is Missing,
        header@ is NotText <==> header is NotText,
        header matches HeaderText::Text(text) ==> header@ == HeaderTextView::Text(text@),
{
}

/// The model of a list of pairs has the pairs in their places.
pub proof fn law_pairs_model(pairs: Seq<(String, String)>)
    ensures
        pairs_view(pairs).len() == pairs.len(),
        forall|i: int|
            0 <= i < pairs.len() ==> #[trigger] pairs_view(pairs)[i] == (
                pairs[i].0@,
                pairs[i].1@,
            ),
{
}

/// The model of a task is of its kind and has what the task needs.
pub proof fn law_task_model(task: Task)
    ensures
        task matches Task::CallAgenda { path } ==> task@ == (TaskView::CallAgenda { path: path@ }),
        task is LoadCommits ==> task@ == TaskView::LoadCommits,
        task matches Task::RenderNotifications { user } ==> task@ == (
        TaskView::RenderNotifications { user: user@ }),
        task is ReadZulipBody ==> task@ == TaskView::ReadZulipBody,
        task matches Task::DecodeZulip { body } ==> task@ == (TaskView::DecodeZulip {
            body: body@,
        }),
        task is AnswerZulip ==> task@ == TaskView::AnswerZulip,
        task matches Task::ReadHookBody { event, signature } ==> task@ == (TaskView::ReadHookBody {
            event: event@,
            signature: signature@,
        }),
        task matches Task::CheckSignature { event, signature, body } ==> task@ == (
        TaskView::CheckSignature { event: event@, signature: signature@, body: body@ }),
        task matches Task::RunWebhook { event, payload } ==> task@ == (TaskView::RunWebhook {
            event: event@,
            payload: payload@,
        }),
{
}

/// The model of an outcome is of its kind and has what came out.
pub proof fn law_event_model(event: Event)
    ensures
        event matches Event::AgendaReady(text) ==> event@ == EventView::AgendaReady(text@),
        event matches Event::AgendaFailed(text) ==> event@ == EventView::AgendaFailed(text@),
        event matches Event::CommitsLoaded(text) ==> event@ == EventView::CommitsLoaded(text@),
        event matches Event::CommitsFailed(text) ==> event@ == EventView::CommitsFailed(text@),
        event matches Event::NotificationsRendered(text) ==> event@
            == EventView::NotificationsRendered(text@),
        event matches Event::BodyRead(body) ==> event@ == EventView::BodyRead(body@),
        event is BodyFailed ==> event@ == EventView::BodyFailed,
        event is ZulipDecoded ==> event@ == EventView::ZulipDecoded,
        event matches Event::ZulipMalformed(text) ==> event@ == EventView::ZulipMalformed(text@),
        event matches Event::ZulipAnswered(text) ==> event@ == EventView::ZulipAnswered(text@),
        event is SignatureValid ==> event@ == EventView::SignatureValid,
        event is SignatureInvalid ==> event@ == EventView::SignatureInvalid,
        event matches Event::WebhookHandled(done) ==> event@ == EventView::WebhookHandled(done),
        event matches Event::WebhookFailed(text) ==> event@ == EventView::WebhookFailed(text@),
{
}

/// The model of a step is of its kind and has the model of what the step holds.
pub proof fn law_step_model(step: Step)
    ensures
        step matches Step::Respond(response) ==> step@ == StepView::Respond(response@),
        step matches Step::ShowPage(page) ==> step@ == StepView::ShowPage(page@),
        step matches Step::SendAsset(asset) ==> step@ == StepView::SendAsset(asset),
        step matches Step::Perform(task) ==> step@ == StepView::Perform(task@),
        step is Fail ==> step@ == StepView::Fail,
{
}

/// The model of a variable is of its kind and has its value, and the model of the environment has
/// the models of its variables.
pub proof fn law_environment_model(var: EnvVar, env: ServerEnv)
    ensures
        var matches EnvVar::Value(text) ==> var@ == EnvVarView::Value(text@),
        var is NotUnicode ==> var@ == EnvVarView::NotUnicode,
        var is Unset ==> var@ == EnvVarView::Unset,
        env@.skip_workqueue == env.skip_workqueue@,
        env@.database_url == env.database_url@,
        env@.skip_db_migrations == env.skip_db_migrations@,
        env@.username == env.username@,
        env@.disable_jobs == env.disable_jobs@,
{
}

/// The model of a task on the way up is of its kind and has what the task needs.
pub proof fn law_start_task_model(task: StartTask)
    ensures
        task matches StartTask::LoadWorkqueue { timeout_secs } ==> task@ == (
        StartTaskView::LoadWorkqueue { timeout_secs }),
        task matches StartTask::RunMigrations { database_url, workqueue } ==> task@ == (
        StartTaskView::RunMigrations { database_url: database_url@, workqueue }),
{
}

/// The model of a launch has all that the server is launched with.
pub proof fn law_launch_model(launch: Launch)
    ensures
        launch@.database_url == launch.database_url@,
        launch@.username == launch.username@,
        launch@.workqueue == launch.workqueue,
        launch@.run_jobs == launch.run_jobs,
{
}

/// The model of a step on the way up is of its kind and has the model of what the step holds.
pub proof fn law_start_step_model(step: StartStep)
    ensures
        step matches StartStep::Perform(task) ==> step@ == StartStepView::Perform(task@),
        step matches StartStep::Launch(launch) ==> step@ == StartStepView::Launch(launch@),
        step matches StartStep::Panic(message) ==> step@ == StartStepView::Panic(message@),
        step matches StartStep::MigrationError(context) ==> step@
            == StartStepView::MigrationError(context@),
        step is UsernameError ==> step@ == StartStepView::UsernameError,
{
}

/// The models of what jobs and supervisors do are of their kinds and have their texts and times.
pub proof fn law_job_models(
    work: WorkerStep,
    event: SupervisorEvent,
    step: SupervisorStep,
)
    ensures
        work is AwaitTick ==> work@ == WorkerStepView::AwaitTick,
        work is Work ==> work@ == WorkerStepView::Work,
        work matches WorkerStep::Panic(context) ==> work@ == WorkerStepView::Panic(context@),
        event is Started ==> event@ == SupervisorEventView::Started,
        event matches SupervisorEvent::Panicked(error) ==> event@ == SupervisorEventView::Panicked(
            error@,
        ),
        event is Ended ==> event@ == SupervisorEventView::Ended,
        event is Rested ==> event@ == SupervisorEventView::Rested,
        step is Launch ==> step@ == SupervisorStepView::Launch,
        step matches SupervisorStep::Rest { report, secs } ==> step@ == (SupervisorStepView::Rest {
            report: report@,
            secs,
        }),
        step is Unreachable ==> step@ == SupervisorStepView::Unreachable,
{
}

} // verus!
