//! Serving one request.
//!
//! [`serve_req`] decides what a request is answered with, or which work has to be done before it
//! can be answered; [`resume`] takes the outcome of that work and decides how to go on.

use crate::agenda::agenda_at;
use crate::headers::{
    header_table, header_text, lemma_webhook_header_names, read_header, HeaderText, HeaderTextView,
};
use crate::query::{
    first_value, form_pairs, is_literal, literal_pairs, pairs_view, parse_form, requested_user,
};
use crate::response::{Response, ResponseView, Status};
use crate::routes::{find_page, page_of, Page, PageView};
use crate::text::{same_text, utf8_text};
use hyper::header::{HeaderMap, HeaderValue};
use vstd::prelude::*;
use vstd::string::StringExecFns;
use vstd::utf8::{decode_utf8, valid_utf8};

verus! {

/// What the server reads of a request before its body.
pub struct Request {
    pub method: String,
    pub path: String,
    pub query: Option<String>,
    pub headers: HeaderMap<HeaderValue>,
}

/// The model of a [`Request`].
pub struct RequestView {
    pub method: Seq<char>,
    pub path: Seq<char>,
    pub query: Option<Seq<char>>,
    pub headers: Map<Seq<char>, Seq<u8>>,
}

impl View for Request {
    type V = RequestView;

    open spec fn view(&self) -> RequestView {
        RequestView {
            method: self.method@,
            path: self.path@,
            query: match self.query {
                Some(query) => Some(query@),
                None => None,
            },
            headers: header_table(self.headers),
        }
    }
}

impl RequestView {
    /// Whether the path can be matched against URL patterns: it holds no NUL character.
    pub open spec fn well_formed(self) -> bool {
        !self.path.contains('\0')
    }

    /// The name and value pairs in the query string.
    pub open spec fn pairs(self) -> Seq<(Seq<char>, Seq<char>)> {
        match self.query {
            Some(query) => form_pairs(query),
            None => Seq::empty(),
        }
    }
}

/// The fixed parts of the site.
pub struct Site {
    /// The path of the script that renders colored logs.
    pub ansi_up_url: String,
    /// The path of the icon for a job that succeeded.
    pub success_url: String,
    /// The path of the icon for a job that failed.
    pub failure_url: String,
    /// The page that lists the agendas.
    pub agenda_index: String,
}

/// The model of a [`Site`].
pub struct SiteView {
    pub ansi_up_url: Seq<char>,
    pub success_url: Seq<char>,
    pub failure_url: Seq<char>,
    pub agenda_index: Seq<char>,
}

impl SiteView {
    /// Whether `path` is the path of one of the site's files.
    pub open spec fn has_asset(self, path: Seq<char>) -> bool {
        path == self.ansi_up_url || path == self.success_url || path == self.failure_url
    }
}

impl View for Site {
    type V = SiteView;

    open spec fn view(&self) -> SiteView {
        SiteView {
            ansi_up_url: self.ansi_up_url@,
            success_url: self.success_url@,
            failure_url: self.failure_url@,
            agenda_index: self.agenda_index@,
        }
    }
}

/// A file that the site serves as it is.
#[derive(Clone, Copy, Debug, PartialEq, Eq, Structural)]
pub enum Asset {
    AnsiUpScript,
    SuccessIcon,
    FailureIcon,
}

/// Work that has to be done before a request can be answered.
pub enum Task {
    /// Ask the agenda service for the agenda under this path.
    CallAgenda { path: String },
    /// Load the commits that have artifacts.
    LoadCommits,
    /// Render the notifications of a user.
    RenderNotifications { user: String },
    /// Read the body of a Zulip request.
    ReadZulipBody,
    /// Decode the body of a Zulip request.
    DecodeZulip { body: Vec<u8> },
    /// Respond to the Zulip request that was decoded.
    AnswerZulip,
    /// Read the body of a webhook.
    ReadHookBody { event: String, signature: String },
    /// Check the signature of a webhook against its body.
    CheckSignature { event: String, signature: String, body: Vec<u8> },
    /// Handle a webhook.
    RunWebhook { event: String, payload: String },
}

/// The model of a [`Task`].
pub enum TaskView {
    CallAgenda { path: Seq<char> },
    LoadCommits,
    RenderNotifications { user: Seq<char> },
    ReadZulipBody,
    DecodeZulip { body: Seq<u8> },
    AnswerZulip,
    ReadHookBody { event: Seq<char>, signature: Seq<char> },
    CheckSignature { event: Seq<char>, signature: Seq<char>, body: Seq<u8> },
    RunWebhook { event: Seq<char>, payload: Seq<char> },
}

impl View for Task {
    type V = TaskView;

    open spec fn view(&self) -> TaskView {
        match self {
            Task::CallAgenda { path } => TaskView::CallAgenda { path: path@ },
            Task::LoadCommits => TaskView::LoadCommits,
            Task::RenderNotifications { user } => TaskView::RenderNotifications { user: user@ },
            Task::ReadZulipBody => TaskView::ReadZulipBody,
            Task::DecodeZulip { body } => TaskView::DecodeZulip { body: body@ },
            Task::AnswerZulip => TaskView::AnswerZulip,
            Task::ReadHookBody { event, signature } => TaskView::ReadHookBody {
                event: event@,
                signature: signature@,
            },
            Task::CheckSignature { event, signature, body } => TaskView::CheckSignature {
                event: event@,
                signature: signature@,
                body: body@,
            },
            Task::RunWebhook { event, payload } => TaskView::RunWebhook {
                event: event@,
                payload: payload@,
            },
        }
    }
}

/// The outcome of a [`Task`]. Errors come as the text to report.
pub enum Event {
    AgendaReady(String),
    AgendaFailed(String),
    /// The commits, as JSON.
    CommitsLoaded(String),
    CommitsFailed(String),
    NotificationsRendered(String),
    BodyRead(Vec<u8>),
    BodyFailed,
    ZulipDecoded,
    ZulipMalformed(String),
    ZulipAnswered(String),
    SignatureValid,
    SignatureInvalid,
    /// The webhook was handled; whether anything was done for it.
    WebhookHandled(bool),
    WebhookFailed(String),
}

/// The model of an [`Event`].
pub enum EventView {
    AgendaReady(Seq<char>),
    AgendaFailed(Seq<char>),
    CommitsLoaded(Seq<char>),
    CommitsFailed(Seq<char>),
    NotificationsRendered(Seq<char>),
    BodyRead(Seq<u8>),
    BodyFailed,
    ZulipDecoded,
    ZulipMalformed(Seq<char>),
    ZulipAnswered(Seq<char>),
    SignatureValid,
    SignatureInvalid,
    WebhookHandled(bool),
    WebhookFailed(Seq<char>),
}

impl View for Event {
    type V = EventView;

    open spec fn view(&self) -> EventView {
        match self {
            Event::AgendaReady(text) => EventView::AgendaReady(text@),
            Event::AgendaFailed(text) => EventView::AgendaFailed(text@),
            Event::CommitsLoaded(text) => EventView::CommitsLoaded(text@),
            Event::CommitsFailed(text) => EventView::CommitsFailed(text@),
            Event::NotificationsRendered(text) => EventView::NotificationsRendered(text@),
            Event::BodyRead(body) => EventView::BodyRead(body@),
            Event::BodyFailed => EventView::BodyFailed,
            Event::ZulipDecoded => EventView::ZulipDecoded,
            Event::ZulipMalformed(text) => EventView::ZulipMalformed(text@),
            Event::ZulipAnswered(text) => EventView::ZulipAnswered(text@),
            Event::SignatureValid => EventView::SignatureValid,
            Event::SignatureInvalid => EventView::SignatureInvalid,
            Event::WebhookHandled(done) => EventView::WebhookHandled(*done),
            Event::WebhookFailed(text) => EventView::WebhookFailed(text@),
        }
    }
}

/// What comes next for a request.
pub enum Step {
    /// Send this response.
    Respond(Response),
    /// Let this page answer.
    ShowPage(Page),
    /// Send this file.
    SendAsset(Asset),
    /// Do this work and hand its outcome to [`resume`].
    Perform(Task),
    /// Give up with the error that reading the body ended in.
    Fail,
}

/// The model of a [`Step`].
pub enum StepView {
    Respond(ResponseView),
    ShowPage(PageView),
    SendAsset(Asset),
    Perform(TaskView),
    Fail,
}

impl View for Step {
    type V = StepView;

    open spec fn view(&self) -> StepView {
        match self {
            Step::Respond(response) => StepView::Respond(response@),
            Step::ShowPage(page) => StepView::ShowPage(page@),
            Step::SendAsset(asset) => StepView::SendAsset(*asset),
            Step::Perform(task) => StepView::Perform(task@),
            Step::Fail => StepView::Fail,
        }
    }
}

/// The response that carries `body` with the given status.
pub open spec fn answer(status: Status, body: Seq<char>) -> StepView {
    StepView::Respond(ResponseView::text(status, body))
}

/// How a request for notifications goes on, for the user that it asks for.
pub open spec fn notifications_for(user: Option<Seq<char>>) -> StepView {
    match user {
        Some(user) => StepView::Perform(TaskView::RenderNotifications { user }),
        None => answer(
            Status::Success,
            "Please provide `?user=<username>` query param on URL."@,
        ),
    }
}

/// How a webhook goes on before its body is read.
pub open spec fn github_hook(
    method: Seq<char>,
    event: HeaderTextView,
    signature: HeaderTextView,
) -> StepView {
    if method != "POST"@ {
        StepView::Respond(ResponseView::only_post())
    } else {
        match event {
            HeaderTextView::Missing => answer(
                Status::BadRequest,
                "X-GitHub-Event header must be set"@,
            ),
            HeaderTextView::NotText => answer(
                Status::BadRequest,
                "X-GitHub-Event header must be UTF-8 encoded"@,
            ),
            HeaderTextView::Text(event) => match signature {
                HeaderTextView::Missing => answer(
                    Status::BadRequest,
                    "X-Hub-Signature-256 header must be set"@,
                ),
                HeaderTextView::NotText => answer(
                    Status::BadRequest,
                    "X-Hub-Signature-256 header must be UTF-8 encoded"@,
                ),
                HeaderTextView::Text(signature) => StepView::Perform(
                    TaskView::ReadHookBody { event, signature },
                ),
            },
        }
    }
}

/// The first step for a request whose query string stands for `pairs`.
pub open spec fn first_step(
    req: RequestView,
    site: SiteView,
    pairs: Seq<(Seq<char>, Seq<char>)>,
) -> StepView {
    if page_of(req.path) is Some {
        StepView::ShowPage(page_of(req.path)->0)
    } else if req.path == site.ansi_up_url {
        StepView::SendAsset(Asset::AnsiUpScript)
    } else if req.path == site.success_url {
        StepView::SendAsset(Asset::SuccessIcon)
    } else if req.path == site.failure_url {
        StepView::SendAsset(Asset::FailureIcon)
    } else if req.path == "/agenda"@ {
        answer(Status::Success, site.agenda_index)
    } else if agenda_at(req.path) is Some {
        StepView::Perform(TaskView::CallAgenda { path: req.path })
    } else if req.path == "/"@ {
        answer(Status::Success, "Triagebot is awaiting triage."@)
    } else if req.path == "/bors-commit-list"@ {
        StepView::Perform(TaskView::LoadCommits)
    } else if req.path == "/notifications"@ {
        notifications_for(first_value(pairs, "user"@))
    } else if req.path == "/zulip-hook"@ {
        StepView::Perform(TaskView::ReadZulipBody)
    } else if req.path == "/github-hook"@ {
        github_hook(
            req.method,
            header_text(req.headers, "x-github-event"@),
            header_text(req.headers, "x-hub-signature-256"@),
        )
    } else {
        answer(Status::NotFound, Seq::empty())
    }
}

/// Whether `event` is an outcome of `task`.
pub open spec fn is_outcome(task: TaskView, event: EventView) -> bool {
    match task {
        TaskView::CallAgenda { .. } => event is AgendaReady || event is AgendaFailed,
        TaskView::LoadCommits => event is CommitsLoaded || event is CommitsFailed,
        TaskView::RenderNotifications { .. } => event is NotificationsRendered,
        TaskView::ReadZulipBody => event is BodyRead || event is BodyFailed,
        TaskView::DecodeZulip { .. } => event is ZulipDecoded || event is ZulipMalformed,
        TaskView::AnswerZulip => event is ZulipAnswered,
        TaskView::ReadHookBody { .. } => event is BodyRead || event is BodyFailed,
        TaskView::CheckSignature { .. } => event is SignatureValid || event is SignatureInvalid,
        TaskView::RunWebhook { .. } => event is WebhookHandled || event is WebhookFailed,
    }
}

/// The step that follows an outcome of a task. The outcomes that are not listed are those of a
/// body that could not be read.
pub open spec fn next_step(task: TaskView, event: EventView) -> StepView {
    match (task, event) {
        (TaskView::CallAgenda { .. }, EventView::AgendaReady(agenda)) => answer(
            Status::Success,
            agenda,
        ),
        (TaskView::CallAgenda { .. }, EventView::AgendaFailed(error)) => answer(
            Status::InternalServerError,
            error,
        ),
        (TaskView::LoadCommits, EventView::CommitsLoaded(commits)) => StepView::Respond(
            ResponseView::json(commits),
        ),
        (TaskView::LoadCommits, EventView::CommitsFailed(error)) => answer(
            Status::InternalServerError,
            error,
        ),
        (
            TaskView::RenderNotifications { .. },
            EventView::NotificationsRendered(page),
        ) => answer(Status::Success, page),
        (TaskView::ReadZulipBody, EventView::BodyRead(body)) => StepView::Perform(
            TaskView::DecodeZulip { body },
        ),
        (TaskView::DecodeZulip { .. }, EventView::ZulipDecoded) => StepView::Perform(
            TaskView::AnswerZulip,
        ),
        (TaskView::DecodeZulip { .. }, EventView::ZulipMalformed(error)) => answer(
            Status::BadRequest,
            "Did not send valid JSON request: "@ + error,
        ),
        (TaskView::AnswerZulip, EventView::ZulipAnswered(reply)) => StepView::Respond(
            ResponseView::json(reply),
        ),
        (
            TaskView::ReadHookBody { event, signature },
            EventView::BodyRead(body),
        ) => StepView::Perform(TaskView::CheckSignature { event, signature, body }),
        (TaskView::CheckSignature { event, body, .. }, EventView::SignatureValid) => if valid_utf8(
            body,
        ) {
            StepView::Perform(TaskView::RunWebhook { event, payload: decode_utf8(body) })
        } else {
            answer(Status::BadRequest, "Payload must be UTF-8"@)
        },
        (TaskView::CheckSignature { .. }, EventView::SignatureInvalid) => answer(
            Status::Forbidden,
            "Wrong signature"@,
        ),
        (TaskView::RunWebhook { .. }, EventView::WebhookHandled(done)) => answer(
            Status::Success,
            if done {
                "processed request"@
            } else {
                "ignored request"@
            },
        ),
        (TaskView::RunWebhook { .. }, EventView::WebhookFailed(error)) => answer(
            Status::InternalServerError,
            "request failed: "@ + error,
        ),
        _ => StepView::Fail,
    }
}

/// Whether `path` is one of the paths that other services post to.
pub open spec fn is_hook(path: Seq<char>) -> bool {
    path == "/github-hook"@ || path == "/zulip-hook"@
}

fn respond(status: Status, body: &str) -> (step: Step)
    ensures
        step@ == answer(status, body@),
{
    Step::Respond(Response::text(status, body.to_owned()))
}

/// Decides how a request for notifications goes on, from the pairs in its query string.
pub fn notifications_step(pairs: &Vec<(String, String)>) -> (step: Step)
    ensures
        step@ == notifications_for(first_value(pairs_view(pairs@), "user"@)),
{
    match requested_user(pairs) {
        Some(user) => Step::Perform(Task::RenderNotifications { user }),
        None => respond(
            Status::Success,
            "Please provide `?user=<username>` query param on URL.",
        ),
    }
}

/// Decides how a webhook goes on before its body is read, from its method and its headers.
pub fn github_hook_step(method: &str, event: HeaderText, signature: HeaderText) -> (step: Step)
    ensures
        step@ == github_hook(method@, event@, signature@),
{
    if !same_text(method, "POST") {
        return Step::Respond(Response::only_post());
    }
    let event: String = match event {
        HeaderText::Text(event) => event,
        HeaderText::NotText => {
            return respond(Status::BadRequest, "X-GitHub-Event header must be UTF-8 encoded");
        },
        HeaderText::Missing => {
            return respond(Status::BadRequest, "X-GitHub-Event header must be set");
        },
    };
    let signature: String = match signature {
        HeaderText::Text(signature) => signature,
        HeaderText::NotText => {
            return respond(
                Status::BadRequest,
                "X-Hub-Signature-256 header must be UTF-8 encoded",
            );
        },
        HeaderText::Missing => {
            return respond(Status::BadRequest, "X-Hub-Signature-256 header must be set");
        },
    };
    Step::Perform(Task::ReadHookBody { event, signature })
}

/// Decides the first step for a request.
pub fn serve_req(req: &Request, site: &Site) -> (step: Step)
    requires
        req@.well_formed(),
    ensures
        step@ == first_step(req@, site@, req@.pairs()),
        req@.query is Some && is_literal(req@.query->0) ==> step@ == first_step(
            req@,
            site@,
            literal_pairs(req@.query->0),
        ),
{
    if let Some(page) = find_page(&req.path) {
        return Step::ShowPage(page);
    }
    if same_text(&req.path, &site.ansi_up_url) {
        return Step::SendAsset(Asset::AnsiUpScript);
    }
    if same_text(&req.path, &site.success_url) {
        return Step::SendAsset(Asset::SuccessIcon);
    }
    if same_text(&req.path, &site.failure_url) {
        return Step::SendAsset(Asset::FailureIcon);
    }
    if same_text(&req.path, "/agenda") {
        return respond(Status::Success, &site.agenda_index);
    }
    if same_text(&req.path, "/agenda/lang/triage")
        || same_text(&req.path, "/agenda/lang/planning")
        || same_text(&req.path, "/agenda/types/planning")
    {
        return Step::Perform(Task::CallAgenda { path: req.path.clone() });
    }
    if same_text(&req.path, "/") {
        return respond(Status::Success, "Triagebot is awaiting triage.");
    }
    if same_text(&req.path, "/bors-commit-list") {
        return Step::Perform(Task::LoadCommits);
    }
    if same_text(&req.path, "/notifications") {
        let pairs: Vec<(String, String)> = match &req.query {
            Some(query) => parse_form(query),
            None => Vec::new(),
        };
        assert(req@.query is None ==> pairs_view(pairs@) =~= Seq::empty());
        return notifications_step(&pairs);
    }
    if same_text(&req.path, "/zulip-hook") {
        return Step::Perform(Task::ReadZulipBody);
    }
    if !same_text(&req.path, "/github-hook") {
        return Step::Respond(Response::text(Status::NotFound, String::new()));
    }
    proof {
        lemma_webhook_header_names();
    }
    github_hook_step(
        &req.method,
        read_header(&req.headers, "X-GitHub-Event"),
        read_header(&req.headers, "X-Hub-Signature-256"),
    )
}

fn respond_with_error(status: Status, prefix: &str, error: &str) -> (step: Step)
    ensures
        step@ == answer(status, prefix@ + error@),
{
    let mut body: String = prefix.to_owned();
    body.append(error);
    Step::Respond(Response::text(status, body))
}

/// Decides the step that follows an outcome of a task.
pub fn resume(task: Task, event: Event) -> (step: Step)
    requires
        is_outcome(task@, event@),
    ensures
        step@ == next_step(task@, event@),
{
    match (task, event) {
        (Task::CallAgenda { .. }, Event::AgendaReady(agenda)) => Step::Respond(
            Response::text(Status::Success, agenda),
        ),
        (Task::CallAgenda { .. }, Event::AgendaFailed(error)) => Step::Respond(
            Response::text(Status::InternalServerError, error),
        ),
        (Task::LoadCommits, Event::CommitsLoaded(commits)) => Step::Respond(
            Response::json(commits),
        ),
        (Task::LoadCommits, Event::CommitsFailed(error)) => Step::Respond(
            Response::text(Status::InternalServerError, error),
        ),
        (Task::RenderNotifications { .. }, Event::NotificationsRendered(page)) => Step::Respond(
            Response::text(Status::Success, page),
        ),
        (Task::ReadZulipBody, Event::BodyRead(body)) => Step::Perform(Task::DecodeZulip { body }),
        (Task::DecodeZulip { .. }, Event::ZulipDecoded) => Step::Perform(Task::AnswerZulip),
        (Task::DecodeZulip { .. }, Event::ZulipMalformed(error)) => respond_with_error(
            Status::BadRequest,
            "Did not send valid JSON request: ",
            &error,
        ),
        (Task::AnswerZulip, Event::ZulipAnswered(reply)) => Step::Respond(Response::json(reply)),
        (Task::ReadHookBody { event, signature }, Event::BodyRead(body)) => Step::Perform(
            Task::CheckSignature { event, signature, body },
        ),
        (Task::CheckSignature { event, body, .. }, Event::SignatureValid) => match utf8_text(
            &body,
        ) {
            Some(payload) => Step::Perform(Task::RunWebhook { event, payload: payload.to_owned() }),
            None => respond(Status::BadRequest, "Payload must be UTF-8"),
        },
        (Task::CheckSignature { .. }, Event::SignatureInvalid) => respond(
            Status::Forbidden,
            "Wrong signature",
        ),
        (Task::RunWebhook { .. }, Event::WebhookHandled(done)) => if done {
            respond(Status::Success, "processed request")
        } else {
            respond(Status::Success, "ignored request")
        },
        (Task::RunWebhook { .. }, Event::WebhookFailed(error)) => respond_with_error(
            Status::InternalServerError,
            "request failed: ",
            &error,
        ),
        _ => Step::Fail,
    }
}

/// Whether the response to a request for `path` is logged at the info level: it is for the hooks,
/// and for nothing else.
pub fn logs_response_at_info(path: &str) -> (info: bool)
    ensures
        info == is_hook(path@),
        info <==> path@ == "/github-hook"@ || path@ == "/zulip-hook"@,
{
    same_text(path, "/github-hook") || same_text(path, "/zulip-hook")
}

} // verus!
