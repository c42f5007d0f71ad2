//! What holds of the server as a whole.

pub mod pages;
pub mod ports;
pub mod queries;
pub mod requests;
pub mod starting;
pub mod views;
pub mod webhook;
pub mod workers;

use crate::agenda::agenda_at;
use crate::config::{is_digit, is_number, number, port_of, switched_on};
use crate::headers::{header_text, HeaderTextView};
use crate::jobs::{
    supervisor_step, worker_step, Job, SupervisorEventView, SupervisorStepView, WorkerEvent,
    WorkerStepView, RESTART_DELAY_SECS,
};
use crate::query::{is_literal, lemma_user_query, literal_pairs};
use crate::response::{ResponseView, Status};
use crate::routes::{page_of, segments, unslashed, PageView};
use crate::serve::{
    answer, first_step, is_hook, is_outcome, next_step, EventView, RequestView, SiteView, StepView,
    TaskView,
};
use crate::startup::{
    database_step, first_start_step, is_start_outcome, next_start_step, ServerEnvView, StartEvent,
    StartStepView, StartTaskView, Workqueue,
};
use crate::text::{lemma_pieces_append, lemma_pieces_single, pieces};
use vstd::prelude::*;
use vstd::utf8::{decode_utf8, encode_utf8, valid_utf8};

verus! {

/// The step that a request is at after a row of outcomes; an outcome that does not belong to the
/// work at hand changes nothing.
pub open spec fn run(first: StepView, events: Seq<EventView>) -> StepView
    decreases events.len(),
{
    if events.len() == 0 {
        first
    } else {
        let step = run(first, events.drop_last());
        match step {
            StepView::Perform(task) => if is_outcome(task, events.last()) {
                next_step(task, events.last())
            } else {
                step
            },
            _ => step,
        }
    }
}

/// Whether each of the events is an outcome of the work that was at hand when it came.
pub open spec fn proceeds(first: StepView, events: Seq<EventView>) -> bool
    decreases events.len(),
{
    events.len() > 0 ==> {
        &&& proceeds(first, events.drop_last())
        &&& run(first, events.drop_last()) matches StepView::Perform(task)
        &&& is_outcome(task, events.last())
    }
}

/// How many outcomes a request still waits for at most.
pub open spec fn remaining(step: StepView) -> nat {
    match step {
        StepView::Perform(task) => match task {
            TaskView::ReadZulipBody | TaskView::ReadHookBody { .. } => 3,
            TaskView::DecodeZulip { .. } | TaskView::CheckSignature { .. } => 2,
            _ => 1,
        },
        _ => 0,
    }
}

proof fn lemma_remaining_decreases(first: StepView, events: Seq<EventView>)
    requires
        proceeds(first, events),
    ensures
        remaining(run(first, events)) + events.len() <= remaining(first),
    decreases events.len(),
{
    if events.len() > 0 {
        lemma_remaining_decreases(first, events.drop_last());
    }
}

/// Every request is answered after at most three pieces of work.
pub proof fn law_every_request_is_answered(
    req: RequestView,
    site: SiteView,
    pairs: Seq<(Seq<char>, Seq<char>)>,
    events: Seq<EventView>,
)
    requires
        proceeds(first_step(req, site, pairs), events),
    ensures
        events.len() <= 3,
        events.len() == 3 ==> !(run(first_step(req, site, pairs), events) is Perform),
{
    lemma_remaining_decreases(first_step(req, site, pairs), events);
}

/// A webhook is handled only where its path, method and headers are in order, the check of its
/// signature succeeded on the body that was read, and the payload is the text of that same body.
pub proof fn law_webhook_is_signed(
    req: RequestView,
    site: SiteView,
    pairs: Seq<(Seq<char>, Seq<char>)>,
    events: Seq<EventView>,
    event: Seq<char>,
    payload: Seq<char>,
)
    requires
        proceeds(first_step(req, site, pairs), events),
        run(first_step(req, site, pairs), events) == StepView::Perform(
            TaskView::RunWebhook { event, payload },
        ),
    ensures
        req.path == "/github-hook"@,
        req.method == "POST"@,
        header_text(req.headers, "x-github-event"@) == HeaderTextView::Text(event),
        header_text(req.headers, "x-hub-signature-256"@) is Text,
        events == seq![EventView::BodyRead(encode_utf8(payload)), EventView::SignatureValid],
        run(first_step(req, site, pairs), events.take(1)) == StepView::Perform(
            TaskView::CheckSignature {
                event,
                signature: header_text(req.headers, "x-hub-signature-256"@)->Text_0,
                body: encode_utf8(payload),
            },
        ),
{
    let first = first_step(req, site, pairs);
    law_every_request_is_answered(req, site, pairs, events);
    reveal_with_fuel(run, 4);
    reveal_with_fuel(proceeds, 4);
    assert(events.len() != 0);
    let one = events.drop_last();
    assert(run(first, one) is Perform);
    assert(one.len() != 0);
    let none = one.drop_last();
    assert(none.len() == 0);
    assert(events.take(1) =~= one);
    let body = one.last()->BodyRead_0;
    vstd::utf8::decode_utf8_encode_utf8(body);
    assert(events =~= seq![EventView::BodyRead(body), EventView::SignatureValid]);
}

/// A webhook whose signature is wrong is answered with status 403 and goes no further.
pub proof fn law_wrong_signature_is_forbidden(
    req: RequestView,
    site: SiteView,
    pairs: Seq<(Seq<char>, Seq<char>)>,
    events: Seq<EventView>,
)
    requires
        proceeds(first_step(req, site, pairs), events),
        events.contains(EventView::SignatureInvalid),
    ensures
        run(first_step(req, site, pairs), events) == answer(
            Status::Forbidden,
            "Wrong signature"@,
        ),
    decreases events.len(),
{
    let first = first_step(req, site, pairs);
    if events.last() != EventView::SignatureInvalid {
        let before = events.drop_last();
        let i = choose|i: int| 0 <= i < events.len() && events[i] == EventView::SignatureInvalid;
        assert(before[i] == EventView::SignatureInvalid);
        law_wrong_signature_is_forbidden(req, site, pairs, before);
    }
}

/// The first piece of a text that does not begin with a separator begins as the text does.
proof fn lemma_first_piece_begins(s: Seq<char>, separator: char)
    requires
        s.len() > 0,
        s[0] != separator,
    ensures
        pieces(s, separator).len() > 0,
        pieces(s, separator)[0].len() > 0,
        pieces(s, separator)[0][0] == s[0],
    decreases s.len(),
{
    reveal_with_fuel(pieces, 2);
    if s.len() > 1 {
        lemma_first_piece_begins(s.drop_last(), separator);
    }
}

/// A path of one segment other than `triage` names no page.
proof fn lemma_no_page_single(path: Seq<char>, segment: Seq<char>)
    requires
        unslashed(path) == segment,
        !segment.contains('/'),
        segment != "triage"@,
    ensures
        page_of(path) is None,
{
    lemma_pieces_single(segment, '/');
}

/// A path that begins with `/a` names no page.
proof fn lemma_no_page_a(path: Seq<char>)
    requires
        path.len() > 1,
        path[0] == '/',
        path[1] == 'a',
    ensures
        page_of(path) is None,
{
    reveal_strlit("triage");
    reveal_strlit("gha-logs");
    lemma_first_piece_begins(unslashed(path), '/');
}

/// Whether `path` is one of the fixed paths that the server answers.
pub open spec fn is_endpoint(path: Seq<char>) -> bool {
    ||| path == "/"@
    ||| path == "/agenda"@
    ||| agenda_at(path) is Some
    ||| path == "/bors-commit-list"@
    ||| path == "/notifications"@
    ||| is_hook(path)
}

/// No page stands in the way of a fixed path.
pub proof fn law_pages_do_not_shadow_endpoints(path: Seq<char>)
    requires
        is_endpoint(path),
    ensures
        page_of(path) is None,
{
    reveal_strlit("triage");
    reveal_strlit("/");
    reveal_strlit("/agenda");
    reveal_strlit("/agenda/lang/triage");
    reveal_strlit("/agenda/lang/planning");
    reveal_strlit("/agenda/types/planning");
    reveal_strlit("/bors-commit-list");
    reveal_strlit("/notifications");
    reveal_strlit("/zulip-hook");
    reveal_strlit("/github-hook");
    if path == "/agenda"@ || agenda_at(path) is Some {
        lemma_no_page_a(path);
    } else {
        lemma_no_page_single(path, path.skip(1));
    }
}

/// The fixed paths are told apart by their lengths.
pub(crate) proof fn lemma_endpoints_differ()
    ensures
        "/"@.len() == 1,
        "/agenda"@.len() == 7,
        "/agenda/lang/triage"@.len() == 19,
        "/agenda/lang/planning"@.len() == 21,
        "/agenda/types/planning"@.len() == 22,
        "/bors-commit-list"@.len() == 17,
        "/notifications"@.len() == 14,
        "/zulip-hook"@.len() == 11,
        "/github-hook"@.len() == 12,
{
    reveal_strlit("/");
    reveal_strlit("/agenda");
    reveal_strlit("/agenda/lang/triage");
    reveal_strlit("/agenda/lang/planning");
    reveal_strlit("/agenda/types/planning");
    reveal_strlit("/bors-commit-list");
    reveal_strlit("/notifications");
    reveal_strlit("/zulip-hook");
    reveal_strlit("/github-hook");
}

/// A path that names no page, no file and none of the fixed paths is answered with status 404.
pub proof fn law_unknown_path_is_not_found(
    req: RequestView,
    site: SiteView,
    pairs: Seq<(Seq<char>, Seq<char>)>,
)
    requires
        page_of(req.path) is None,
        !site.has_asset(req.path),
        !is_endpoint(req.path),
    ensures
        first_step(req, site, pairs) == answer(Status::NotFound, Seq::empty()),
{
}

/// A page or a file is served whatever the method, the headers and the query string are.
pub proof fn law_pages_and_files_depend_on_the_path_alone(
    req: RequestView,
    other: RequestView,
    site: SiteView,
    pairs: Seq<(Seq<char>, Seq<char>)>,
    other_pairs: Seq<(Seq<char>, Seq<char>)>,
)
    requires
        req.path == other.path,
        page_of(req.path) is Some || site.has_asset(req.path),
    ensures
        first_step(req, site, pairs) == first_step(other, site, other_pairs),
        page_of(req.path) is Some ==> first_step(req, site, pairs) == StepView::ShowPage(
            page_of(req.path)->0,
        ),
        page_of(req.path) is None ==> first_step(req, site, pairs) is SendAsset,
{
}

/// A webhook that does not come by `POST` is refused with the method that is allowed, before any
/// work is done for it.
pub proof fn law_webhook_only_by_post(
    req: RequestView,
    site: SiteView,
    pairs: Seq<(Seq<char>, Seq<char>)>,
)
    requires
        req.path == "/github-hook"@,
        !site.has_asset(req.path),
        req.method != "POST"@,
    ensures
        first_step(req, site, pairs) == StepView::Respond(ResponseView::only_post()),
{
    law_pages_do_not_shadow_endpoints(req.path);
    lemma_endpoints_differ();
}

/// A webhook that comes by `POST` but without one of its two headers, or with one that is not
/// text, is refused with status 400 before its body is read.
pub proof fn law_webhook_needs_its_headers(
    req: RequestView,
    site: SiteView,
    pairs: Seq<(Seq<char>, Seq<char>)>,
)
    requires
        req.path == "/github-hook"@,
        !site.has_asset(req.path),
        req.method == "POST"@,
    ensures
        ({
            let event = header_text(req.headers, "x-github-event"@);
            let signature = header_text(req.headers, "x-hub-signature-256"@);
            let first = first_step(req, site, pairs);
            if event is Text && signature is Text {
                first == StepView::Perform(
                    TaskView::ReadHookBody { event: event->Text_0, signature: signature->Text_0 },
                )
            } else {
                first matches StepView::Respond(response) && response.status == Status::BadRequest
            }
        }),
{
    law_pages_do_not_shadow_endpoints(req.path);
    lemma_endpoints_differ();
}

/// A webhook that comes by `POST` with both headers in order and whose signature fits its body is
/// handled, if the body is text: its event is the one in the header and its payload is the body.
pub proof fn law_signed_webhook_is_handled(
    req: RequestView,
    site: SiteView,
    pairs: Seq<(Seq<char>, Seq<char>)>,
    event: Seq<char>,
    signature: Seq<char>,
    body: Seq<u8>,
)
    requires
        req.path == "/github-hook"@,
        !site.has_asset(req.path),
        req.method == "POST"@,
        header_text(req.headers, "x-github-event"@) == HeaderTextView::Text(event),
        header_text(req.headers, "x-hub-signature-256"@) == HeaderTextView::Text(signature),
    ensures
        ({
            let first = first_step(req, site, pairs);
            let events = seq![EventView::BodyRead(body), EventView::SignatureValid];
            &&& proceeds(first, events)
            &&& run(first, events.take(1)) == StepView::Perform(
                TaskView::CheckSignature { event, signature, body },
            )
            &&& run(first, events) == if valid_utf8(body) {
                StepView::Perform(TaskView::RunWebhook { event, payload: decode_utf8(body) })
            } else {
                answer(Status::BadRequest, "Payload must be UTF-8"@)
            }
        }),
{
    law_pages_do_not_shadow_endpoints(req.path);
    lemma_endpoints_differ();
    reveal_with_fuel(run, 3);
    reveal_with_fuel(proceeds, 3);
    let events = seq![EventView::BodyRead(body), EventView::SignatureValid];
    assert(events.drop_last() =~= seq![EventView::BodyRead(body)]);
    assert(events.take(1) =~= events.drop_last());
    assert(events.drop_last().drop_last() =~= Seq::empty());
}

/// A Zulip request that can be decoded is answered with the reply, as JSON; one that cannot is
/// refused with status 400 and the reason.
pub proof fn law_zulip_request_is_answered(
    req: RequestView,
    site: SiteView,
    pairs: Seq<(Seq<char>, Seq<char>)>,
    body: Seq<u8>,
    text: Seq<char>,
)
    requires
        req.path == "/zulip-hook"@,
        !site.has_asset(req.path),
    ensures
        ({
            let first = first_step(req, site, pairs);
            let read = EventView::BodyRead(body);
            let answered = seq![read, EventView::ZulipDecoded, EventView::ZulipAnswered(text)];
            let malformed = seq![read, EventView::ZulipMalformed(text)];
            &&& run(first, seq![read]) == StepView::Perform(TaskView::DecodeZulip { body })
            &&& run(first, answered) == StepView::Respond(ResponseView::json(text))
            &&& run(first, malformed) == answer(
                Status::BadRequest,
                "Did not send valid JSON request: "@ + text,
            )
        }),
{
    law_pages_do_not_shadow_endpoints(req.path);
    lemma_endpoints_differ();
    reveal_with_fuel(run, 4);
    let read = EventView::BodyRead(body);
    let answered = seq![read, EventView::ZulipDecoded, EventView::ZulipAnswered(text)];
    let malformed = seq![read, EventView::ZulipMalformed(text)];
    assert(seq![read].drop_last() =~= Seq::empty());
    assert(malformed.drop_last() =~= seq![read]);
    assert(answered.drop_last() =~= seq![read, EventView::ZulipDecoded]);
    assert(answered.drop_last().drop_last() =~= seq![read]);
}

/// The agenda service is asked only for agendas that exist.
pub proof fn law_agenda_requests_are_known(
    req: RequestView,
    site: SiteView,
    pairs: Seq<(Seq<char>, Seq<char>)>,
    events: Seq<EventView>,
    path: Seq<char>,
)
    requires
        run(first_step(req, site, pairs), events) == StepView::Perform(
            TaskView::CallAgenda { path },
        ),
    ensures
        path == req.path,
        agenda_at(path) is Some,
    decreases events.len(),
{
    if events.len() > 0 {
        law_agenda_requests_are_known(req, site, pairs, events.drop_last(), path);
    }
}

/// Every agenda that exists can be had under its path, unless a file of the site has that path.
pub proof fn law_agendas_are_served(
    req: RequestView,
    site: SiteView,
    pairs: Seq<(Seq<char>, Seq<char>)>,
)
    requires
        agenda_at(req.path) is Some,
        !site.has_asset(req.path),
    ensures
        first_step(req, site, pairs) == StepView::Perform(TaskView::CallAgenda { path: req.path }),
{
    law_pages_do_not_shadow_endpoints(req.path);
    lemma_endpoints_differ();
}

/// The body of a request is read only where the response is logged at the info level.
pub proof fn law_bodies_are_read_for_hooks_only(
    req: RequestView,
    site: SiteView,
    pairs: Seq<(Seq<char>, Seq<char>)>,
    events: Seq<EventView>,
)
    requires
        run(first_step(req, site, pairs), events) matches StepView::Perform(task) && (
        task is ReadZulipBody || task is ReadHookBody),
    ensures
        is_hook(req.path),
    decreases events.len(),
{
    if events.len() > 0 {
        law_bodies_are_read_for_hooks_only(req, site, pairs, events.drop_last());
    }
}

/// Whether a response has the header that belongs to its status: a refused method comes with the
/// method that is allowed, and only a successful response may be JSON.
pub open spec fn has_fitting_header(response: ResponseView) -> bool {
    &&& response.status == Status::MethodNotAllowed <==> response.header == Some(
        ("allow"@, "POST"@),
    )
    &&& response.header is None || response.status == Status::MethodNotAllowed || (response.status
        == Status::Success && response.header == Some(("Content-Type"@, "application/json"@)))
}

/// Every response that the server builds has the header that belongs to its status.
pub proof fn law_responses_have_fitting_headers(
    req: RequestView,
    site: SiteView,
    pairs: Seq<(Seq<char>, Seq<char>)>,
    events: Seq<EventView>,
)
    ensures
        run(first_step(req, site, pairs), events) matches StepView::Respond(response)
            ==> has_fitting_header(response),
    decreases events.len(),
{
    reveal_strlit("allow");
    reveal_strlit("Content-Type");
    assert("allow"@.len() < "Content-Type"@.len());
    if events.len() > 0 {
        law_responses_have_fitting_headers(req, site, pairs, events.drop_last());
    }
}

/// Asking for the notifications with `?user=<name>`, where the name holds no ampersand and no
/// escapes, renders the notifications of that user.
pub proof fn law_notifications_of_a_user(req: RequestView, site: SiteView, name: Seq<char>)
    requires
        req.path == "/notifications"@,
        !site.has_asset(req.path),
        req.query == Some("user="@ + name),
        !name.contains('&'),
        is_literal(name),
    ensures
        is_literal(req.query->0),
        first_step(req, site, literal_pairs(req.query->0)) == StepView::Perform(
            TaskView::RenderNotifications { user: name },
        ),
{
    law_pages_do_not_shadow_endpoints(req.path);
    lemma_endpoints_differ();
    lemma_user_query(name);
    reveal_strlit("user=");
    let query = "user="@ + name;
    assert forall|i: int| 0 <= i < query.len() implies query[i] != '%' && query[i] != '+' by {
        if i >= 5 {
            assert(name.contains(name[i - 5]));
        }
    }
}

/// Asking for the notifications without a query string is answered with how to ask.
pub proof fn law_notifications_of_nobody(req: RequestView, site: SiteView)
    requires
        req.path == "/notifications"@,
        !site.has_asset(req.path),
        req.query is None,
    ensures
        first_step(req, site, req.pairs()) == answer(
            Status::Success,
            "Please provide `?user=<username>` query param on URL."@,
        ),
{
    law_pages_do_not_shadow_endpoints(req.path);
    lemma_endpoints_differ();
}

/// The page of a repository's pull requests stands under `/triage/<owner>/<repo>`.
pub proof fn law_pulls_page(owner: Seq<char>, repo: Seq<char>)
    requires
        owner.len() > 0 && !owner.contains('/'),
        repo.len() > 0 && !repo.contains('/'),
    ensures
        page_of("/triage/"@ + owner + "/"@ + repo) == Some(PageView::Pulls { owner, repo }),
{
    reveal_strlit("/triage/");
    reveal_strlit("triage");
    reveal_strlit("/");
    let path = "/triage/"@ + owner + "/"@ + repo;
    let slash = seq!['/'];
    lemma_pieces_single("triage"@, '/');
    lemma_pieces_append("triage"@, owner, '/');
    lemma_pieces_append("triage"@ + slash + owner, repo, '/');
    assert(unslashed(path) =~= "triage"@ + slash + owner + slash + repo);
    assert(segments(unslashed(path)) =~= seq!["triage"@, owner, repo]);
}

/// The log of a job stands under `/gha-logs/<owner>/<repo>/<log-id>`.
pub proof fn law_log_page(owner: Seq<char>, repo: Seq<char>, log_id: Seq<char>)
    requires
        owner.len() > 0 && !owner.contains('/'),
        repo.len() > 0 && !repo.contains('/'),
        log_id.len() > 0 && !log_id.contains('/'),
    ensures
        page_of("/gha-logs/"@ + owner + "/"@ + repo + "/"@ + log_id) == Some(
            PageView::GhaLogs { owner, repo, log_id },
        ),
{
    reveal_strlit("/gha-logs/");
    reveal_strlit("gha-logs");
    reveal_strlit("/");
    let path = "/gha-logs/"@ + owner + "/"@ + repo + "/"@ + log_id;
    let slash = seq!['/'];
    lemma_pieces_single("gha-logs"@, '/');
    lemma_pieces_append("gha-logs"@, owner, '/');
    lemma_pieces_append("gha-logs"@ + slash + owner, repo, '/');
    lemma_pieces_append("gha-logs"@ + slash + owner + slash + repo, log_id, '/');
    assert(unslashed(path) =~= "gha-logs"@ + slash + owner + slash + repo + slash + log_id);
    assert(segments(unslashed(path)) =~= seq!["gha-logs"@, owner, repo, log_id]);
}

/// The migrations run only once the workqueue is settled, whether by a load or by skipping it,
/// and right before the launch: nothing but the launch, or giving up, follows them.
pub proof fn law_migrations_come_last(env: ServerEnvView, task: StartTaskView, event: StartEvent)
    requires
        is_start_outcome(task, event),
    ensures
        !(next_start_step(env, task, event) matches StartStepView::Perform(next)
            && next is LoadWorkqueue),
        task is RunMigrations ==> !(next_start_step(env, task, event) is Perform),
        task is RunMigrations && next_start_step(env, task, event) is Launch ==> event
            == StartEvent::MigrationsDone,
        first_start_step(env) matches StartStepView::Perform(first) && first is RunMigrations
            ==> switched_on(env.skip_workqueue),
{
}

/// How many pieces of work are still to be done at most before the server is up.
pub open spec fn remaining_start(step: StartStepView) -> nat {
    match step {
        StartStepView::Perform(StartTaskView::LoadWorkqueue { .. }) => 2,
        StartStepView::Perform(StartTaskView::RunMigrations { .. }) => 1,
        _ => 0,
    }
}

/// The server is up, or has given up, after at most two pieces of work.
pub proof fn law_start_is_bounded(env: ServerEnvView, task: StartTaskView, event: StartEvent)
    ensures
        remaining_start(first_start_step(env)) <= 2,
        remaining_start(next_start_step(env, task, event)) < remaining_start(
            StartStepView::Perform(task),
        ),
{
}

/// A workqueue that cannot be loaded does not keep the server from coming up: it comes up as
/// after a load, but with an empty workqueue, just as where loading is skipped.
pub proof fn law_workqueue_failure_does_not_block(
    env: ServerEnvView,
    skipping: ServerEnvView,
    task: StartTaskView,
    event: StartEvent,
)
    requires
        task is LoadWorkqueue,
        event is WorkqueueFailed || event is WorkqueueTimedOut,
        switched_on(skipping.skip_workqueue),
        skipping == (ServerEnvView { skip_workqueue: skipping.skip_workqueue, ..env }),
    ensures
        next_start_step(env, task, event) == database_step(env, Workqueue::Empty),
        next_start_step(env, task, event) == first_start_step(skipping),
        next_start_step(env, task, StartEvent::WorkqueueLoaded) == database_step(
            env,
            Workqueue::Loaded,
        ),
{
}

/// The server comes up, whatever becomes of the workqueue, where the database is named, its
/// migrations are skipped or succeed, and the username is not set to something other than text.
pub proof fn law_server_comes_up(env: ServerEnvView, workqueue: Workqueue)
    requires
        env.database_url is Value,
        !(env.username is NotUnicode),
    ensures
        switched_on(env.skip_db_migrations) ==> database_step(env, workqueue) is Launch,
        !switched_on(env.skip_db_migrations) ==> {
            &&& database_step(env, workqueue) matches StartStepView::Perform(task)
            &&& task == (StartTaskView::RunMigrations {
                database_url: env.database_url->Value_0,
                workqueue,
            })
            &&& next_start_step(
                env,
                task,
                StartEvent::MigrationsDone,
            ) matches StartStepView::Launch(launch)
            &&& launch.workqueue == workqueue
        },
{
}

/// The task of a job ends only by a panic, and panics only where the work has failed.
pub proof fn law_worker_stops_only_on_failure(job: Job, event: WorkerEvent)
    ensures
        worker_step(job, event) is Panic <==> event == WorkerEvent::Failed,
        worker_step(job, event) is Panic ==> worker_step(job, event) == WorkerStepView::Panic(
            job.spec_context(),
        ),
{
}

/// A task that dies is launched again after a rest, however often it dies: a supervisor gives up
/// only on a task that ends in another way than by a panic.
pub proof fn law_supervisor_relaunches(job: Job, event: SupervisorEventView)
    requires
        !(event is Ended),
    ensures
        event is Panicked ==> {
            &&& supervisor_step(job, event) matches SupervisorStepView::Rest { secs, .. }
            &&& secs == RESTART_DELAY_SECS
        },
        !(event is Panicked) ==> supervisor_step(job, event) is Launch,
{
}

/// The decimal digits of a number.
pub open spec fn decimal(n: nat) -> Seq<char>
    decreases n,
{
    let digit = ('0' as u32 + n % 10) as char;
    if n < 10 {
        seq![digit]
    } else {
        decimal(n / 10).push(digit)
    }
}

/// The digits of a number stand for it.
pub(crate) proof fn lemma_number_of_decimal(n: nat)
    ensures
        is_number(decimal(n)),
        number(decimal(n)) == n,
    decreases n,
{
    reveal_with_fuel(number, 2);
    let digit = ('0' as u32 + n % 10) as char;
    assert(is_digit(digit));
    if n < 10 {
        assert(seq![digit].drop_last() =~= Seq::empty());
    } else {
        lemma_number_of_decimal(n / 10);
        assert(decimal(n).drop_last() =~= decimal(n / 10));
    }
}

/// A port that is written in decimal is read back as it is.
pub proof fn law_decimal_port_is_read(port: u16)
    ensures
        port_of(decimal(port as nat)) == Some(port),
{
    lemma_number_of_decimal(port as nat);
    assert(is_digit(decimal(port as nat)[0]));
}

} // verus!
