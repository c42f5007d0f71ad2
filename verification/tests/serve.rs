use hyper::header::{HeaderMap, HeaderName, HeaderValue};
use triagebot_server::query::requested_user;
use triagebot_server::response::{Response, Status};
use triagebot_server::routes::Page;
use triagebot_server::serve::{
    logs_response_at_info, resume, serve_req, Asset, Event, Request, Site, Step, Task,
};

fn site() -> Site {
    Site {
        ansi_up_url: "/gha_logs/ansi_up.js".to_string(),
        success_url: "/gha_logs/success.svg".to_string(),
        failure_url: "/gha_logs/failure.svg".to_string(),
        agenda_index: "<ul>agendas</ul>".to_string(),
    }
}

fn headers(list: &[(&str, &[u8])]) -> HeaderMap<HeaderValue> {
    let mut map = HeaderMap::new();
    for (name, value) in list {
        map.append(
            HeaderName::from_bytes(name.as_bytes()).unwrap(),
            HeaderValue::from_bytes(value).unwrap(),
        );
    }
    map
}

fn request(method: &str, path: &str, query: Option<&str>, list: &[(&str, &[u8])]) -> Request {
    Request {
        method: method.to_string(),
        path: path.to_string(),
        query: query.map(|q| q.to_string()),
        headers: headers(list),
    }
}

fn get(path: &str) -> Step {
    serve_req(&request("GET", path, None, &[]), &site())
}

fn response(step: Step) -> Response {
    match step {
        Step::Respond(response) => response,
        _ => panic!("no response yet"),
    }
}

fn task(step: Step) -> Task {
    match step {
        Step::Perform(task) => task,
        _ => panic!("no task"),
    }
}

fn assert_text(step: Step, status: Status, body: &str) {
    let response = response(step);
    assert_eq!(response.status, status);
    assert_eq!(response.header, None);
    assert_eq!(response.body, body);
}

fn assert_json(step: Step, body: &str) {
    let response = response(step);
    assert_eq!(response.status, Status::Success);
    assert_eq!(
        response.header,
        Some(("Content-Type".to_string(), "application/json".to_string()))
    );
    assert_eq!(response.body, body);
}

fn hook(method: &str, list: &[(&str, &[u8])]) -> Step {
    serve_req(&request(method, "/github-hook", None, list), &site())
}

const SIGNED: &[(&str, &[u8])] =
    &[("X-GitHub-Event", b"push"), ("X-Hub-Signature-256", b"sha256=00")];

#[test]
fn status_codes() {
    assert_eq!(Status::Success.code(), 200);
    assert_eq!(Status::BadRequest.code(), 400);
    assert_eq!(Status::Forbidden.code(), 403);
    assert_eq!(Status::NotFound.code(), 404);
    assert_eq!(Status::MethodNotAllowed.code(), 405);
    assert_eq!(Status::InternalServerError.code(), 500);
}

#[test]
fn root_is_awaiting_triage() {
    assert_text(get("/"), Status::Success, "Triagebot is awaiting triage.");
}

#[test]
fn unknown_path_is_not_found() {
    assert_text(get("/nothing"), Status::NotFound, "");
    assert_text(get(""), Status::NotFound, "");
    assert_text(get("/agenda/"), Status::NotFound, "");
    assert_text(get("/agenda/lang"), Status::NotFound, "");
}

#[test]
fn pages_are_shown() {
    assert!(matches!(get("/triage"), Step::ShowPage(Page::Index)));
    match get("/triage/rust-lang/rust") {
        Step::ShowPage(Page::Pulls { owner, repo }) => {
            assert_eq!(owner, "rust-lang");
            assert_eq!(repo, "rust");
        }
        _ => panic!("no pulls page"),
    }
    match serve_req(&request("DELETE", "/gha-logs/o/r/7", Some("x=y"), &[]), &site()) {
        Step::ShowPage(Page::GhaLogs { owner, repo, log_id }) => {
            assert_eq!((owner.as_str(), repo.as_str(), log_id.as_str()), ("o", "r", "7"));
        }
        _ => panic!("no log page"),
    }
}

#[test]
fn assets_are_sent() {
    assert!(matches!(get("/gha_logs/ansi_up.js"), Step::SendAsset(Asset::AnsiUpScript)));
    assert!(matches!(get("/gha_logs/success.svg"), Step::SendAsset(Asset::SuccessIcon)));
    assert!(matches!(get("/gha_logs/failure.svg"), Step::SendAsset(Asset::FailureIcon)));
}

#[test]
fn pages_come_before_assets_and_assets_before_endpoints() {
    let mut site = site();
    site.ansi_up_url = "/triage".to_string();
    site.success_url = "/agenda".to_string();
    let page = serve_req(&request("GET", "/triage", None, &[]), &site);
    assert!(matches!(page, Step::ShowPage(Page::Index)));
    let asset = serve_req(&request("GET", "/agenda", None, &[]), &site);
    assert!(matches!(asset, Step::SendAsset(Asset::SuccessIcon)));
}

#[test]
fn agenda_index_is_served() {
    assert_text(get("/agenda"), Status::Success, "<ul>agendas</ul>");
}

#[test]
fn agendas_are_asked_for() {
    for path in ["/agenda/lang/triage", "/agenda/lang/planning", "/agenda/types/planning"] {
        match get(path) {
            Step::Perform(Task::CallAgenda { path: asked }) => assert_eq!(asked, path),
            _ => panic!("no agenda"),
        }
    }
}

#[test]
fn agenda_outcomes() {
    let ready = Event::AgendaReady("the agenda".to_string());
    assert_text(
        resume(task(get("/agenda/lang/triage")), ready),
        Status::Success,
        "the agenda",
    );
    let failed = Event::AgendaFailed("too many".to_string());
    assert_text(
        resume(task(get("/agenda/types/planning")), failed),
        Status::InternalServerError,
        "too many",
    );
}

#[test]
fn commit_list_outcomes() {
    assert!(matches!(get("/bors-commit-list"), Step::Perform(Task::LoadCommits)));
    assert_json(
        resume(task(get("/bors-commit-list")), Event::CommitsLoaded("[]".to_string())),
        "[]",
    );
    assert_text(
        resume(task(get("/bors-commit-list")), Event::CommitsFailed("db is down".to_string())),
        Status::InternalServerError,
        "db is down",
    );
}

fn notifications(query: Option<&str>) -> Option<String> {
    let step = serve_req(&request("GET", "/notifications", query, &[]), &site());
    match step {
        Step::Perform(Task::RenderNotifications { user }) => Some(user),
        other => {
            assert_text(
                other,
                Status::Success,
                "Please provide `?user=<username>` query param on URL.",
            );
            None
        }
    }
}

#[test]
fn notifications_of_a_user() {
    assert_eq!(notifications(Some("user=octocat")), Some("octocat".to_string()));
    assert_eq!(notifications(Some("user=a=b")), Some("a=b".to_string()));
    assert_eq!(notifications(Some("user=")), Some("".to_string()));
    assert_eq!(notifications(Some("user")), Some("".to_string()));
    assert_eq!(notifications(Some("a=1&&user=x&user=y")), Some("x".to_string()));
}

#[test]
fn notifications_of_an_escaped_user() {
    assert_eq!(notifications(Some("user=a%20b+c")), Some("a b c".to_string()));
    assert_eq!(notifications(Some("%75ser=octocat")), Some("octocat".to_string()));
    assert_eq!(notifications(Some("user=%26")), Some("&".to_string()));
}

#[test]
fn notifications_without_a_user() {
    assert_eq!(notifications(None), None);
    assert_eq!(notifications(Some("")), None);
    assert_eq!(notifications(Some("User=octocat")), None);
    assert_eq!(notifications(Some("username=octocat")), None);
}

#[test]
fn notifications_outcome() {
    let step = serve_req(
        &request("GET", "/notifications", Some("user=octocat"), &[]),
        &site(),
    );
    assert_text(
        resume(task(step), Event::NotificationsRendered("<html>".to_string())),
        Status::Success,
        "<html>",
    );
}

#[test]
fn requested_user_is_the_first() {
    let pair = |k: &str, v: &str| (k.to_string(), v.to_string());
    assert_eq!(requested_user(&vec![]), None);
    assert_eq!(requested_user(&vec![pair("a", "b")]), None);
    assert_eq!(
        requested_user(&vec![pair("a", "b"), pair("user", "x"), pair("user", "y")]),
        Some("x".to_string())
    );
}

#[test]
fn zulip_hook_is_decoded_and_answered() {
    let reading = task(get("/zulip-hook"));
    assert!(matches!(reading, Task::ReadZulipBody));
    let decoding = task(resume(reading, Event::BodyRead(b"{}".to_vec())));
    match &decoding {
        Task::DecodeZulip { body } => assert_eq!(body, b"{}"),
        _ => panic!("not decoding"),
    }
    let answering = task(resume(decoding, Event::ZulipDecoded));
    assert!(matches!(answering, Task::AnswerZulip));
    assert_json(resume(answering, Event::ZulipAnswered("{\"a\":1}".to_string())), "{\"a\":1}");
}

#[test]
fn malformed_zulip_request_is_refused() {
    let decoding = Task::DecodeZulip { body: b"x".to_vec() };
    assert_text(
        resume(decoding, Event::ZulipMalformed("expected value".to_string())),
        Status::BadRequest,
        "Did not send valid JSON request: expected value",
    );
}

#[test]
fn unreadable_bodies_fail() {
    assert!(matches!(resume(Task::ReadZulipBody, Event::BodyFailed), Step::Fail));
    let reading = Task::ReadHookBody { event: "push".to_string(), signature: "s".to_string() };
    assert!(matches!(resume(reading, Event::BodyFailed), Step::Fail));
}

#[test]
fn webhook_only_by_post() {
    for method in ["GET", "PUT", "post", ""] {
        let response = response(hook(method, SIGNED));
        assert_eq!(response.status, Status::MethodNotAllowed);
        assert_eq!(response.header, Some(("allow".to_string(), "POST".to_string())));
        assert_eq!(response.body, "");
    }
}

#[test]
fn webhook_needs_an_event() {
    assert_text(
        hook("POST", &[("X-Hub-Signature-256", b"sha256=00")]),
        Status::BadRequest,
        "X-GitHub-Event header must be set",
    );
    assert_text(
        hook("POST", &[("X-GitHub-Event", b"\xffpush"), ("X-Hub-Signature-256", b"sha256=00")]),
        Status::BadRequest,
        "X-GitHub-Event header must be UTF-8 encoded",
    );
}

#[test]
fn webhook_needs_a_signature() {
    assert_text(
        hook("POST", &[("X-GitHub-Event", b"push")]),
        Status::BadRequest,
        "X-Hub-Signature-256 header must be set",
    );
    assert_text(
        hook("POST", &[("X-GitHub-Event", b"push"), ("X-Hub-Signature-256", b"\x80")]),
        Status::BadRequest,
        "X-Hub-Signature-256 header must be UTF-8 encoded",
    );
}

#[test]
fn header_text_is_visible_ascii() {
    let ok = hook(
        "POST",
        &[("X-GitHub-Event", b"a b\t~"), ("X-Hub-Signature-256", b"")],
    );
    match ok {
        Step::Perform(Task::ReadHookBody { event, signature }) => {
            assert_eq!(event, "a b\t~");
            assert_eq!(signature, "");
        }
        _ => panic!("refused"),
    }
    assert_text(
        hook("POST", &[("X-GitHub-Event", "é".as_bytes()), ("X-Hub-Signature-256", b"s")]),
        Status::BadRequest,
        "X-GitHub-Event header must be UTF-8 encoded",
    );
}

#[test]
fn header_names_ignore_case_and_the_first_value_counts() {
    let step = hook(
        "POST",
        &[
            ("x-hub-signature-256", b"one"),
            ("X-GITHUB-EVENT", b"issues"),
            ("X-Hub-Signature-256", b"two"),
        ],
    );
    match step {
        Step::Perform(Task::ReadHookBody { event, signature }) => {
            assert_eq!(event, "issues");
            assert_eq!(signature, "one");
        }
        _ => panic!("refused"),
    }
}

fn checking(body: &[u8]) -> Task {
    task(resume(task(hook("POST", SIGNED)), Event::BodyRead(body.to_vec())))
}

#[test]
fn webhook_signature_is_checked_against_the_body() {
    match checking(b"payload") {
        Task::CheckSignature { event, signature, body } => {
            assert_eq!(event, "push");
            assert_eq!(signature, "sha256=00");
            assert_eq!(body, b"payload");
        }
        _ => panic!("not checked"),
    }
}

#[test]
fn wrong_signature_is_forbidden() {
    assert_text(
        resume(checking(b"payload"), Event::SignatureInvalid),
        Status::Forbidden,
        "Wrong signature",
    );
    assert_text(
        resume(checking(b"\xff"), Event::SignatureInvalid),
        Status::Forbidden,
        "Wrong signature",
    );
}

#[test]
fn signed_webhook_is_handled() {
    match resume(checking("päyload".as_bytes()), Event::SignatureValid) {
        Step::Perform(Task::RunWebhook { event, payload }) => {
            assert_eq!(event, "push");
            assert_eq!(payload, "päyload");
        }
        _ => panic!("not handled"),
    }
}

#[test]
fn signed_webhook_must_be_text() {
    for body in [&b"\xff"[..], b"\xc3", b"ok\xed\xa0\x80"] {
        assert_text(
            resume(checking(body), Event::SignatureValid),
            Status::BadRequest,
            "Payload must be UTF-8",
        );
    }
}

fn running() -> Task {
    task(resume(checking(b"{}"), Event::SignatureValid))
}

#[test]
fn webhook_outcomes() {
    assert_text(
        resume(running(), Event::WebhookHandled(true)),
        Status::Success,
        "processed request",
    );
    assert_text(
        resume(running(), Event::WebhookHandled(false)),
        Status::Success,
        "ignored request",
    );
    assert_text(
        resume(running(), Event::WebhookFailed("no such repo".to_string())),
        Status::InternalServerError,
        "request failed: no such repo",
    );
}

#[test]
fn hooks_are_logged_at_info() {
    assert!(logs_response_at_info("/github-hook"));
    assert!(logs_response_at_info("/zulip-hook"));
    assert!(!logs_response_at_info("/"));
    assert!(!logs_response_at_info("/github-hook/"));
}
