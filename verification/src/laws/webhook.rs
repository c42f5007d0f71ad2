//! What a GitHub webhook goes through, stated on the bytes that it carries.

use crate::headers::{all_visible, header_text, lower_case, HeaderTextView};
use crate::laws::{lemma_endpoints_differ, law_pages_do_not_shadow_endpoints};
use crate::response::Status;
use crate::serve::{
    first_step, github_hook, is_outcome, next_step, EventView, RequestView, SiteView, StepView,
    TaskView,
};
use vstd::prelude::*;
use vstd::utf8::{encode_utf8, encode_utf8_decode_utf8, encode_utf8_valid_utf8, valid_utf8};

verus! {

/// A header whose bytes are all visible ASCII characters, spaces or tabs is read, whatever its
/// length, as the text of exactly those characters.
pub proof fn law_header_is_its_bytes(table: Map<Seq<char>, Seq<u8>>, name: Seq<char>)
    requires
        table.contains_key(name),
        forall|i: int|
            0 <= i < table[name].len() ==> {
                let b = #[trigger] table[name][i];
                32 <= b < 127 || b == 9
            },
    ensures
        header_text(table, name) matches HeaderTextView::Text(text) && {
            &&& text.len() == table[name].len()
            &&& forall|i: int|
                0 <= i < text.len() ==> #[trigger] text[i] == table[name][i] as char
            &&& text == table[name].map_values(|b: u8| b as char)
        },
{
}

/// A header with a byte at `i` that is neither a visible ASCII character nor a space or a tab is
/// not text.
pub proof fn law_header_is_not_text(table: Map<Seq<char>, Seq<u8>>, name: Seq<char>, i: int)
    requires
        table.contains_key(name),
        0 <= i < table[name].len(),
        table[name][i] < 32 && table[name][i] != 9 || table[name][i] >= 127,
    ensures
        header_text(table, name) == HeaderTextView::NotText,
        !all_visible(table[name]),
{
    let b = table[name][i];
    assert(!crate::headers::is_visible(b));
}

/// A header that is not in the table is missing, and no other is.
pub proof fn law_header_is_missing(table: Map<Seq<char>, Seq<u8>>, name: Seq<char>)
    ensures
        header_text(table, name) == HeaderTextView::Missing <==> !table.contains_key(name),
{
}

/// Header names are looked up without regard to case: capital letters count as small ones and
/// nothing else is changed.
pub proof fn law_header_names_ignore_case(name: Seq<char>, i: int)
    requires
        0 <= i < name.len(),
    ensures
        lower_case(name).len() == name.len(),
        'A' <= name[i] <= 'Z' ==> lower_case(name)[i] as u32 == name[i] as u32 + 32,
        !('A' <= name[i] <= 'Z') ==> lower_case(name)[i] == name[i],
        lower_case(lower_case(name)) == lower_case(name),
{
    assert(lower_case(lower_case(name)) =~= lower_case(name));
}

/// A webhook by `POST` whose two headers hold visible ASCII characters, spaces and tabs only, of
/// whatever length, goes on to have its body read, with the texts of those headers.
pub proof fn law_webhook_is_taken(
    req: RequestView,
    site: SiteView,
    pairs: Seq<(Seq<char>, Seq<char>)>,
    event: Seq<u8>,
    signature: Seq<u8>,
)
    requires
        req.path == "/github-hook"@,
        req.path != site.ansi_up_url,
        req.path != site.success_url,
        req.path != site.failure_url,
        req.method == "POST"@,
        req.headers.contains_key("x-github-event"@),
        req.headers["x-github-event"@] == event,
        forall|i: int|
            0 <= i < event.len() ==> {
                let b = #[trigger] event[i];
                32 <= b < 127 || b == 9
            },
        req.headers.contains_key("x-hub-signature-256"@),
        req.headers["x-hub-signature-256"@] == signature,
        forall|i: int|
            0 <= i < signature.len() ==> {
                let b = #[trigger] signature[i];
                32 <= b < 127 || b == 9
            },
    ensures
        first_step(req, site, pairs) == StepView::Perform(
            TaskView::ReadHookBody {
                event: event.map_values(|b: u8| b as char),
                signature: signature.map_values(|b: u8| b as char),
            },
        ),
{
    law_pages_do_not_shadow_endpoints(req.path);
    lemma_endpoints_differ();
    law_header_is_its_bytes(req.headers, "x-github-event"@);
    law_header_is_its_bytes(req.headers, "x-hub-signature-256"@);
}

/// A webhook by another method than `POST` is refused with the method that is allowed.
pub proof fn law_webhook_method(
    req: RequestView,
    site: SiteView,
    pairs: Seq<(Seq<char>, Seq<char>)>,
)
    requires
        req.path == "/github-hook"@,
        req.path != site.ansi_up_url,
        req.path != site.success_url,
        req.path != site.failure_url,
        req.method != "POST"@,
    ensures
        first_step(req, site, pairs) matches StepView::Respond(response) && {
            &&& response.status == Status::MethodNotAllowed
            &&& response.header == Some(("allow"@, "POST"@))
            &&& response.body.len() == 0
        },
{
    law_pages_do_not_shadow_endpoints(req.path);
    lemma_endpoints_differ();
}

/// A webhook without its event, or with one that has a byte at `i` which is not text, is refused
/// whatever its signature is.
pub proof fn law_webhook_event(
    req: RequestView,
    site: SiteView,
    pairs: Seq<(Seq<char>, Seq<char>)>,
    i: int,
)
    requires
        req.path == "/github-hook"@,
        req.path != site.ansi_up_url,
        req.path != site.success_url,
        req.path != site.failure_url,
        req.method == "POST"@,
    ensures
        !req.headers.contains_key("x-github-event"@) ==> {
            &&& first_step(req, site, pairs) matches StepView::Respond(response)
            &&& response.status == Status::BadRequest
            &&& response.header is None
            &&& response.body == "X-GitHub-Event header must be set"@
        },
        ({
            let event = req.headers["x-github-event"@];
            req.headers.contains_key("x-github-event"@) && 0 <= i < event.len() && !(32 <= event[i]
                < 127 || event[i] == 9)
        }) ==> {
            &&& first_step(req, site, pairs) matches StepView::Respond(response)
            &&& response.status == Status::BadRequest
            &&& response.header is None
            &&& response.body == "X-GitHub-Event header must be UTF-8 encoded"@
        },
{
    law_pages_do_not_shadow_endpoints(req.path);
    lemma_endpoints_differ();
    let event = req.headers["x-github-event"@];
    if req.headers.contains_key("x-github-event"@) && 0 <= i < event.len() && !(32 <= event[i]
        < 127 || event[i] == 9) {
        law_header_is_not_text(req.headers, "x-github-event"@, i);
    }
}

/// A webhook whose event is in order, but that comes without its signature or with one that has a
/// byte at `i` which is not text, is refused.
pub proof fn law_webhook_signature(
    req: RequestView,
    site: SiteView,
    pairs: Seq<(Seq<char>, Seq<char>)>,
    i: int,
)
    requires
        req.path == "/github-hook"@,
        req.path != site.ansi_up_url,
        req.path != site.success_url,
        req.path != site.failure_url,
        req.method == "POST"@,
        req.headers.contains_key("x-github-event"@),
        forall|k: int|
            0 <= k < req.headers["x-github-event"@].len() ==> {
                let b = #[trigger] req.headers["x-github-event"@][k];
                32 <= b < 127 || b == 9
            },
    ensures
        !req.headers.contains_key("x-hub-signature-256"@) ==> {
            &&& first_step(req, site, pairs) matches StepView::Respond(response)
            &&& response.status == Status::BadRequest
            &&& response.header is None
            &&& response.body == "X-Hub-Signature-256 header must be set"@
        },
        ({
            let signature = req.headers["x-hub-signature-256"@];
            req.headers.contains_key("x-hub-signature-256"@) && 0 <= i < signature.len() && !(32
                <= signature[i] < 127 || signature[i] == 9)
        }) ==> {
            &&& first_step(req, site, pairs) matches StepView::Respond(response)
            &&& response.status == Status::BadRequest
            &&& response.header is None
            &&& response.body == "X-Hub-Signature-256 header must be UTF-8 encoded"@
        },
{
    law_pages_do_not_shadow_endpoints(req.path);
    lemma_endpoints_differ();
    law_header_is_its_bytes(req.headers, "x-github-event"@);
    let signature = req.headers["x-hub-signature-256"@];
    if req.headers.contains_key("x-hub-signature-256"@) && 0 <= i < signature.len() && !(32
        <= signature[i] < 127 || signature[i] == 9) {
        law_header_is_not_text(req.headers, "x-hub-signature-256"@, i);
    }
}

/// Where both headers are text, whatever texts they are, the webhook goes on with those texts;
/// where the event is not, it is refused for its event, and else for its signature.
pub proof fn law_webhook_headers(
    event: Seq<char>,
    signature: Seq<char>,
    any: HeaderTextView,
    other: HeaderTextView,
    method: Seq<char>,
)
    ensures
        github_hook(
            "POST"@,
            HeaderTextView::Text(event),
            HeaderTextView::Text(signature),
        ) == StepView::Perform(TaskView::ReadHookBody { event, signature }),
        github_hook("POST"@, HeaderTextView::Missing, other) matches StepView::Respond(r) && {
            &&& r.status == Status::BadRequest
            &&& r.header is None
            &&& r.body == "X-GitHub-Event header must be set"@
        },
        github_hook("POST"@, HeaderTextView::NotText, other) matches StepView::Respond(r) && {
            &&& r.status == Status::BadRequest
            &&& r.header is None
            &&& r.body == "X-GitHub-Event header must be UTF-8 encoded"@
        },
        github_hook(
            "POST"@,
            HeaderTextView::Text(event),
            HeaderTextView::Missing,
        ) matches StepView::Respond(r) && {
            &&& r.status == Status::BadRequest
            &&& r.header is None
            &&& r.body == "X-Hub-Signature-256 header must be set"@
        },
        github_hook(
            "POST"@,
            HeaderTextView::Text(event),
            HeaderTextView::NotText,
        ) matches StepView::Respond(r) && {
            &&& r.status == Status::BadRequest
            &&& r.header is None
            &&& r.body == "X-Hub-Signature-256 header must be UTF-8 encoded"@
        },
        method != "POST"@ ==> (github_hook(method, any, other) matches StepView::Respond(r) && {
            &&& r.status == Status::MethodNotAllowed
            &&& r.header == Some(("allow"@, "POST"@))
            &&& r.body.len() == 0
        }),
{
}

/// The signature is checked against the body as it was read, under the event and the signature of
/// the headers; a body that cannot be read fails.
pub proof fn law_webhook_body(event: Seq<char>, signature: Seq<char>, body: Seq<u8>)
    ensures
        ({
            let read = TaskView::ReadHookBody { event, signature };
            &&& is_outcome(read, EventView::BodyRead(body))
            &&& next_step(read, EventView::BodyRead(body)) == StepView::Perform(
                TaskView::CheckSignature { event, signature, body },
            )
            &&& is_outcome(read, EventView::BodyFailed)
            &&& next_step(read, EventView::BodyFailed) == StepView::Fail
        }),
{
}

/// A wrong signature is forbidden, whatever the event, the signature and the body are.
pub proof fn law_webhook_wrong_signature(event: Seq<char>, signature: Seq<char>, body: Seq<u8>)
    ensures
        ({
            let check = TaskView::CheckSignature { event, signature, body };
            &&& is_outcome(check, EventView::SignatureInvalid)
            &&& next_step(check, EventView::SignatureInvalid) matches StepView::Respond(response)
            &&& response.status == Status::Forbidden
            &&& response.header is None
            &&& response.body == "Wrong signature"@
        }),
{
}

/// A right signature hands on the event and, as the payload, the text that the body encodes,
/// whatever that text is; a body that encodes no text is a bad request.
pub proof fn law_webhook_right_signature(
    event: Seq<char>,
    signature: Seq<char>,
    payload: Seq<char>,
    body: Seq<u8>,
)
    ensures
        ({
            let check = TaskView::CheckSignature { event, signature, body };
            &&& is_outcome(check, EventView::SignatureValid)
            &&& body == encode_utf8(payload) ==> next_step(check, EventView::SignatureValid)
                == StepView::Perform(TaskView::RunWebhook { event, payload })
            &&& !valid_utf8(body) ==> {
                &&& next_step(check, EventView::SignatureValid) matches StepView::Respond(response)
                &&& response.status == Status::BadRequest
                &&& response.header is None
                &&& response.body == "Payload must be UTF-8"@
            }
        }),
{
    encode_utf8_valid_utf8(payload);
    encode_utf8_decode_utf8(payload);
}

/// What the handler did with a webhook is reported: whether it did anything, and its error in
/// full.
pub proof fn law_webhook_report(event: Seq<char>, payload: Seq<char>, error: Seq<char>)
    ensures
        ({
            let handle = TaskView::RunWebhook { event, payload };
            &&& is_outcome(handle, EventView::WebhookHandled(true))
            &&& next_step(handle, EventView::WebhookHandled(true)) matches StepView::Respond(done)
            &&& done.status == Status::Success
            &&& done.header is None
            &&& done.body == "processed request"@
            &&& is_outcome(handle, EventView::WebhookHandled(false))
            &&& next_step(handle, EventView::WebhookHandled(false)) matches StepView::Respond(
                ignored,
            )
            &&& ignored.status == Status::Success
            &&& ignored.header is None
            &&& ignored.body == "ignored request"@
            &&& is_outcome(handle, EventView::WebhookFailed(error))
            &&& next_step(handle, EventView::WebhookFailed(error)) matches StepView::Respond(failed)
            &&& failed.status == Status::InternalServerError
            &&& failed.header is None
            &&& failed.body == "request failed: "@ + error
        }),
{
}

} // verus!
