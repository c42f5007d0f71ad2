//! What each kind of request is answered with.

use crate::laws::{lemma_endpoints_differ, law_pages_do_not_shadow_endpoints};
use crate::query::{first_value, form_pairs};
use crate::response::Status;
use crate::routes::page_of;
use crate::serve::{
    first_step, is_outcome, next_step, Asset, EventView, RequestView, SiteView, StepView, TaskView,
};
use vstd::prelude::*;

verus! {

/// A page answers whatever request has its path, before anything else does.
pub proof fn law_page_is_shown(
    req: RequestView,
    site: SiteView,
    pairs: Seq<(Seq<char>, Seq<char>)>,
)
    requires
        page_of(req.path) is Some,
    ensures
        first_step(req, site, pairs) matches StepView::ShowPage(page) && page_of(req.path) == Some(
            page,
        ),
{
}

/// Each file of the site is sent under its path, unless a page has that path; of two files with
/// one path the script comes first and the icon of a failed job last.
pub proof fn law_file_is_sent(req: RequestView, site: SiteView, pairs: Seq<(Seq<char>, Seq<char>)>)
    requires
        page_of(req.path) is None,
    ensures
        first_step(req, site, pairs) == StepView::SendAsset(Asset::AnsiUpScript) <==> req.path
            == site.ansi_up_url,
        first_step(req, site, pairs) == StepView::SendAsset(Asset::SuccessIcon) <==> req.path
            == site.success_url && req.path != site.ansi_up_url,
        first_step(req, site, pairs) == StepView::SendAsset(Asset::FailureIcon) <==> req.path
            == site.failure_url && req.path != site.ansi_up_url && req.path != site.success_url,
{
}

/// The front page says that the bot is there.
pub proof fn law_front_page(req: RequestView, site: SiteView, pairs: Seq<(Seq<char>, Seq<char>)>)
    requires
        req.path == "/"@,
        req.path != site.ansi_up_url,
        req.path != site.success_url,
        req.path != site.failure_url,
    ensures
        first_step(req, site, pairs) matches StepView::Respond(response) && {
            &&& response.status == Status::Success
            &&& response.header is None
            &&& response.body == "Triagebot is awaiting triage."@
        },
{
    law_pages_do_not_shadow_endpoints(req.path);
    lemma_endpoints_differ();
}

/// The list of agendas is the site's own page for it.
pub proof fn law_agenda_index(req: RequestView, site: SiteView, pairs: Seq<(Seq<char>, Seq<char>)>)
    requires
        req.path == "/agenda"@,
        req.path != site.ansi_up_url,
        req.path != site.success_url,
        req.path != site.failure_url,
    ensures
        first_step(req, site, pairs) matches StepView::Respond(response) && {
            &&& response.status == Status::Success
            &&& response.header is None
            &&& response.body == site.agenda_index
        },
{
    law_pages_do_not_shadow_endpoints(req.path);
    lemma_endpoints_differ();
}

/// An agenda is asked for under the path of the request; what the service returns is the
/// response, and what it fails with is the body of an internal error.
pub proof fn law_agenda(
    req: RequestView,
    site: SiteView,
    pairs: Seq<(Seq<char>, Seq<char>)>,
    text: Seq<char>,
)
    requires
        req.path == "/agenda/lang/triage"@ || req.path == "/agenda/lang/planning"@ || req.path
            == "/agenda/types/planning"@,
        req.path != site.ansi_up_url,
        req.path != site.success_url,
        req.path != site.failure_url,
    ensures
        first_step(req, site, pairs) matches StepView::Perform(task) && {
            &&& task == (TaskView::CallAgenda { path: req.path })
            &&& is_outcome(task, EventView::AgendaReady(text))
            &&& is_outcome(task, EventView::AgendaFailed(text))
            &&& next_step(task, EventView::AgendaReady(text)) matches StepView::Respond(ready)
            &&& ready.status == Status::Success
            &&& ready.header is None
            &&& ready.body == text
            &&& next_step(task, EventView::AgendaFailed(text)) matches StepView::Respond(failed)
            &&& failed.status == Status::InternalServerError
            &&& failed.header is None
            &&& failed.body == text
        },
{
    law_pages_do_not_shadow_endpoints(req.path);
    lemma_endpoints_differ();
}

/// The commit list is the JSON text of the commits that were loaded, whatever they are; the error
/// of a failed load is the body of an internal error.
pub proof fn law_commit_list(
    req: RequestView,
    site: SiteView,
    pairs: Seq<(Seq<char>, Seq<char>)>,
    text: Seq<char>,
)
    requires
        req.path == "/bors-commit-list"@,
        req.path != site.ansi_up_url,
        req.path != site.success_url,
        req.path != site.failure_url,
    ensures
        first_step(req, site, pairs) matches StepView::Perform(task) && {
            &&& task == TaskView::LoadCommits
            &&& is_outcome(task, EventView::CommitsLoaded(text))
            &&& is_outcome(task, EventView::CommitsFailed(text))
            &&& next_step(task, EventView::CommitsLoaded(text)) matches StepView::Respond(loaded)
            &&& loaded.status == Status::Success
            &&& loaded.header == Some(("Content-Type"@, "application/json"@))
            &&& loaded.body == text
            &&& next_step(task, EventView::CommitsFailed(text)) matches StepView::Respond(failed)
            &&& failed.status == Status::InternalServerError
            &&& failed.header is None
            &&& failed.body == text
        },
{
    law_pages_do_not_shadow_endpoints(req.path);
    lemma_endpoints_differ();
}

/// A request for notifications whose query string names a user, the first time at place `i`, is
/// for that user, and the page that is rendered is the response, whatever it holds.
pub proof fn law_notifications(
    req: RequestView,
    site: SiteView,
    pairs: Seq<(Seq<char>, Seq<char>)>,
    i: int,
    page: Seq<char>,
)
    requires
        req.path == "/notifications"@,
        req.path != site.ansi_up_url,
        req.path != site.success_url,
        req.path != site.failure_url,
        0 <= i < pairs.len(),
        pairs[i].0 == "user"@,
        forall|j: int| 0 <= j < i ==> (#[trigger] pairs[j]).0 != "user"@,
    ensures
        first_step(req, site, pairs) matches StepView::Perform(task) && {
            &&& task == (TaskView::RenderNotifications { user: pairs[i].1 })
            &&& is_outcome(task, EventView::NotificationsRendered(page))
            &&& next_step(task, EventView::NotificationsRendered(page)) matches StepView::Respond(
                response,
            )
            &&& response.status == Status::Success
            &&& response.header is None
            &&& response.body == page
        },
{
    law_pages_do_not_shadow_endpoints(req.path);
    lemma_endpoints_differ();
    law_first_value(pairs, "user"@, i);
}

/// A request for notifications that names no user is answered with how to name one.
pub proof fn law_notifications_without_user(
    req: RequestView,
    site: SiteView,
    pairs: Seq<(Seq<char>, Seq<char>)>,
)
    requires
        req.path == "/notifications"@,
        req.path != site.ansi_up_url,
        req.path != site.success_url,
        req.path != site.failure_url,
        forall|j: int| 0 <= j < pairs.len() ==> (#[trigger] pairs[j]).0 != "user"@,
    ensures
        first_step(req, site, pairs) matches StepView::Respond(response) && {
            &&& response.status == Status::Success
            &&& response.header is None
            &&& response.body == "Please provide `?user=<username>` query param on URL."@
        },
{
    law_pages_do_not_shadow_endpoints(req.path);
    lemma_endpoints_differ();
    law_no_value(pairs, "user"@);
}

/// The first value of a name is the one at the first place where the name stands.
pub proof fn law_first_value(pairs: Seq<(Seq<char>, Seq<char>)>, name: Seq<char>, i: int)
    requires
        0 <= i < pairs.len(),
        pairs[i].0 == name,
        forall|j: int| 0 <= j < i ==> (#[trigger] pairs[j]).0 != name,
    ensures
        first_value(pairs, name) == Some(pairs[i].1),
    decreases i,
{
    if i > 0 {
        assert(pairs[0].0 != name);
        let rest = pairs.skip(1);
        assert forall|j: int| 0 <= j < i - 1 implies (#[trigger] rest[j]).0 != name by {
            assert(rest[j] == pairs[j + 1]);
        }
        law_first_value(rest, name, i - 1);
    }
}

/// There is no first value of a name that stands nowhere.
pub proof fn law_no_value(pairs: Seq<(Seq<char>, Seq<char>)>, name: Seq<char>)
    requires
        forall|j: int| 0 <= j < pairs.len() ==> (#[trigger] pairs[j]).0 != name,
    ensures
        first_value(pairs, name) is None,
    decreases pairs.len(),
{
    if pairs.len() > 0 {
        assert(pairs[0].0 != name);
        let rest = pairs.skip(1);
        assert forall|j: int| 0 <= j < rest.len() implies (#[trigger] rest[j]).0 != name by {
            assert(rest[j] == pairs[j + 1]);
        }
        law_no_value(rest, name);
    }
}

/// A request has the pairs of its query string, and none without one; any path without a NUL
/// character can be served.
pub proof fn law_request(req: RequestView)
    ensures
        req.query matches Some(query) ==> req.pairs() == form_pairs(query),
        req.query is None ==> req.pairs().len() == 0,
        req.well_formed() <==> (forall|i: int|
            0 <= i < req.path.len() ==> #[trigger] req.path[i] != '\0'),
{
}

/// A Zulip request is read, decoded as it was read and answered: for every reply, the response is
/// successful JSON with exactly that reply as its body. A body that cannot be decoded is a bad
/// request, reported with the reason; one that cannot be read fails.
pub proof fn law_zulip(
    req: RequestView,
    site: SiteView,
    pairs: Seq<(Seq<char>, Seq<char>)>,
    body: Seq<u8>,
    text: Seq<char>,
)
    requires
        req.path == "/zulip-hook"@,
        req.path != site.ansi_up_url,
        req.path != site.success_url,
        req.path != site.failure_url,
    ensures
        first_step(req, site, pairs) matches StepView::Perform(read) && {
            &&& read == TaskView::ReadZulipBody
            &&& is_outcome(read, EventView::BodyFailed)
            &&& next_step(read, EventView::BodyFailed) == StepView::Fail
            &&& is_outcome(read, EventView::BodyRead(body))
            &&& next_step(read, EventView::BodyRead(body)) matches StepView::Perform(decode)
            &&& decode == (TaskView::DecodeZulip { body })
            &&& is_outcome(decode, EventView::ZulipMalformed(text))
            &&& next_step(decode, EventView::ZulipMalformed(text)) matches StepView::Respond(
                refused,
            )
            &&& refused.status == Status::BadRequest
            &&& refused.header is None
            &&& refused.body == "Did not send valid JSON request: "@ + text
            &&& is_outcome(decode, EventView::ZulipDecoded)
            &&& next_step(decode, EventView::ZulipDecoded) matches StepView::Perform(reply)
            &&& reply == TaskView::AnswerZulip
            &&& is_outcome(reply, EventView::ZulipAnswered(text))
            &&& next_step(reply, EventView::ZulipAnswered(text)) matches StepView::Respond(response)
            &&& response.status == Status::Success
            &&& response.header == Some(("Content-Type"@, "application/json"@))
            &&& response.body == text
        },
{
    law_pages_do_not_shadow_endpoints(req.path);
    lemma_endpoints_differ();
}

/// Whatever path an agenda was asked for under, what the service returns is the response and what
/// it fails with is the body of an internal error.
pub proof fn law_agenda_outcome(path: Seq<char>, text: Seq<char>)
    ensures
        ({
            let task = TaskView::CallAgenda { path };
            &&& is_outcome(task, EventView::AgendaReady(text))
            &&& next_step(task, EventView::AgendaReady(text)) matches StepView::Respond(ready)
            &&& ready.status == Status::Success
            &&& ready.header is None
            &&& ready.body == text
            &&& is_outcome(task, EventView::AgendaFailed(text))
            &&& next_step(task, EventView::AgendaFailed(text)) matches StepView::Respond(failed)
            &&& failed.status == Status::InternalServerError
            &&& failed.header is None
            &&& failed.body == text
        }),
{
}

/// A request fails exactly where its body could not be read; every other outcome of a task is
/// followed by a response or by further work.
pub proof fn law_only_bodies_fail(task: TaskView, event: EventView)
    requires
        is_outcome(task, event),
    ensures
        next_step(task, event) == StepView::Fail <==> event == EventView::BodyFailed,
        next_step(task, event) is Respond || next_step(task, event) is Perform || next_step(
            task,
            event,
        ) is Fail,
        event == EventView::BodyFailed ==> task is ReadZulipBody || task is ReadHookBody,
{
}

/// A path that is neither a page, nor a file, nor one of the fixed paths is not found: the
/// response is empty.
pub proof fn law_not_found(req: RequestView, site: SiteView, pairs: Seq<(Seq<char>, Seq<char>)>)
    requires
        page_of(req.path) is None,
        req.path != site.ansi_up_url,
        req.path != site.success_url,
        req.path != site.failure_url,
        req.path != "/"@,
        req.path != "/agenda"@,
        req.path != "/agenda/lang/triage"@,
        req.path != "/agenda/lang/planning"@,
        req.path != "/agenda/types/planning"@,
        req.path != "/bors-commit-list"@,
        req.path != "/notifications"@,
        req.path != "/zulip-hook"@,
        req.path != "/github-hook"@,
    ensures
        first_step(req, site, pairs) matches StepView::Respond(response) && {
            &&& response.status == Status::NotFound
            &&& response.header is None
            &&& response.body.len() == 0
        },
{
}

} // verus!
