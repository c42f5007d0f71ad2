//! The pages that are found by matching the request path against URL patterns.

use crate::text::{lemma_pieces_append, lemma_pieces_single, pieces, same_text};
use route_recognizer::{Params, Router};
use vstd::prelude::*;

verus! {

/// A table of URL patterns, each with the name of its handler.
#[verifier::external_type_specification]
#[verifier::external_body]
#[verifier::reject_recursive_types(T)]
pub struct ExRouter<T>(Router<T>);

/// The values that the parameters of a pattern took in a match.
#[verifier::external_type_specification]
#[verifier::external_body]
pub struct ExParams(Params);

/// What a router holds: its patterns in the order in which they were added, each with its
/// handler.
pub uninterp spec fn router_table(router: Router<String>) -> Seq<(Seq<char>, Seq<char>)>;

/// What a set of parameters holds: the value of each parameter by name.
pub uninterp spec fn params_table(params: Params) -> Map<Seq<char>, Seq<char>>;

/// The parts of a path or a pattern between its slashes.
pub open spec fn segments(s: Seq<char>) -> Seq<Seq<char>> {
    pieces(s, '/')
}

/// `s` without its first slash, if it begins with one.
pub open spec fn unslashed(s: Seq<char>) -> Seq<char> {
    if s.len() > 0 && s[0] == '/' {
        s.skip(1)
    } else {
        s
    }
}

/// Whether a segment of a pattern is a parameter, such as `:owner`.
pub open spec fn is_parameter(segment: Seq<char>) -> bool {
    segment.len() > 0 && segment[0] == ':'
}

/// Whether `segment` of a pattern accepts `part` of a path.
pub open spec fn accepts(segment: Seq<char>, part: Seq<char>) -> bool {
    if is_parameter(segment) {
        part.len() > 0
    } else {
        part == segment
    }
}

/// Whether `path` matches `pattern`: segment by segment, a parameter taking any part that is
/// not empty and any other segment only itself. One leading slash of either does not count.
pub open spec fn path_matches(pattern: Seq<char>, path: Seq<char>) -> bool {
    let wanted = segments(unslashed(pattern));
    let parts = segments(unslashed(path));
    &&& wanted.len() == parts.len()
    &&& forall|i: int| 0 <= i < wanted.len() ==> accepts(#[trigger] wanted[i], parts[i])
}

/// The values that named parameters take where `parts` are matched against `wanted`; of two
/// parameters with one name, the later counts.
pub open spec fn bindings(wanted: Seq<Seq<char>>, parts: Seq<Seq<char>>) -> Map<
    Seq<char>,
    Seq<char>,
>
    decreases wanted.len(),
{
    if wanted.len() == 0 {
        Map::empty()
    } else {
        let before = bindings(wanted.drop_last(), parts.drop_last());
        let segment = wanted.last();
        if is_parameter(segment) && segment.len() > 1 {
            before.insert(segment.skip(1), parts.last())
        } else {
            before
        }
    }
}

/// Whether a pattern is made of plain segments and parameters only: ASCII text without the NUL
/// character, without dots and without wildcard segments.
pub open spec fn is_plain_pattern(pattern: Seq<char>) -> bool {
    &&& forall|i: int|
        0 <= i < pattern.len() ==> {
            &&& 0 < #[trigger] pattern[i] as u32 <= 127
            &&& pattern[i] != '.'
        }
    &&& forall|i: int|
        0 <= i < segments(unslashed(pattern)).len() ==> {
            let segment = #[trigger] segments(unslashed(pattern))[i];
            segment.len() > 0 ==> segment[0] != '*'
        }
}

/// `Router::new`: an empty router.
///
/// Trusted: the new router holds no pattern.
#[verifier::external_body]
fn empty_router() -> (router: Router<String>)
    ensures
        router_table(router) == Seq::<(Seq<char>, Seq<char>)>::empty(),
{
    Router::new()
}

/// `Router::add`: adds a pattern and its handler.
///
/// Trusted: the router then holds the pattern behind those it held before. Only plain patterns
/// are added: the router gives dots and wildcards a meaning of their own, and reads other text
/// than ASCII byte by byte.
#[verifier::external_body]
fn add_route(router: &mut Router<String>, pattern: &str, handler: String)
    requires
        is_plain_pattern(pattern@),
    ensures
        router_table(*final(router)) == router_table(*old(router)).push((pattern@, handler@)),
{
    router.add(pattern, handler)
}

/// `Router::recognize`: finds a pattern that a path matches.
///
/// Trusted: it fails exactly where the path matches none of the patterns held. Otherwise it
/// returns the handler of a pattern that the path matches, and the parameters that this pattern
/// binds. Where a path matches several patterns, which of them is found is not stated. A NUL
/// character in the path is left out, since the router's arithmetic on it overflows.
#[verifier::external_body]
fn recognize(router: &Router<String>, path: &str) -> (found: Option<(String, Params)>)
    requires
        forall|i: int|
            0 <= i < router_table(*router).len() ==> is_plain_pattern(
                (#[trigger] router_table(*router)[i]).0,
            ),
        !path@.contains('\0'),
    ensures
        found is None <==> (forall|i: int|
            0 <= i < router_table(*router).len() ==> !path_matches(
                (#[trigger] router_table(*router)[i]).0,
                path@,
            )),
        found matches Some((handler, params)) ==> exists|i: int|
            {
                &&& 0 <= i < router_table(*router).len()
                &&& path_matches((#[trigger] router_table(*router)[i]).0, path@)
                &&& handler@ == router_table(*router)[i].1
                &&& params_table(params) == bindings(
                    segments(unslashed(router_table(*router)[i].0)),
                    segments(unslashed(path@)),
                )
            },
{
    match router.recognize(path) {
        Ok(found) => Some((found.handler().to_string(), found.params().clone())),
        Err(_) => None,
    }
}

/// `Params::find`: looks a parameter up by name.
///
/// Trusted: it finds exactly the parameters held, each with its value.
pub assume_specification<'a>[ Params::find ](params: &'a Params, key: &str) -> (value: Option<
    &'a str,
>)
    ensures
        value is Some <==> params_table(*params).contains_key(key@),
        value matches Some(v) ==> v@ == params_table(*params)[key@],
;

/// A page that a pattern leads to.
pub enum Page {
    /// The list of repositories to triage.
    Index,
    /// The pull requests of one repository.
    Pulls { owner: String, repo: String },
    /// The log of one CI job.
    GhaLogs { owner: String, repo: String, log_id: String },
}

/// The model of a [`Page`].
pub enum PageView {
    Index,
    Pulls { owner: Seq<char>, repo: Seq<char> },
    GhaLogs { owner: Seq<char>, repo: Seq<char>, log_id: Seq<char> },
}

impl View for Page {
    type V = PageView;

    open spec fn view(&self) -> PageView {
        match self {
            Page::Index => PageView::Index,
            Page::Pulls { owner, repo } => PageView::Pulls { owner: owner@, repo: repo@ },
            Page::GhaLogs { owner, repo, log_id } => PageView::GhaLogs {
                owner: owner@,
                repo: repo@,
                log_id: log_id@,
            },
        }
    }
}

/// The page that `path` names: `/triage`, `/triage/<owner>/<repo>` or
/// `/gha-logs/<owner>/<repo>/<log-id>`, where no parameter may be empty. The first slash may be
/// missing.
pub open spec fn page_of(path: Seq<char>) -> Option<PageView> {
    let parts = segments(unslashed(path));
    if parts.len() == 1 && parts[0] == "triage"@ {
        Some(PageView::Index)
    } else if parts.len() == 3 && parts[0] == "triage"@ && parts[1].len() > 0
        && parts[2].len() > 0 {
        Some(PageView::Pulls { owner: parts[1], repo: parts[2] })
    } else if parts.len() == 4 && parts[0] == "gha-logs"@ && parts[1].len() > 0
        && parts[2].len() > 0 && parts[3].len() > 0 {
        Some(PageView::GhaLogs { owner: parts[1], repo: parts[2], log_id: parts[3] })
    } else {
        None
    }
}

/// The segments of the patterns.
proof fn lemma_patterns()
    ensures
        segments(unslashed("/triage"@)) == seq!["triage"@],
        segments(unslashed("/triage/:owner/:repo"@)) == seq!["triage"@, ":owner"@, ":repo"@],
        segments(unslashed("/gha-logs/:owner/:repo/:log-id"@)) == seq![
            "gha-logs"@,
            ":owner"@,
            ":repo"@,
            ":log-id"@,
        ],
        is_plain_pattern("/triage"@),
        is_plain_pattern("/triage/:owner/:repo"@),
        is_plain_pattern("/gha-logs/:owner/:repo/:log-id"@),
{
    reveal_strlit("/triage");
    reveal_strlit("/triage/:owner/:repo");
    reveal_strlit("/gha-logs/:owner/:repo/:log-id");
    reveal_strlit("triage");
    reveal_strlit("gha-logs");
    reveal_strlit(":owner");
    reveal_strlit(":repo");
    reveal_strlit(":log-id");
    let slash = seq!['/'];
    let triage = "triage"@;
    let logs = "gha-logs"@;
    assert(unslashed("/triage"@) =~= triage);
    lemma_pieces_single(triage, '/');
    let triage_owner = triage + slash + ":owner"@;
    lemma_pieces_append(triage, ":owner"@, '/');
    lemma_pieces_append(triage_owner, ":repo"@, '/');
    assert(unslashed("/triage/:owner/:repo"@) =~= triage_owner + slash + ":repo"@);
    assert(segments(unslashed("/triage/:owner/:repo"@)) =~= seq![triage, ":owner"@, ":repo"@]);
    lemma_pieces_single(logs, '/');
    let logs_owner = logs + slash + ":owner"@;
    let logs_repo = logs_owner + slash + ":repo"@;
    lemma_pieces_append(logs, ":owner"@, '/');
    lemma_pieces_append(logs_owner, ":repo"@, '/');
    lemma_pieces_append(logs_repo, ":log-id"@, '/');
    assert(unslashed("/gha-logs/:owner/:repo/:log-id"@) =~= logs_repo + slash + ":log-id"@);
    assert(segments(unslashed("/gha-logs/:owner/:repo/:log-id"@)) =~= seq![
        logs,
        ":owner"@,
        ":repo"@,
        ":log-id"@,
    ]);
}

/// How the bindings grow by one segment.
proof fn lemma_bindings_push(
    wanted: Seq<Seq<char>>,
    parts: Seq<Seq<char>>,
    segment: Seq<char>,
    part: Seq<char>,
)
    ensures
        bindings(wanted.push(segment), parts.push(part)) == (if is_parameter(segment)
            && segment.len() > 1 {
            bindings(wanted, parts).insert(segment.skip(1), part)
        } else {
            bindings(wanted, parts)
        }),
{
    assert(wanted.push(segment).drop_last() =~= wanted);
    assert(parts.push(part).drop_last() =~= parts);
}

/// What the patterns bind in paths of as many segments.
proof fn lemma_page_bindings(parts: Seq<Seq<char>>)
    ensures
        parts.len() == 3 ==> bindings(segments(unslashed("/triage/:owner/:repo"@)), parts)
            == map!["owner"@ => parts[1], "repo"@ => parts[2]],
        parts.len() == 4 ==> bindings(
            segments(unslashed("/gha-logs/:owner/:repo/:log-id"@)),
            parts,
        ) == map!["owner"@ => parts[1], "repo"@ => parts[2], "log-id"@ => parts[3]],
{
    lemma_patterns();
    reveal_strlit("triage");
    reveal_strlit("gha-logs");
    reveal_strlit(":owner");
    reveal_strlit(":repo");
    reveal_strlit(":log-id");
    reveal_strlit("owner");
    reveal_strlit("repo");
    reveal_strlit("log-id");
    assert(":owner"@.skip(1) =~= "owner"@);
    assert(":repo"@.skip(1) =~= "repo"@);
    assert(":log-id"@.skip(1) =~= "log-id"@);
    let none = Seq::<Seq<char>>::empty();
    if parts.len() == 3 {
        let wanted1 = none.push("triage"@);
        let parts1 = none.push(parts[0]);
        let wanted2 = wanted1.push(":owner"@);
        let parts2 = parts1.push(parts[1]);
        lemma_bindings_push(none, none, "triage"@, parts[0]);
        lemma_bindings_push(wanted1, parts1, ":owner"@, parts[1]);
        lemma_bindings_push(wanted2, parts2, ":repo"@, parts[2]);
        assert(segments(unslashed("/triage/:owner/:repo"@)) =~= wanted2.push(":repo"@));
        assert(parts =~= parts2.push(parts[2]));
        assert(bindings(wanted2.push(":repo"@), parts) =~= map![
            "owner"@ => parts[1],
            "repo"@ => parts[2],
        ]);
    }
    if parts.len() == 4 {
        let wanted1 = none.push("gha-logs"@);
        let parts1 = none.push(parts[0]);
        let wanted2 = wanted1.push(":owner"@);
        let parts2 = parts1.push(parts[1]);
        let wanted3 = wanted2.push(":repo"@);
        let parts3 = parts2.push(parts[2]);
        lemma_bindings_push(none, none, "gha-logs"@, parts[0]);
        lemma_bindings_push(wanted1, parts1, ":owner"@, parts[1]);
        lemma_bindings_push(wanted2, parts2, ":repo"@, parts[2]);
        lemma_bindings_push(wanted3, parts3, ":log-id"@, parts[3]);
        assert(segments(unslashed("/gha-logs/:owner/:repo/:log-id"@)) =~= wanted3.push(
            ":log-id"@,
        ));
        assert(parts =~= parts3.push(parts[3]));
        assert(bindings(wanted3.push(":log-id"@), parts) =~= map![
            "owner"@ => parts[1],
            "repo"@ => parts[2],
            "log-id"@ => parts[3],
        ]);
    }
}

/// Which pages the patterns stand for.
proof fn lemma_page_matches(path: Seq<char>)
    ensures
        path_matches("/triage"@, path) <==> page_of(path) == Some(PageView::Index),
        path_matches("/triage/:owner/:repo"@, path) <==> (page_of(path) matches Some(page)
            && page is Pulls),
        path_matches("/gha-logs/:owner/:repo/:log-id"@, path) <==> (page_of(path) matches Some(page)
            && page is GhaLogs),
{
    lemma_patterns();
    reveal_strlit("triage");
    reveal_strlit("gha-logs");
    reveal_strlit(":owner");
    reveal_strlit(":repo");
    reveal_strlit(":log-id");
    let parts = segments(unslashed(path));
    let index = segments(unslashed("/triage"@));
    let pulls = segments(unslashed("/triage/:owner/:repo"@));
    let logs = segments(unslashed("/gha-logs/:owner/:repo/:log-id"@));
    if path_matches("/triage"@, path) {
        assert(accepts(index[0], parts[0]));
    }
    if path_matches("/triage/:owner/:repo"@, path) {
        assert(accepts(pulls[0], parts[0]));
        assert(accepts(pulls[1], parts[1]));
        assert(accepts(pulls[2], parts[2]));
    }
    if path_matches("/gha-logs/:owner/:repo/:log-id"@, path) {
        assert(accepts(logs[0], parts[0]));
        assert(accepts(logs[1], parts[1]));
        assert(accepts(logs[2], parts[2]));
        assert(accepts(logs[3], parts[3]));
    }
}

/// The handlers are told apart, and so are the parameters.
proof fn lemma_names_differ()
    ensures
        "index"@ != "pulls"@,
        "index"@ != "gha-logs"@,
        "pulls"@ != "gha-logs"@,
        "owner"@ != "repo"@,
        "owner"@ != "log-id"@,
        "repo"@ != "log-id"@,
{
    reveal_strlit("index");
    reveal_strlit("pulls");
    reveal_strlit("gha-logs");
    reveal_strlit("owner");
    reveal_strlit("repo");
    reveal_strlit("log-id");
    assert("index"@[0] != "pulls"@[0]);
    assert("index"@.len() != "gha-logs"@.len());
    assert("pulls"@.len() != "gha-logs"@.len());
    assert("owner"@.len() != "repo"@.len());
    assert("owner"@.len() != "log-id"@.len());
    assert("repo"@.len() != "log-id"@.len());
}

/// Finds the page that `path` names, if it names one.
pub fn find_page(path: &str) -> (page: Option<Page>)
    requires
        !path@.contains('\0'),
    ensures
        page is Some <==> page_of(path@) is Some,
        page matches Some(p) ==> Some(p@) == page_of(path@),
{
    let mut router: Router<String> = empty_router();
    proof {
        lemma_patterns();
    }
    add_route(&mut router, "/triage", "index".to_owned());
    add_route(&mut router, "/triage/:owner/:repo", "pulls".to_owned());
    add_route(&mut router, "/gha-logs/:owner/:repo/:log-id", "gha-logs".to_owned());
    proof {
        lemma_page_matches(path@);
        lemma_page_bindings(segments(unslashed(path@)));
        lemma_names_differ();
        assert(router_table(router) =~= seq![
            ("/triage"@, "index"@),
            ("/triage/:owner/:repo"@, "pulls"@),
            ("/gha-logs/:owner/:repo/:log-id"@, "gha-logs"@),
        ]);
    }
    match recognize(&router, path) {
        Some((handler, params)) => {
            if same_text(&handler, "pulls") {
                match (params.find("owner"), params.find("repo")) {
                    (Some(owner), Some(repo)) => Some(
                        Page::Pulls { owner: owner.to_owned(), repo: repo.to_owned() },
                    ),
                    _ => None,
                }
            } else if same_text(&handler, "index") {
                Some(Page::Index)
            } else if same_text(&handler, "gha-logs") {
                match (params.find("owner"), params.find("repo"), params.find("log-id")) {
                    (Some(owner), Some(repo), Some(log_id)) => Some(
                        Page::GhaLogs {
                            owner: owner.to_owned(),
                            repo: repo.to_owned(),
                            log_id: log_id.to_owned(),
                        },
                    ),
                    _ => None,
                }
            } else {
                None
            }
        },
        None => None,
    }
}

} // verus!
