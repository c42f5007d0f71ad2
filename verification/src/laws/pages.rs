//! Which paths lead to which page.

use crate::agenda::{agenda_at, Agenda};
use crate::routes::{page_of, segments, unslashed, PageView};
use crate::text::{lemma_pieces_append, lemma_pieces_single, pieces};
use vstd::prelude::*;

verus! {

/// Texts put together with a separator between each two of them.
pub open spec fn joined(parts: Seq<Seq<char>>, separator: char) -> Seq<char>
    decreases parts.len(),
{
    if parts.len() == 0 {
        Seq::empty()
    } else if parts.len() == 1 {
        parts[0]
    } else {
        joined(parts.drop_last(), separator) + seq![separator] + parts.last()
    }
}

/// Taking a text to pieces loses nothing: put together again, the pieces are the text; and no
/// piece holds a separator.
pub proof fn law_pieces_make_up_the_text(s: Seq<char>, separator: char)
    ensures
        pieces(s, separator).len() > 0,
        joined(pieces(s, separator), separator) == s,
        forall|i: int|
            0 <= i < pieces(s, separator).len() ==> !(#[trigger] pieces(s, separator)[i]).contains(
                separator,
            ),
    decreases s.len(),
{
    let all = pieces(s, separator);
    if s.len() == 0 {
        assert(joined(all, separator) =~= s);
    } else {
        let before = pieces(s.drop_last(), separator);
        law_pieces_make_up_the_text(s.drop_last(), separator);
        if s.last() == separator {
            assert(all.drop_last() =~= before);
            assert(joined(all, separator) =~= s);
        } else {
            let kept = before.drop_last();
            assert(all.drop_last() =~= kept);
            assert(all.last() == before.last().push(s.last()));
            assert(joined(all, separator) =~= joined(before, separator).push(s.last()));
            assert(joined(all, separator) =~= s);
        }
        assert forall|i: int| 0 <= i < all.len() implies !(#[trigger] all[i]).contains(
            separator,
        ) by {
            if i < before.len() {
                assert(!before[i].contains(separator));
                if s.last() != separator && i == before.len() - 1 {
                    if all[i].contains(separator) {
                        let k = choose|k: int| 0 <= k < all[i].len() && all[i][k] == separator;
                        assert(before[i][k] == separator);
                    }
                }
            }
        }
    }
}

/// Texts without separators that are put together come apart again as they were.
pub proof fn law_joined_texts_come_apart(parts: Seq<Seq<char>>, separator: char)
    requires
        parts.len() > 0,
        forall|i: int| 0 <= i < parts.len() ==> !(#[trigger] parts[i]).contains(separator),
    ensures
        pieces(joined(parts, separator), separator) == parts,
    decreases parts.len(),
{
    assert(!parts[parts.len() - 1].contains(separator));
    if parts.len() == 1 {
        lemma_pieces_single(parts[0], separator);
        assert(parts =~= seq![parts[0]]);
    } else {
        let before = parts.drop_last();
        assert forall|i: int| 0 <= i < before.len() implies !(#[trigger] before[i]).contains(
            separator,
        ) by {
            assert(!parts[i].contains(separator));
        }
        law_joined_texts_come_apart(before, separator);
        lemma_pieces_append(joined(before, separator), parts.last(), separator);
        assert(before.push(parts.last()) =~= parts);
    }
}

/// A path with its first slash, or without it, is told by what follows that slash.
proof fn lemma_unslashed(path: Seq<char>, rest: Seq<char>)
    requires
        rest.len() > 0,
        rest[0] != '/',
    ensures
        unslashed(path) == rest <==> path == rest || path == seq!['/'] + rest,
{
    if path == seq!['/'] + rest {
        assert(path.skip(1) =~= rest);
    }
    if unslashed(path) == rest && path != rest {
        assert(path =~= seq!['/'] + rest);
    }
}

/// The page of repositories stands under `/triage`, where the first slash may be missing, and
/// nowhere else.
pub proof fn law_index_page(path: Seq<char>)
    ensures
        page_of(path) == Some(PageView::Index) <==> path == "/triage"@ || path == "triage"@,
{
    reveal_strlit("triage");
    reveal_strlit("/triage");
    assert(seq!['/'] + "triage"@ =~= "/triage"@);
    lemma_unslashed(path, "triage"@);
    lemma_pieces_single("triage"@, '/');
    let parts = segments(unslashed(path));
    law_pieces_make_up_the_text(unslashed(path), '/');
    if parts.len() == 1 && parts[0] == "triage"@ {
        assert(unslashed(path) == "triage"@);
    }
}

/// The page of pull requests stands under `/triage/<owner>/<repo>`, where neither is empty or
/// holds a slash and the first slash may be missing, and nowhere else.
pub proof fn law_pulls_page_path(path: Seq<char>, owner: Seq<char>, repo: Seq<char>)
    ensures
        page_of(path) == Some(PageView::Pulls { owner, repo }) <==> {
            &&& owner.len() > 0 && !owner.contains('/')
            &&& repo.len() > 0 && !repo.contains('/')
            &&& path == "/triage/"@ + owner + "/"@ + repo || path == "triage/"@ + owner + "/"@
                + repo
        },
{
    reveal_strlit("triage");
    reveal_strlit("triage/");
    reveal_strlit("/triage/");
    reveal_strlit("/");
    let rest = "triage/"@ + owner + "/"@ + repo;
    let wanted = seq!["triage"@, owner, repo];
    assert(joined(wanted, '/') =~= rest) by {
        reveal_with_fuel(joined, 3);
        assert(wanted.drop_last() =~= seq!["triage"@, owner]);
        assert(wanted.drop_last().drop_last() =~= seq!["triage"@]);
    }
    assert(seq!['/'] + rest =~= "/triage/"@ + owner + "/"@ + repo);
    lemma_unslashed(path, rest);
    let parts = segments(unslashed(path));
    law_pieces_make_up_the_text(unslashed(path), '/');
    if page_of(path) == Some(PageView::Pulls { owner, repo }) {
        assert(parts =~= wanted);
        assert(!parts[1].contains('/'));
        assert(!parts[2].contains('/'));
    }
    if owner.len() > 0 && !owner.contains('/') && repo.len() > 0 && !repo.contains('/')
        && unslashed(path) == rest {
        law_joined_texts_come_apart(wanted, '/');
    }
}

/// The page of a log stands under `/gha-logs/<owner>/<repo>/<log-id>`, where none of them is
/// empty or holds a slash and the first slash may be missing, and nowhere else.
pub proof fn law_log_page_path(
    path: Seq<char>,
    owner: Seq<char>,
    repo: Seq<char>,
    log_id: Seq<char>,
)
    ensures
        page_of(path) == Some(PageView::GhaLogs { owner, repo, log_id }) <==> {
            &&& owner.len() > 0 && !owner.contains('/')
            &&& repo.len() > 0 && !repo.contains('/')
            &&& log_id.len() > 0 && !log_id.contains('/')
            &&& path == "/gha-logs/"@ + owner + "/"@ + repo + "/"@ + log_id || path
                == "gha-logs/"@ + owner + "/"@ + repo + "/"@ + log_id
        },
{
    reveal_strlit("gha-logs");
    reveal_strlit("triage");
    reveal_strlit("gha-logs/");
    reveal_strlit("/gha-logs/");
    reveal_strlit("/");
    let rest = "gha-logs/"@ + owner + "/"@ + repo + "/"@ + log_id;
    let wanted = seq!["gha-logs"@, owner, repo, log_id];
    assert(joined(wanted, '/') =~= rest) by {
        reveal_with_fuel(joined, 4);
        assert(wanted.drop_last() =~= seq!["gha-logs"@, owner, repo]);
        assert(wanted.drop_last().drop_last() =~= seq!["gha-logs"@, owner]);
        assert(wanted.drop_last().drop_last().drop_last() =~= seq!["gha-logs"@]);
    }
    assert(seq!['/'] + rest =~= "/gha-logs/"@ + owner + "/"@ + repo + "/"@ + log_id);
    lemma_unslashed(path, rest);
    let parts = segments(unslashed(path));
    law_pieces_make_up_the_text(unslashed(path), '/');
    if page_of(path) == Some(PageView::GhaLogs { owner, repo, log_id }) {
        assert(parts =~= wanted);
        assert(!parts[1].contains('/'));
        assert(!parts[2].contains('/'));
        assert(!parts[3].contains('/'));
    }
    if owner.len() > 0 && !owner.contains('/') && repo.len() > 0 && !repo.contains('/')
        && log_id.len() > 0 && !log_id.contains('/') && unslashed(path) == rest {
        law_joined_texts_come_apart(wanted, '/');
    }
}

/// Each agenda stands under one path.
pub proof fn law_agenda_paths(path: Seq<char>)
    ensures
        agenda_at(path) == Some(Agenda::LangTriage) <==> path == "/agenda/lang/triage"@,
        agenda_at(path) == Some(Agenda::LangPlanning) <==> path == "/agenda/lang/planning"@,
        agenda_at(path) == Some(Agenda::TypesPlanning) <==> path == "/agenda/types/planning"@,
{
    crate::laws::lemma_endpoints_differ();
}

} // verus!
