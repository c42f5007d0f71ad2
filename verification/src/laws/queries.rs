//! How query strings without escapes are read.

use crate::laws::requests::law_notifications;
use crate::query::{is_literal, lemma_first_piece, literal_pair, literal_pairs};
use crate::serve::{first_step, RequestView, SiteView, StepView, TaskView};
use crate::text::{lemma_pieces_append, lemma_pieces_single, pieces};
use vstd::prelude::*;

verus! {

/// A query string is read as it is written where it holds neither a percent nor a plus sign.
pub proof fn law_literal_query(query: Seq<char>)
    ensures
        is_literal(query) <==> (forall|i: int|
            0 <= i < query.len() ==> #[trigger] query[i] != '%' && query[i] != '+'),
{
}

/// What a piece of a query string stands for.
proof fn lemma_literal_pair(name: Seq<char>, value: Seq<char>)
    requires
        !name.contains('='),
    ensures
        literal_pair(name) == (name, Seq::<char>::empty()),
        literal_pair(name + seq!['='] + value) == (name, value),
{
    lemma_pieces_single(name, '=');
    lemma_first_piece(name, value, '=');
    let piece = name + seq!['='] + value;
    assert(piece[name.len() as int] == '=');
    assert(piece.contains('='));
    assert(piece.skip(name.len() as int + 1) =~= value);
}

/// How the pairs grow by one piece.
proof fn lemma_pairs_append(query: Seq<char>, piece: Seq<char>)
    requires
        !piece.contains('&'),
    ensures
        literal_pairs(query + seq!['&'] + piece) == (if piece.len() > 0 {
            literal_pairs(query).push(literal_pair(piece))
        } else {
            literal_pairs(query)
        }),
        literal_pairs(piece) == (if piece.len() > 0 {
            seq![literal_pair(piece)]
        } else {
            Seq::empty()
        }),
{
    let keep = |p: Seq<char>| p.len() > 0;
    let before = pieces(query, '&');
    lemma_pieces_append(query, piece, '&');
    lemma_pieces_single(piece, '&');
    reveal_with_fuel(Seq::<_>::filter, 2);
    assert(before.push(piece).drop_last() =~= before);
    assert(seq![piece].drop_last() =~= Seq::<Seq<char>>::empty());
    assert(literal_pairs(query + seq!['&'] + piece) =~= (if piece.len() > 0 {
        literal_pairs(query).push(literal_pair(piece))
    } else {
        literal_pairs(query)
    }));
    assert(literal_pairs(piece) =~= (if piece.len() > 0 {
        seq![literal_pair(piece)]
    } else {
        Seq::empty()
    }));
}

/// A query string that holds `<name>=<value>` alone stands for that one pair; the value may be
/// empty and may hold the equals sign.
pub proof fn law_single_pair(name: Seq<char>, value: Seq<char>)
    requires
        !name.contains('=') && !name.contains('&'),
        !value.contains('&'),
    ensures
        literal_pairs(name + seq!['='] + value) == seq![(name, value)],
        literal_pairs(name) == (if name.len() > 0 {
            seq![(name, Seq::<char>::empty())]
        } else {
            Seq::empty()
        }),
{
    lemma_literal_pair(name, value);
    let piece = name + seq!['='] + value;
    assert(!piece.contains('&')) by {
        if piece.contains('&') {
            let i = choose|i: int| 0 <= i < piece.len() && piece[i] == '&';
            if i < name.len() {
                assert(name.contains(name[i]));
            } else {
                assert(i > name.len());
                assert(value.contains(value[i - name.len() - 1]));
            }
        }
    }
    lemma_pairs_append(Seq::empty(), piece);
    lemma_pairs_append(Seq::empty(), name);
}

/// `&<name>=<value>` behind a query string adds that pair behind its pairs, `&<name>` adds the
/// name with an empty value, and an ampersand alone adds nothing.
pub proof fn law_further_pair(query: Seq<char>, name: Seq<char>, value: Seq<char>)
    requires
        !name.contains('=') && !name.contains('&'),
        !value.contains('&'),
    ensures
        literal_pairs(query + seq!['&'] + (name + seq!['='] + value)) == literal_pairs(query).push(
            (name, value),
        ),
        name.len() > 0 ==> literal_pairs(query + seq!['&'] + name) == literal_pairs(query).push(
            (name, Seq::<char>::empty()),
        ),
        literal_pairs(query.push('&')) == literal_pairs(query),
{
    lemma_literal_pair(name, value);
    let piece = name + seq!['='] + value;
    assert(!piece.contains('&')) by {
        if piece.contains('&') {
            let i = choose|i: int| 0 <= i < piece.len() && piece[i] == '&';
            if i < name.len() {
                assert(name.contains(name[i]));
            } else {
                assert(i > name.len());
                assert(value.contains(value[i - name.len() - 1]));
            }
        }
    }
    lemma_pairs_append(query, piece);
    lemma_pairs_append(query, name);
    lemma_pairs_append(query, Seq::empty());
    assert(query.push('&') =~= query + seq!['&'] + Seq::<char>::empty());
}

/// Asking for the notifications with `?user=<name>`, where the name holds no ampersand and no
/// escapes, renders the notifications of that user.
pub proof fn law_user_of_the_query(req: RequestView, site: SiteView, name: Seq<char>)
    requires
        req.path == "/notifications"@,
        req.path != site.ansi_up_url,
        req.path != site.success_url,
        req.path != site.failure_url,
        req.query == Some("user="@ + name),
        !name.contains('&') && !name.contains('%') && !name.contains('+'),
    ensures
        is_literal(req.query->0),
        first_step(req, site, literal_pairs(req.query->0)) == StepView::Perform(
            TaskView::RenderNotifications { user: name },
        ),
{
    reveal_strlit("user");
    reveal_strlit("user=");
    let query = "user="@ + name;
    assert forall|i: int| 0 <= i < query.len() implies query[i] != '%' && query[i] != '+' by {
        if i >= 5 {
            assert(name.contains(name[i - 5]));
        }
    }
    law_literal_query(query);
    law_single_pair("user"@, name);
    assert("user"@ + seq!['='] + name =~= query);
    law_notifications(req, site, literal_pairs(query), 0, Seq::empty());
}

} // verus!
