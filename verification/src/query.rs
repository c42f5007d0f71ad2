//! The parameters in the query part of a request's URL.

use crate::text::{lemma_pieces_append, lemma_pieces_single, pieces, same_text};
use vstd::prelude::*;

verus! {

/// The name and value pairs that a query string stands for, in their order.
pub uninterp spec fn form_pairs(query: Seq<char>) -> Seq<(Seq<char>, Seq<char>)>;

/// The model of a list of pairs.
pub open spec fn pairs_view(pairs: Seq<(String, String)>) -> Seq<(Seq<char>, Seq<char>)> {
    pairs.map_values(|pair: (String, String)| (pair.0@, pair.1@))
}

/// Whether a query string holds no escapes: neither `%` nor `+`.
pub open spec fn is_literal(query: Seq<char>) -> bool {
    !query.contains('%') && !query.contains('+')
}

/// The pair that one piece of a query string stands for, read as it is written: the name goes up
/// to the first `=` and the value is what follows it.
pub open spec fn literal_pair(piece: Seq<char>) -> (Seq<char>, Seq<char>) {
    let name = pieces(piece, '=')[0];
    (
        name,
        if piece.contains('=') {
            piece.skip(name.len() as int + 1)
        } else {
            Seq::empty()
        },
    )
}

/// The pairs that a query string stands for, read as it is written: one for each piece between
/// ampersands that is not empty.
pub open spec fn literal_pairs(query: Seq<char>) -> Seq<(Seq<char>, Seq<char>)> {
    pieces(query, '&').filter(|piece: Seq<char>| piece.len() > 0).map_values(
        |piece: Seq<char>| literal_pair(piece),
    )
}

/// `url::form_urlencoded::parse`: decodes a query string in the
/// `application/x-www-form-urlencoded` syntax.
///
/// Trusted: the pairs depend on the text alone, and a query string without escapes is read as it
/// is written. How `%` and `+` are decoded is not stated.
#[verifier::external_body]
pub(crate) fn parse_form(query: &str) -> (pairs: Vec<(String, String)>)
    ensures
        pairs_view(pairs@) == form_pairs(query@),
        is_literal(query@) ==> pairs_view(pairs@) == literal_pairs(query@),
{
    url::form_urlencoded::parse(query.as_bytes()).into_owned().collect()
}

/// The value of the first pair with the given name.
pub open spec fn first_value(pairs: Seq<(Seq<char>, Seq<char>)>, name: Seq<char>) -> Option<
    Seq<char>,
>
    decreases pairs.len(),
{
    if pairs.len() == 0 {
        None
    } else if pairs[0].0 == name {
        Some(pairs[0].1)
    } else {
        first_value(pairs.skip(1), name)
    }
}

/// The user that a list of pairs asks for: the value of the first pair named `user`.
pub fn requested_user(pairs: &Vec<(String, String)>) -> (user: Option<String>)
    ensures
        user is Some <==> first_value(pairs_view(pairs@), "user"@) is Some,
        user matches Some(u) ==> Some(u@) == first_value(pairs_view(pairs@), "user"@),
        user matches Some(u) ==> exists|i: int|
            {
                &&& 0 <= i < pairs@.len()
                &&& (#[trigger] pairs@[i]).0@ == "user"@
                &&& pairs@[i].1@ == u@
                &&& forall|j: int| 0 <= j < i ==> (#[trigger] pairs@[j]).0@ != "user"@
            },
        user is None ==> forall|j: int|
            0 <= j < pairs@.len() ==> (#[trigger] pairs@[j]).0@ != "user"@,
{
    let ghost all = pairs_view(pairs@);
    let mut i: usize = 0;
    assert(all.skip(0) =~= all);
    while i < pairs.len()
        invariant
            all == pairs_view(pairs@),
            0 <= i <= pairs@.len(),
            first_value(all, "user"@) == first_value(all.skip(i as int), "user"@),
            forall|j: int| 0 <= j < i ==> (#[trigger] pairs@[j]).0@ != "user"@,
        decreases pairs@.len() - i,
    {
        let pair: &(String, String) = &pairs[i];
        assert(all.skip(i as int)[0] == (pair.0@, pair.1@));
        if same_text(&pair.0, "user") {
            return Some(pair.1.clone());
        }
        assert(all.skip(i as int).skip(1) =~= all.skip(i + 1));
        i += 1;
    }
    None
}

/// The query string `user=<name>` stands for the one pair of `user` and that name, where the name
/// holds no ampersand.
pub proof fn lemma_user_query(name: Seq<char>)
    requires
        !name.contains('&'),
    ensures
        literal_pairs("user="@ + name) == seq![("user"@, name)],
        first_value(literal_pairs("user="@ + name), "user"@) == Some(name),
{
    reveal_strlit("user=");
    reveal_strlit("user");
    let query = "user="@ + name;
    assert(!query.contains('&')) by {
        if query.contains('&') {
            let i = choose|i: int| 0 <= i < query.len() && query[i] == '&';
            assert(i >= 5);
            assert(name.contains(name[i - 5]));
        }
    }
    lemma_pieces_single(query, '&');
    let keep = |piece: Seq<char>| piece.len() > 0;
    assert(seq![query].filter(keep) =~= seq![query]) by {
        reveal_with_fuel(Seq::<_>::filter, 2);
        assert(seq![query].drop_last() =~= Seq::<Seq<char>>::empty());
    }
    lemma_first_piece("user"@, name, '=');
    assert("user"@ + seq!['='] + name =~= query);
    assert(query[4] == '=');
    assert(query.contains('='));
    assert(query.skip(5) =~= name);
    assert(literal_pairs(query) =~= seq![("user"@, name)]);
}

/// What stands before the first separator is the first piece.
pub(crate) proof fn lemma_first_piece(first: Seq<char>, rest: Seq<char>, separator: char)
    requires
        !first.contains(separator),
    ensures
        pieces(first + seq![separator] + rest, separator).len() >= 2,
        pieces(first + seq![separator] + rest, separator)[0] == first,
    decreases rest.len(),
{
    let whole = first + seq![separator] + rest;
    if rest.len() == 0 {
        assert(rest =~= Seq::empty());
        assert(!rest.contains(separator));
        lemma_pieces_append(first, rest, separator);
        lemma_pieces_single(first, separator);
    } else {
        lemma_first_piece(first, rest.drop_last(), separator);
        assert(whole.drop_last() =~= first + seq![separator] + rest.drop_last());
    }
}

} // verus!
