//! Reading request headers.

use hyper::header::{HeaderMap, HeaderValue, ToStrError};
use vstd::prelude::*;

verus! {

/// The header table of a request, as the `http` crate keeps it.
#[verifier::external_type_specification]
#[verifier::external_body]
#[verifier::reject_recursive_types(T)]
pub struct ExHeaderMap<T>(HeaderMap<T>);

/// One header value: a string of bytes.
#[verifier::external_type_specification]
#[verifier::external_body]
pub struct ExHeaderValue(HeaderValue);

/// The error for a header value that is not plain text.
#[verifier::external_type_specification]
#[verifier::external_body]
pub struct ExToStrError(ToStrError);

/// What a header table holds: for each header name, in lower case, the bytes of the first value
/// stored under it.
pub uninterp spec fn header_table(headers: HeaderMap<HeaderValue>) -> Map<Seq<char>, Seq<u8>>;

/// What a header value holds: its bytes.
pub uninterp spec fn header_bytes(value: HeaderValue) -> Seq<u8>;

/// The lower-case form of an ASCII capital letter; any other character stays as it is.
pub open spec fn lower(c: char) -> char {
    if 'A' <= c <= 'Z' {
        (c as u32 + 32) as char
    } else {
        c
    }
}

/// `name` with its ASCII capital letters in lower case.
pub open spec fn lower_case(name: Seq<char>) -> Seq<char> {
    name.map_values(|c: char| lower(c))
}

/// Whether a byte is a visible ASCII character, a space or a tab.
pub open spec fn is_visible(b: u8) -> bool {
    32 <= b < 127 || b == 9
}

/// Whether all the bytes of a header value are visible ASCII characters, spaces or tabs.
pub open spec fn all_visible(bytes: Seq<u8>) -> bool {
    forall|i: int| 0 <= i < bytes.len() ==> is_visible(#[trigger] bytes[i])
}

/// `HeaderMap::get`: looks up the first value of a header.
///
/// Trusted: names are compared without regard to the case of ASCII letters, and a value is found
/// exactly where one is stored under the name.
#[verifier::external_body]
fn first_header<'a>(headers: &'a HeaderMap<HeaderValue>, name: &str) -> (value: Option<
    &'a HeaderValue,
>)
    ensures
        value is Some <==> header_table(*headers).contains_key(lower_case(name@)),
        value matches Some(v) ==> header_bytes(*v) == header_table(*headers)[lower_case(name@)],
{
    headers.get(name)
}

/// `HeaderValue::to_str`: reads a header value as text.
///
/// Trusted: it succeeds exactly where all the bytes are visible ASCII characters, spaces or tabs,
/// and each character of the text is then the byte at its place.
pub assume_specification[ HeaderValue::to_str ](value: &HeaderValue) -> (text: Result<
    &str,
    ToStrError,
>)
    ensures
        text is Ok <==> all_visible(header_bytes(*value)),
        text matches Ok(t) ==> t@ == header_bytes(*value).map_values(|b: u8| b as char),
;

/// A header, as far as it can be read as text.
pub enum HeaderText {
    /// The request has no such header.
    Missing,
    /// The header's value is not plain text.
    NotText,
    /// The header's value.
    Text(String),
}

/// The model of a [`HeaderText`].
pub enum HeaderTextView {
    Missing,
    NotText,
    Text(Seq<char>),
}

impl View for HeaderText {
    type V = HeaderTextView;

    open spec fn view(&self) -> HeaderTextView {
        match self {
            HeaderText::Missing => HeaderTextView::Missing,
            HeaderText::NotText => HeaderTextView::NotText,
            HeaderText::Text(text) => HeaderTextView::Text(text@),
        }
    }
}

/// The header stored under `name`, which is in lower case.
pub open spec fn header_text(table: Map<Seq<char>, Seq<u8>>, name: Seq<char>) -> HeaderTextView {
    if !table.contains_key(name) {
        HeaderTextView::Missing
    } else if !all_visible(table[name]) {
        HeaderTextView::NotText
    } else {
        HeaderTextView::Text(table[name].map_values(|b: u8| b as char))
    }
}

/// Reads the first value of the header `name`.
pub fn read_header(headers: &HeaderMap<HeaderValue>, name: &str) -> (text: HeaderText)
    ensures
        text@ == header_text(header_table(*headers), lower_case(name@)),
        text is Missing <==> !header_table(*headers).contains_key(lower_case(name@)),
        text is Text <==> header_table(*headers).contains_key(lower_case(name@)) && (forall|i: int|
            0 <= i < header_table(*headers)[lower_case(name@)].len() ==> {
                let b = #[trigger] header_table(*headers)[lower_case(name@)][i];
                32 <= b < 127 || b == 9
            }),
        text matches HeaderText::Text(t) ==> {
            let bytes = header_table(*headers)[lower_case(name@)];
            &&& t@.len() == bytes.len()
            &&& forall|i: int| 0 <= i < bytes.len() ==> #[trigger] t@[i] == bytes[i] as char
        },
{
    match first_header(headers, name) {
        Some(value) => match value.to_str() {
            Ok(text) => HeaderText::Text(text.to_owned()),
            Err(_) => HeaderText::NotText,
        },
        None => HeaderText::Missing,
    }
}

/// The names of the headers that a GitHub webhook carries, in lower case.
pub proof fn lemma_webhook_header_names()
    ensures
        lower_case("X-GitHub-Event"@) == "x-github-event"@,
        lower_case("X-Hub-Signature-256"@) == "x-hub-signature-256"@,
{
    reveal_strlit("X-GitHub-Event");
    reveal_strlit("x-github-event");
    reveal_strlit("X-Hub-Signature-256");
    reveal_strlit("x-hub-signature-256");
    assert(lower_case("X-GitHub-Event"@) =~= "x-github-event"@);
    assert(lower_case("X-Hub-Signature-256"@) =~= "x-hub-signature-256"@);
}

} // verus!
