//! Text of a fetched web page.

use vstd::prelude::*;
use crate::text::join;

verus! {

/// The text nodes under the `<body>` elements of `html`, in document order,
/// as the `scraper` crate parses the document.
pub uninterp spec fn body_text_nodes_of(html: Seq<char>) -> Seq<Seq<char>>;

/// `scraper`: `Html::parse_document`, then the text nodes (`ElementRef::text`)
/// of every element that the selector `body` matches. The parse is
/// HTML5-conformant and takes pages to describe, so its result is named,
/// not spelled out.
#[verifier::external_body]
fn body_text_nodes(html: &str) -> (res: Vec<String>)
    ensures
        res.deep_view() == body_text_nodes_of(html@),
{
    let doc = scraper::Html::parse_document(html);
    let body = scraper::Selector::parse("body").unwrap();
    let mut out = Vec::new();
    for element in doc.select(&body) {
        for text in element.text() {
            out.push(text.to_string());
        }
    }
    out
}

/// The texts of `parts` joined by single spaces (`Vec::join(" ")`).
pub fn join_with_spaces(parts: &Vec<String>) -> (res: String)
    ensures
        res@ == join(parts.deep_view(), seq![' ']),
{
    let ghost list = parts.deep_view();
    let mut out = String::new();
    let n = parts.len();
    for i in 0..n
        invariant
            n == parts.len(),
            list == parts.deep_view(),
            out@ == join(list.take(i as int), seq![' ']),
    {
        assert(list.take(i + 1).drop_last() == list.take(i as int));
        assert(list[i as int] == parts[i as int]@);
        if i > 0 {
            out.append(" ");
            assert(" "@ == seq![' ']) by {
                reveal_strlit(" ");
            }
        }
        out.append(parts[i].as_str());
    }
    assert(list.take(n as int) == list);
    out
}

/// The visible text of an HTML page: the text nodes of its body joined by spaces.
pub fn page_text(html: &str) -> (res: String)
    ensures
        res@ == join(body_text_nodes_of(html@), seq![' ']),
{
    let parts = body_text_nodes(html);
    join_with_spaces(&parts)
}

} // verus!
