use vstd::prelude::*;

verus! {

// The selector engine and the HTML parser live in the scraper crate. Their
// behaviour is deterministic in their text arguments, so each result below
// is given a name, and the wrappers' contracts speak of those names; all of
// the library's extraction logic is verified against them.
/// Whether `pattern` is a well-formed CSS selector group.
pub uninterp spec fn sel_ok(pattern: Seq<char>) -> bool;

/// The normalized descendant texts of the nodes `pattern` matches in
/// `html`, in match order: each entry is the node's descendant text joined
/// by single spaces and trimmed, possibly empty.
pub uninterp spec fn texts_of(html: Seq<char>, pattern: Seq<char>) -> Seq<Seq<char>>;

/// The value of attribute `name` on the first node `pattern` matches in
/// `html`, when that node exists and carries the attribute.
pub uninterp spec fn first_attr_of(html: Seq<char>, pattern: Seq<char>, name: Seq<char>) -> Option<
    Seq<char>,
>;

/// The serialized HTML of each node `pattern` matches in `html`, in match
/// order.
pub uninterp spec fn fragments_of(html: Seq<char>, pattern: Seq<char>) -> Seq<Seq<char>>;

/// Relies on scraper::Selector::parse: whether a pattern text is accepted
/// as a CSS selector depends on that text alone.
#[verifier::external_body]
pub(crate) fn selector_ok(pattern: &str) -> (r: bool)
    ensures
        r == sel_ok(pattern@),
{
    scraper::Selector::parse(pattern).is_ok()
}

/// Relies on scraper: parse the document, walk the nodes the selector
/// matches in order, and hand back each node's descendant text joined by
/// single spaces and trimmed.
#[verifier::external_body]
pub(crate) fn match_texts(html: &str, pattern: &str) -> (r: Vec<String>)
    requires
        sel_ok(pattern@),
    ensures
        r.deep_view() == texts_of(html@, pattern@),
{
    let sel = scraper::Selector::parse(pattern).unwrap();
    let doc = scraper::Html::parse_document(html);
    let mut out = Vec::new();
    for el in doc.select(&sel) {
        let pieces: Vec<&str> = el.text().collect();
        out.push(pieces.join(" ").trim().to_string());
    }
    out
}

/// Relies on scraper: the value of the named attribute on the first node
/// the selector matches, if that node exists and carries it.
#[verifier::external_body]
pub(crate) fn first_match_attr(html: &str, pattern: &str, name: &str) -> (r: Option<String>)
    requires
        sel_ok(pattern@),
    ensures
        r.deep_view() == first_attr_of(html@, pattern@, name@),
{
    let sel = scraper::Selector::parse(pattern).unwrap();
    let doc = scraper::Html::parse_document(html);
    match doc.select(&sel).next() {
        Some(el) => match el.attr(name) {
            Some(a) => Some(a.to_string()),
            None => None,
        },
        None => None,
    }
}

/// Relies on scraper: the serialized HTML of each node the selector
/// matches, in match order, so that repeating sub-entities can be parsed
/// one scoped fragment at a time.
#[verifier::external_body]
pub(crate) fn match_fragments(html: &str, pattern: &str) -> (r: Vec<String>)
    requires
        sel_ok(pattern@),
    ensures
        r.deep_view() == fragments_of(html@, pattern@),
{
    let sel = scraper::Selector::parse(pattern).unwrap();
    let doc = scraper::Html::parse_document(html);
    let mut out = Vec::new();
    for el in doc.select(&sel) {
        out.push(el.html());
    }
    out
}

} // verus!
