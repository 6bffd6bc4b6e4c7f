//! Reading a page's JSON document back out of its HTML: from the hidden
//! span, from an older script, or from the HTML of the old page form.
use vstd::prelude::*;
use vstd::utf8::{valid_utf8, decode_utf8, encode_utf8};
use crate::dom::{DomNode, DomV, children_of, first_match_spec, ptn_view, child_match_first, lemma_forest_view, forest_view, lemma_first_match_matches};
use crate::json_value::{Json, JsonV, json_parse, json_parse_result};
use crate::regex_calls::{regex_captures, regex_captures_result};
use crate::http::string_from_utf8;

verus! {

/// The page's document as JSON text inside a script: `page_json = {...}`.
pub const SCRIPT_JSON_PATTERN: &'static str = r"(?s)\s*page_json\s*=\s*(\{.+\})\s*$";

pub open spec fn span_ptn() -> Seq<(Seq<char>, Seq<char>)> {
    seq![("id"@, "page_json_str"@)]
}

pub open spec fn script_ptn() -> Seq<(Seq<char>, Seq<char>)> {
    seq![("type"@, "text/javascript"@)]
}

pub open spec fn page_top_ptn() -> Seq<(Seq<char>, Seq<char>)> {
    seq![("id"@, "page_top_node"@)]
}

/// The span that holds a page's document: `<span id="page_json_str">`.
pub fn get_span_json(page_node: &DomNode) -> (res: Option<&DomNode>)
    ensures
        match res {
            Some(d) => first_match_spec(children_of(page_node@), "span"@, span_ptn(), true) == Some(d@),
            None => first_match_spec(children_of(page_node@), "span"@, span_ptn(), true) is None,
        },
{
    let ptn = [("id", "page_json_str")];
    assert(ptn_view(ptn@) =~= span_ptn());
    child_match_first(page_node, "span", &ptn, true)
}

/// The script that may hold a page's document: `<script type="text/javascript">`.
pub fn get_script_json(page_node: &DomNode) -> (res: Option<&DomNode>)
    ensures
        match res {
            Some(d) => first_match_spec(children_of(page_node@), "script"@, script_ptn(), true) == Some(d@),
            None => first_match_spec(children_of(page_node@), "script"@, script_ptn(), true) is None,
        },
{
    let ptn = [("type", "text/javascript")];
    assert(ptn_view(ptn@) =~= script_ptn());
    child_match_first(page_node, "script", &ptn, true)
}

/// The top element of a page in the current form: `<div id="page_top_node">`.
pub fn get_div_page_top(page_node: &DomNode) -> (res: Option<&DomNode>)
    ensures
        match res {
            Some(d) => first_match_spec(children_of(page_node@), "div"@, page_top_ptn(), true) == Some(d@),
            None => first_match_spec(children_of(page_node@), "div"@, page_top_ptn(), true) is None,
        },
{
    let ptn = [("id", "page_top_node")];
    assert(ptn_view(ptn@) =~= page_top_ptn());
    child_match_first(page_node, "div", &ptn, true)
}

/// The document text in the span: its first child, which must be text.
pub open spec fn span_json_str_spec(page: DomV) -> Option<Seq<char>> {
    match first_match_spec(children_of(page), "span"@, span_ptn(), true) {
        None => None,
        Some(span) => {
            let c = children_of(span);
            if c.len() == 0 {
                None
            } else {
                match c[0] {
                    DomV::Text(t) => Some(t),
                    _ => None,
                }
            }
        },
    }
}

/// The document text in the span.
pub fn span_json_str(page_node: &DomNode) -> (res: Option<String>)
    ensures
        match res {
            Some(s) => span_json_str_spec(page_node@) == Some(s@),
            None => span_json_str_spec(page_node@) is None,
        },
{
    let span = get_span_json(page_node)?;
    proof {
        lemma_first_match_matches(children_of(page_node@), "span"@, span_ptn(), true);
    }
    match span {
        DomNode::Element(_, _, c, _) => {
            proof {
                lemma_forest_view(c@);
            }
            if c.len() == 0 {
                return None;
            }
            match &c[0] {
                DomNode::Text(t) => Some(t.clone()),
                _ => None,
            }
        },
        _ => None,
    }
}

/// The page's document read from the span.
pub open spec fn json_from_dom_span_spec(page: DomV) -> Option<JsonV> {
    match span_json_str_spec(page) {
        Some(s) => json_parse_result(s),
        None => None,
    }
}

/// Reads the page's document from the span.
pub fn json_from_dom_span(page_node: &DomNode) -> (res: Option<Json>)
    ensures
        match res {
            Some(j) => json_from_dom_span_spec(page_node@) == Some(j@),
            None => json_from_dom_span_spec(page_node@) is None,
        },
{
    let text = span_json_str(page_node)?;
    json_parse(text.as_str())
}

/// The document text of one text of the script: the object assigned to
/// `page_json`, when the text is such an assignment.
pub open spec fn script_text_json(t: Seq<char>) -> Option<Seq<char>> {
    let b = encode_utf8(t);
    match regex_captures_result(SCRIPT_JSON_PATTERN@, b) {
        Some(g) => {
            if g.len() > 1 {
                match g[1] {
                    Some((s, e)) => {
                        if s <= e <= b.len() && valid_utf8(b.subrange(s as int, e as int)) {
                            Some(decode_utf8(b.subrange(s as int, e as int)))
                        } else {
                            None
                        }
                    },
                    None => None,
                }
            } else {
                None
            }
        },
        None => None,
    }
}

/// The first document text among the texts of the script's children.
pub open spec fn script_children_json(c: Seq<DomV>) -> Option<Seq<char>>
    decreases c.len(),
{
    if c.len() == 0 {
        None
    } else {
        let here = match c[0] {
            DomV::Text(t) => script_text_json(t),
            _ => None,
        };
        if here is Some { here } else { script_children_json(c.drop_first()) }
    }
}

/// The document text in the script.
pub open spec fn script_json_str_spec(page: DomV) -> Option<Seq<char>> {
    match first_match_spec(children_of(page), "script"@, script_ptn(), true) {
        None => None,
        Some(script) => script_children_json(children_of(script)),
    }
}

fn script_text_json_exec(t: &String) -> (res: Option<String>)
    ensures
        match res {
            Some(s) => script_text_json(t@) == Some(s@),
            None => script_text_json(t@) is None,
        },
{
    let b = t.as_str().as_bytes();
    let groups = regex_captures(SCRIPT_JSON_PATTERN, b)?;
    if groups.len() <= 1 {
        return None;
    }
    let (s, e) = groups[1]?;
    assert(groups@[1] matches Some((x, y)) ==> x <= y <= b@.len());
    string_from_utf8(&b[s..e])
}

/// The document text in the script.
pub fn script_json_str(page_node: &DomNode) -> (res: Option<String>)
    ensures
        match res {
            Some(s) => script_json_str_spec(page_node@) == Some(s@),
            None => script_json_str_spec(page_node@) is None,
        },
{
    let script = get_script_json(page_node)?;
    proof {
        lemma_first_match_matches(children_of(page_node@), "script"@, script_ptn(), true);
    }
    let c = match script {
        DomNode::Element(_, _, c, _) => c,
        _ => return None,
    };
    let ghost cv = forest_view(c@);
    proof {
        lemma_forest_view(c@);
    }
    let n = c.len();
    assert(cv.subrange(0, n as int) =~= cv);
    for i in 0..n
        invariant
            n == c@.len(),
            cv == forest_view(c@),
            cv.len() == n,
            forall|x: int| 0 <= x < n ==> #[trigger] cv[x] == c@[x]@,
            script_children_json(cv) == script_children_json(cv.subrange(i as int, n as int)),
            script_json_str_spec(page_node@) == script_children_json(cv),
    {
        assert(cv.subrange(i as int, n as int)[0] == cv[i as int]);
        assert(cv.subrange(i as int, n as int).drop_first() =~= cv.subrange(i + 1, n as int));
        if let DomNode::Text(t) = &c[i] {
            if let Some(s) = script_text_json_exec(t) {
                return Some(s);
            }
        }
    }
    None
}

/// The page's document read from the script.
pub open spec fn json_from_dom_script_spec(page: DomV) -> Option<JsonV> {
    match script_json_str_spec(page) {
        Some(s) => json_parse_result(s),
        None => None,
    }
}

/// Reads the page's document from the script.
pub fn json_from_dom_script(page_node: &DomNode) -> (res: Option<Json>)
    ensures
        match res {
            Some(j) => json_from_dom_script_spec(page_node@) == Some(j@),
            None => json_from_dom_script_spec(page_node@) is None,
        },
{
    let text = script_json_str(page_node)?;
    json_parse(text.as_str())
}

} // verus!
