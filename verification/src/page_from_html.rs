//! Making the JSON document of a page in the old form from its HTML: the
//! title, the navigation, the list of subsections and their contents.
use vstd::prelude::*;
use vstd::utf8::{valid_utf8, decode_utf8};
use crate::dom::{DomNode, DomV, children_of, first_attr, first_attr_exec, first_match_spec, all_matches_spec, ptn_view,
    child_match_first, child_match_list, forest_view, lemma_forest_view, html_serialize, html_serialize_result,
    dom_size, lemma_children_smaller, lemma_first_match_size, lemma_all_matches_size,
    lemma_first_match_matches, no_docs, node_ok, no_inner_docs, lemma_no_docs_all, lemma_first_match_ok,
    lemma_all_matches_ok};
use crate::json_value::{Json, JsonV, jv_get_path, jv_set_path, jv_string, strs_view, entry_push, entries_view, lemma_entries_view_empty};
use crate::page_json::{PageJson, Subsection, page_json_plain, page_json_plain_spec, pj_subsection_new, pj_subsection_by_name,
    subsection_path, contents_pushed, contents_ensured};
use crate::page_child::{navi_path, title_path};
use crate::page_move::jv_push_all;
use crate::http::string_from_utf8;
use crate::strings::{escape_angles, escape_angles_str};
use crate::page_from_dom::{json_from_dom_span, json_from_dom_span_spec, json_from_dom_script, json_from_dom_script_spec};

verus! {

/// The text of the first text node among the nodes.
pub open spec fn first_text_spec(c: Seq<DomV>) -> Option<Seq<char>>
    decreases c.len(),
{
    if c.len() == 0 {
        None
    } else {
        match c[0] {
            DomV::Text(t) => Some(t),
            _ => first_text_spec(c.drop_first()),
        }
    }
}

/// The text of the first text node among the nodes.
pub fn first_text(c: &Vec<DomNode>) -> (res: Option<&String>)
    ensures
        match res {
            Some(t) => first_text_spec(forest_view(c@)) == Some(t@),
            None => first_text_spec(forest_view(c@)) is None,
        },
{
    let ghost cv = forest_view(c@);
    proof {
        lemma_forest_view(c@);
    }
    let n = c.len();
    assert(cv.subrange(0, n as int) =~= cv);
    for i in 0..n
        invariant
            n == c@.len(),
            cv == forest_view(c@),
            cv.len() == n,
            forall|x: int| 0 <= x < n ==> #[trigger] cv[x] == c@[x]@,
            first_text_spec(cv) == first_text_spec(cv.subrange(i as int, n as int)),
    {
        assert(cv.subrange(i as int, n as int)[0] == cv[i as int]);
        assert(cv.subrange(i as int, n as int).drop_first() =~= cv.subrange(i + 1, n as int));
        if let DomNode::Text(t) = &c[i] {
            return Some(t);
        }
    }
    None
}

/// The href (empty when there is none) and the first text (empty when there
/// is none) of an anchor.
pub open spec fn a_href_title_spec(a: DomV) -> (Seq<char>, Seq<char>) {
    let href = match a {
        DomV::Element(_, attrs, _, _) => match first_attr(attrs, "href"@) {
            Some(h) => h,
            None => Seq::empty(),
        },
        _ => Seq::empty(),
    };
    let title = match first_text_spec(children_of(a)) {
        Some(t) => t,
        None => Seq::empty(),
    };
    (href, title)
}

/// The href and the text of an anchor.
pub fn a_node_href_title(a_node: &DomNode) -> (res: (String, String))
    ensures
        (res.0@, res.1@) == a_href_title_spec(a_node@),
{
    let href = match a_node {
        DomNode::Element(_, attrs, _, _) => match first_attr_exec(attrs, "href") {
            Some(h) => h.clone(),
            None => String::new(),
        },
        _ => String::new(),
    };
    let title = match a_node {
        DomNode::Document(c) | DomNode::Element(_, _, c, _) => match first_text(c) {
            Some(t) => t.clone(),
            None => String::new(),
        },
        _ => String::new(),
    };
    (href, title)
}

pub open spec fn no_attrs() -> Seq<(Seq<char>, Seq<char>)> {
    Seq::empty()
}

pub open spec fn navi_base_ptn() -> Seq<(Seq<char>, Seq<char>)> {
    seq![("class"@, "naviBase"@)]
}

/// The document with the page's title from `<title>`: refused without a
/// title element; kept when the element holds no text.
pub open spec fn html_title_spec(page: DomV, j: JsonV) -> Option<JsonV> {
    match first_match_spec(children_of(page), "title"@, no_attrs(), true) {
        None => None,
        Some(t) => match first_text_spec(children_of(t)) {
            Some(text) => Some(jv_set_path(j, title_path(), jv_string(text))),
            None => Some(j),
        },
    }
}

/// Sets the page's title from `<title>`.
pub fn json_html_title(page_node: &DomNode, page_json: &mut Json) -> (res: Option<()>)
    ensures
        match html_title_spec(page_node@, old(page_json)@) {
            Some(j) => res is Some && final(page_json)@ == j,
            None => res is None,
        },
{
    let ptn: [(&str, &str); 0] = [];
    assert(ptn_view(ptn@) =~= no_attrs());
    let title_node = child_match_first(page_node, "title", &ptn, true)?;
    proof {
        lemma_first_match_matches(children_of(page_node@), "title"@, no_attrs(), true);
    }
    let c = match title_node {
        DomNode::Element(_, _, c, _) => c,
        _ => return Some(()),
    };
    if let Some(text) = first_text(c) {
        let keys = ["data", "page", "title"];
        assert(strs_view(keys@) =~= title_path());
        page_json.set_path(&keys, Json::string(text.as_str()));
    }
    Some(())
}

/// A navigation entry made from an anchor: `[text, href]`.
pub open spec fn navi_entry(a: DomV) -> JsonV {
    let (href, title) = a_href_title_spec(a);
    JsonV::Array(seq![JsonV::Str(title), JsonV::Str(href)])
}

/// The document with the navigation made from the anchors under
/// `<div class="naviBase">`; refused without that element.
pub open spec fn html_navi_spec(page: DomV, j: JsonV) -> Option<JsonV> {
    match first_match_spec(children_of(page), "div"@, navi_base_ptn(), true) {
        None => None,
        Some(div) => {
            let anchors = all_matches_spec(children_of(div), "a"@, no_attrs(), true);
            Some(jv_set_path(j, navi_path(), jv_push_all(jv_get_path(j, navi_path()), anchors.map_values(|a: DomV| navi_entry(a)))))
        },
    }
}

/// Sets the page's navigation from the anchors of its navigation bar.
pub fn json_html_navi(page_node: &DomNode, page_json: &mut Json) -> (res: Option<()>)
    ensures
        match html_navi_spec(page_node@, old(page_json)@) {
            Some(j) => res is Some && final(page_json)@ == j,
            None => res is None,
        },
{
    let ptn = [("class", "naviBase")];
    assert(ptn_view(ptn@) =~= navi_base_ptn());
    let div = child_match_first(page_node, "div", &ptn, true)?;
    let none: [(&str, &str); 0] = [];
    assert(ptn_view(none@) =~= no_attrs());
    let a_list = child_match_list(div, "a", &none, true, false);
    let ghost av = a_list@.map_values(|d: &DomNode| d@);
    let keys = ["data", "navi"];
    assert(strs_view(keys@) =~= navi_path());
    let ghost j0 = page_json@;
    let mut navi = page_json.take_path(&keys);
    let ghost n0 = navi@;
    let n = a_list.len();
    for i in 0..n
        invariant
            n == a_list@.len(),
            av == a_list@.map_values(|d: &DomNode| d@),
            navi@ == jv_push_all(n0, av.take(i as int).map_values(|a: DomV| navi_entry(a))),
    {
        let (href, title) = a_node_href_title(a_list[i]);
        let mut entry = Json::new_array();
        entry.push(Json::Str(title));
        entry.push(Json::Str(href));
        assert(entry@->Array_0 =~= navi_entry(av[i as int])->Array_0);
        let ghost before = navi@;
        navi.push(entry);
        proof {
            assert(av.take(i + 1).map_values(|a: DomV| navi_entry(a)) =~= av.take(i as int).map_values(|a: DomV| navi_entry(a)).push(navi_entry(av[i as int])));
            match n0 {
                JsonV::Array(v) => {
                    assert(v + av.take(i + 1).map_values(|a: DomV| navi_entry(a)) =~= (v + av.take(i as int).map_values(|a: DomV| navi_entry(a))).push(navi_entry(av[i as int])));
                },
                _ => {},
            }
        }
    }
    assert(av.take(n as int) =~= av);
    let ghost n1 = navi@;
    page_json.set_path(&keys, navi);
    proof {
        crate::json_value::lemma_set_path_twice(j0, navi_path(), JsonV::Null, n1);
    }
    Some(())
}

/// The first text of an anchor, empty when it has none.
pub open spec fn anchor_text(a: DomV) -> Seq<char> {
    match first_text_spec(children_of(a)) {
        Some(t) => t,
        None => Seq::empty(),
    }
}

/// The `href` attribute of an anchor, empty when it has none.
pub open spec fn anchor_href(a: DomV) -> Seq<char> {
    match a {
        DomV::Element(_, attrs, _, _) => match first_attr(attrs, "href"@) {
            Some(h) => h,
            None => Seq::empty(),
        },
        _ => Seq::empty(),
    }
}

/// Reading the navigation bar of an old-form page keeps the navigation
/// entries already there and adds one entry per anchor of the bar, in
/// document order; the entry of an anchor is a pair whose first item is
/// the anchor's text and whose second item is its `href`.
pub proof fn law_navi_entries_text_then_href(page: DomV, j: JsonV)
    requires
        html_navi_spec(page, j) is Some,
        jv_get_path(j, navi_path()) is Array,
    ensures
        ({
            let div = first_match_spec(children_of(page), "div"@, navi_base_ptn(), true)->Some_0;
            let anchors = all_matches_spec(children_of(div), "a"@, no_attrs(), true);
            let before = jv_get_path(j, navi_path())->Array_0;
            let after = jv_get_path(html_navi_spec(page, j)->Some_0, navi_path());
            &&& after is Array
            &&& after->Array_0.len() == before.len() + anchors.len()
            &&& forall|k: int| 0 <= k < before.len() ==> #[trigger] after->Array_0[k] == before[k]
            &&& forall|i: int| 0 <= i < anchors.len() ==> {
                let e = #[trigger] after->Array_0[before.len() + i];
                &&& e is Array
                &&& e->Array_0.len() == 2
                &&& crate::json_value::jv_at(e, 0) == JsonV::Str(anchor_text(anchors[i]))
                &&& crate::json_value::jv_at(e, 1) == JsonV::Str(anchor_href(anchors[i]))
            }
        }),
{
    let div = first_match_spec(children_of(page), "div"@, navi_base_ptn(), true)->Some_0;
    let anchors = all_matches_spec(children_of(div), "a"@, no_attrs(), true);
    let before = jv_get_path(j, navi_path())->Array_0;
    let added = anchors.map_values(|a: DomV| navi_entry(a));
    let v = jv_push_all(jv_get_path(j, navi_path()), added);
    crate::json_value::lemma_get_set_path(j, navi_path(), v);
    assert(v == JsonV::Array(before + added));
    assert forall|i: int| 0 <= i < anchors.len() implies {
        let e = #[trigger] (before + added)[before.len() + i];
        &&& e is Array
        &&& e->Array_0.len() == 2
        &&& crate::json_value::jv_at(e, 0) == JsonV::Str(anchor_text(anchors[i]))
        &&& crate::json_value::jv_at(e, 1) == JsonV::Str(anchor_href(anchors[i]))
    } by {
        assert((before + added)[before.len() + i] == added[i]);
    }
}

/// A field of subsection `id` set to a string, when there is a document.
pub open spec fn field_set_spec(o: Option<JsonV>, id: nat, field: Seq<char>, text: Seq<char>) -> Option<JsonV> {
    match o {
        Some(j) => Some(jv_set_path(j, subsection_path(id).push(field), jv_string(text))),
        None => None,
    }
}

/// A list item of the subsection list: its first anchor (a direct child)
/// with an href other than empty or `#` makes a new subsection under
/// `parent_id`, titled with the anchor's text.
pub open spec fn li_spec(li: DomV, parent_id: usize, o: Option<JsonV>) -> (Option<JsonV>, Option<nat>) {
    match first_match_spec(children_of(li), "a"@, no_attrs(), false) {
        None => (o, None),
        Some(a) => {
            let (href, title) = a_href_title_spec(a);
            if href.len() == 0 || href == "#"@ {
                (o, None)
            } else {
                let (o1, id) = pj_subsection_new(o, parent_id);
                match id {
                    None => (o1, None),
                    Some(id) => (field_set_spec(field_set_spec(o1, id, "title"@, title), id, "href"@, href), Some(id)),
                }
            }
        },
    }
}

/// Adds the subsection of a list item.
pub fn json_html_li(li_node: &DomNode, parent_id: usize, page_json: &mut PageJson) -> (res: Option<usize>)
    ensures
        (final(page_json)@, match res {
            Some(i) => Some(i as nat),
            None => None::<nat>,
        }) == li_spec(li_node@, parent_id, old(page_json)@),
{
    let none: [(&str, &str); 0] = [];
    assert(ptn_view(none@) =~= no_attrs());
    let a_node = child_match_first(li_node, "a", &none, false)?;
    let (href, title) = a_node_href_title(a_node);
    if href.as_str().unicode_len() == 0 || href == "#".to_owned() {
        return None;
    }
    let subsection = page_json.subsection_new(parent_id)?;
    subsection.title_set(page_json, title.as_str());
    subsection.href_set(page_json, href.as_str());
    Some(subsection.id())
}

/// The subsections of the first list under `parent` and, under each of
/// their items, of the first list there, and so on.
pub open spec fn ul_spec(parent: DomV, o: Option<JsonV>, parent_id: usize) -> Option<JsonV>
    decreases dom_size(parent), 0int,
{
    match first_match_spec(children_of(parent), "ul"@, no_attrs(), true) {
        None => o,
        Some(ul) => {
            if dom_size(ul) < dom_size(parent) {
                li_fold(all_matches_spec(children_of(ul), "li"@, no_attrs(), false), o, parent_id, dom_size(ul))
            } else {
                o
            }
        },
    }
}

/// The items of a list, in order: each adds its subsection, then the
/// subsections of the list under it.
pub open spec fn li_fold(lis: Seq<DomV>, o: Option<JsonV>, parent_id: usize, bound: nat) -> Option<JsonV>
    decreases bound, lis.len(),
{
    if lis.len() == 0 {
        o
    } else {
        let (o1, id) = li_spec(lis[0], parent_id, o);
        let o2 = match id {
            Some(id) => {
                if dom_size(lis[0]) < bound && id <= usize::MAX {
                    ul_spec(lis[0], o1, id as usize)
                } else {
                    o1
                }
            },
            None => o1,
        };
        li_fold(lis.drop_first(), o2, parent_id, bound)
    }
}

/// The items found under a list are smaller than the list.
proof fn lemma_li_smaller(ul: DomV, i: int)
    requires
        0 <= i < all_matches_spec(children_of(ul), "li"@, no_attrs(), false).len(),
    ensures
        dom_size(all_matches_spec(children_of(ul), "li"@, no_attrs(), false)[i]) < dom_size(ul),
{
    lemma_all_matches_size(children_of(ul), "li"@, no_attrs(), false);
    lemma_children_smaller(ul);
}

/// Adds the subsections of the lists under `parent_node`.
pub fn json_html_ul(parent_node: &DomNode, page_json: &mut PageJson, parent_id: usize)
    ensures
        final(page_json)@ == ul_spec(parent_node@, old(page_json)@, parent_id),
    decreases dom_size(parent_node@),
{
    let none: [(&str, &str); 0] = [];
    assert(ptn_view(none@) =~= no_attrs());
    let ul_node = match child_match_first(parent_node, "ul", &none, true) {
        Some(u) => u,
        None => return,
    };
    proof {
        lemma_first_match_size(children_of(parent_node@), "ul"@, no_attrs(), true);
        lemma_children_smaller(parent_node@);
    }
    let li_list = child_match_list(ul_node, "li", &none, false, false);
    let ghost lv = li_list@.map_values(|d: &DomNode| d@);
    let ghost bound = dom_size(ul_node@);
    let n = li_list.len();
    assert(lv.subrange(0, n as int) =~= lv);
    for i in 0..n
        invariant
            n == li_list@.len(),
            lv == li_list@.map_values(|d: &DomNode| d@),
            lv == all_matches_spec(children_of(ul_node@), "li"@, no_attrs(), false),
            bound == dom_size(ul_node@),
            bound < dom_size(parent_node@),
            ul_spec(parent_node@, old(page_json)@, parent_id) == li_fold(lv.subrange(i as int, n as int), page_json@, parent_id, bound),
    {
        let li = li_list[i];
        let ghost rest = lv.subrange(i as int, n as int);
        assert(rest[0] == li@);
        assert(rest.drop_first() =~= lv.subrange(i + 1, n as int));
        proof {
            lemma_li_smaller(ul_node@, i as int);
        }
        match json_html_li(li, parent_id, page_json) {
            Some(id) => {
                json_html_ul(li, page_json, id);
            },
            None => {},
        }
    }
}

/// The text of serialized HTML, when it is valid UTF-8.
pub open spec fn html_text(node: DomV) -> Seq<char> {
    let b = html_serialize_result(node);
    if valid_utf8(b) { decode_utf8(b) } else { Seq::empty() }
}

/// The HTML of the children of an `htmlContent` item, one after another.
pub open spec fn html_content_text(c: Seq<DomV>) -> Seq<char>
    decreases c.len(),
{
    if c.len() == 0 {
        Seq::empty()
    } else {
        html_content_text(c.drop_last()) + html_text(c.last())
    }
}

/// The text of one child of a text or script item: text as it is, `<br>`
/// as a new line, other elements as nothing, anything else as its HTML with
/// the angle brackets escaped.
pub open spec fn plain_piece(c: DomV) -> Seq<char> {
    match c {
        DomV::Text(t) => t,
        DomV::Element(name, _, _, _) => if name == "br"@ { "\n"@ } else { Seq::empty() },
        _ => escape_angles(html_text(c)),
    }
}

/// The text of the children of a text or script item.
pub open spec fn plain_content_text(c: Seq<DomV>) -> Seq<char>
    decreases c.len(),
{
    if c.len() == 0 {
        Seq::empty()
    } else {
        plain_content_text(c.drop_last()) + plain_piece(c.last())
    }
}

/// The class of a content item (empty when it has none).
pub open spec fn content_class(content: DomV) -> Seq<char> {
    match content {
        DomV::Element(_, attrs, _, _) => match first_attr(attrs, "class"@) {
            Some(c) => c,
            None => Seq::empty(),
        },
        _ => Seq::empty(),
    }
}

/// The item a content node of a subsection makes: `htmlContent` keeps its
/// HTML as text; `textContent` gives text and anything else a script, from
/// its text. A node without children makes none.
pub open spec fn content_item_spec(content: DomV) -> Option<JsonV> {
    let c = children_of(content);
    if c.len() == 0 {
        None
    } else {
        let class = content_class(content);
        if class == "htmlContent"@ {
            Some(JsonV::Object(seq![("type"@, JsonV::Short("text"@)), ("value"@, jv_string(html_content_text(c)))]))
        } else {
            let t = if class == "textContent"@ { "text"@ } else { "script"@ };
            Some(JsonV::Object(seq![("type"@, JsonV::Short(t)), ("value"@, jv_string(plain_content_text(c)))]))
        }
    }
}

/// The document after the item of a content node is added to subsection `id`.
pub open spec fn content_set_spec(o: Option<JsonV>, id: nat, content: DomV) -> Option<JsonV> {
    match (o, content_item_spec(content)) {
        (Some(j), Some(item)) => Some(contents_pushed(j, id, item)),
        _ => o,
    }
}

fn text_of_html(node: &DomNode) -> (res: String)
    requires
        no_inner_docs(node@),
    ensures
        res@ == html_text(node@),
{
    let bytes = html_serialize(node);
    match string_from_utf8(bytes.as_slice()) {
        Some(s) => s,
        None => String::new(),
    }
}

fn content_item(content: &DomNode) -> (res: Option<Json>)
    requires
        no_inner_docs(content@),
    ensures
        match res {
            Some(j) => content_item_spec(content@) == Some(j@),
            None => content_item_spec(content@) is None,
        },
{
    let c = match content {
        DomNode::Document(c) | DomNode::Element(_, _, c, _) => c,
        _ => return None,
    };
    let ghost cv = forest_view(c@);
    proof {
        lemma_forest_view(c@);
        lemma_no_docs_all(cv);
    }
    if c.len() == 0 {
        return None;
    }
    let class = match content {
        DomNode::Element(_, attrs, _, _) => match first_attr_exec(attrs, "class") {
            Some(v) => v.clone(),
            None => String::new(),
        },
        _ => String::new(),
    };
    let n = c.len();
    let mut text = String::new();
    proof {
        lemma_entries_view_empty();
    }
    if class == "htmlContent".to_owned() {
        for i in 0..n
            invariant
                n == c@.len(),
                cv == forest_view(c@),
                cv.len() == n,
                forall|x: int| 0 <= x < n ==> #[trigger] cv[x] == c@[x]@,
                forall|x: int| 0 <= x < n ==> #[trigger] node_ok(cv[x]),
                text@ == html_content_text(cv.take(i as int)),
        {
            assert(node_ok(cv[i as int]));
            assert(cv.take(i + 1).drop_last() =~= cv.take(i as int));
            let piece = text_of_html(&c[i]);
            text.append(piece.as_str());
        }
        assert(cv.take(n as int) =~= cv);
        let mut fields: Vec<(String, Json)> = Vec::new();
        entry_push(&mut fields, "type", Json::Short("text".to_owned()));
        entry_push(&mut fields, "value", Json::string(text.as_str()));
        assert(entries_view(fields@) =~= content_item_spec(content@).unwrap()->Object_0);
        return Some(Json::Object(fields));
    }
    for i in 0..n
        invariant
            n == c@.len(),
            cv == forest_view(c@),
            cv.len() == n,
            forall|x: int| 0 <= x < n ==> #[trigger] cv[x] == c@[x]@,
            forall|x: int| 0 <= x < n ==> #[trigger] node_ok(cv[x]),
            text@ == plain_content_text(cv.take(i as int)),
    {
        assert(node_ok(cv[i as int]));
        assert(cv.take(i + 1).drop_last() =~= cv.take(i as int));
        let child = &c[i];
        match child {
            DomNode::Text(t) => {
                text.append(t.as_str());
            },
            DomNode::Element(name, _, _, _) => {
                if *name == "br".to_owned() {
                    text.append("\n");
                }
            },
            _ => {
                let html = text_of_html(child);
                let escaped = escape_angles_str(html.as_str());
                text.append(escaped.as_str());
            },
        }
    }
    assert(cv.take(n as int) =~= cv);
    let t = if class == "textContent".to_owned() { "text" } else { "script" };
    let mut fields: Vec<(String, Json)> = Vec::new();
    entry_push(&mut fields, "type", Json::Short(t.to_owned()));
    entry_push(&mut fields, "value", Json::string(text.as_str()));
    assert(entries_view(fields@) =~= content_item_spec(content@).unwrap()->Object_0);
    Some(Json::Object(fields))
}

/// Adds the item of a content node to the subsection.
pub fn subsection_content_set(subsection: &Subsection, page_json: &mut PageJson, content: &DomNode)
    requires
        no_inner_docs(content@),
    ensures
        final(page_json)@ == content_set_spec(old(page_json)@, subsection.id as nat, content@),
{
    match content_item(content) {
        Some(item) => {
            if page_json.value().is_some() {
                subsection.contents_push(page_json, item);
            }
        },
        None => {},
    }
}

/// The name of a subsection node: its `id` attribute.
pub open spec fn subsection_name_spec(node: DomV) -> Option<Seq<char>> {
    match node {
        DomV::Element(_, attrs, _, _) => first_attr(attrs, "id"@),
        _ => None,
    }
}

/// The name of a subsection node.
pub fn subsection_name(node: &DomNode) -> (res: Option<String>)
    ensures
        match res {
            Some(n) => subsection_name_spec(node@) == Some(n@),
            None => subsection_name_spec(node@) is None,
        },
{
    match node {
        DomNode::Element(_, attrs, _, _) => match first_attr_exec(attrs, "id") {
            Some(v) => Some(v.clone()),
            None => None,
        },
        _ => None,
    }
}

pub open spec fn subsection_title_ptn() -> Seq<(Seq<char>, Seq<char>)> {
    seq![("class"@, "subsectionTitle"@)]
}

pub open spec fn subsection_content_ptn() -> Seq<(Seq<char>, Seq<char>)> {
    seq![("class"@, "subsectionContent"@)]
}

pub open spec fn subsection_ptn() -> Seq<(Seq<char>, Seq<char>)> {
    seq![("class"@, "subsection"@)]
}

/// A subsection found only in the body: a new subsection under the root,
/// named `name` and titled with the text of its title element.
pub open spec fn by_node_spec(node: DomV, o: Option<JsonV>, name: Seq<char>) -> (Option<JsonV>, Option<nat>) {
    let (o1, id) = pj_subsection_new(o, 0);
    match id {
        None => (o1, None),
        Some(id) => {
            let title = match first_match_spec(children_of(node), "div"@, subsection_title_ptn(), true) {
                Some(d) => match first_text_spec(children_of(d)) {
                    Some(t) => t,
                    None => Seq::empty(),
                },
                None => Seq::empty(),
            };
            (field_set_spec(field_set_spec(o1, id, "href"@, name), id, "title"@, title), Some(id))
        },
    }
}

/// Adds a subsection found only in the body.
pub fn subsection_by_subsection_node(subsection_node: &DomNode, page_json: &mut PageJson, name: &str) -> (res: Option<Subsection>)
    ensures
        (final(page_json)@, match res {
            Some(s) => Some(s.id as nat),
            None => None::<nat>,
        }) == by_node_spec(subsection_node@, old(page_json)@, name@),
{
    let subsection = page_json.subsection_new(0)?;
    let ptn = [("class", "subsectionTitle")];
    assert(ptn_view(ptn@) =~= subsection_title_ptn());
    let title = match child_match_first(subsection_node, "div", &ptn, true) {
        Some(div) => match div {
            DomNode::Document(c) | DomNode::Element(_, _, c, _) => match first_text(c) {
                Some(t) => t.clone(),
                None => String::new(),
            },
            _ => String::new(),
        },
        None => String::new(),
    };
    subsection.href_set(page_json, name);
    subsection.title_set(page_json, title.as_str());
    Some(subsection)
}

/// The content nodes of a subsection, in order, each adding its item.
pub open spec fn contents_fold(c: Seq<DomV>, o: Option<JsonV>, id: nat) -> Option<JsonV>
    decreases c.len(),
{
    if c.len() == 0 {
        o
    } else {
        content_set_spec(contents_fold(c.drop_last(), o, id), id, c.last())
    }
}

/// A subsection of the body: by its name (`#` and its id) it is found among
/// the subsections of the list, or added; then its content element's
/// children become its items. Nothing happens for a node without a name,
/// with an empty one, or for the template.
pub open spec fn subsection_contents_spec(node: DomV, o: Option<JsonV>) -> Option<JsonV> {
    match subsection_name_spec(node) {
        None => o,
        Some(name) => {
            if name.len() == 0 || name == "subsection_template"@ {
                o
            } else {
                let name2 = "#"@ + name;
                let (o1, id) = match pj_subsection_by_name(o, name2) {
                    Some(id) => (o, Some(id)),
                    None => by_node_spec(node, o, name2),
                };
                match id {
                    None => o1,
                    Some(id) => match first_match_spec(children_of(node), "div"@, subsection_content_ptn(), false) {
                        None => o1,
                        Some(cn) => {
                            let o2 = match o1 {
                                Some(j) => Some(contents_ensured(j, id)),
                                None => None,
                            };
                            contents_fold(children_of(cn), o2, id)
                        },
                    },
                }
            }
        },
    }
}

/// Fills a subsection of the body into the document.
pub fn subsection_contents_set(subsection_node: &DomNode, page_json: &mut PageJson) -> (res: Option<()>)
    requires
        no_inner_docs(subsection_node@),
    ensures
        final(page_json)@ == subsection_contents_spec(subsection_node@, old(page_json)@),
{
    let name = subsection_name(subsection_node)?;
    if name.as_str().unicode_len() == 0 {
        return None;
    }
    if name == "subsection_template".to_owned() {
        return None;
    }
    let mut name2 = "#".to_owned();
    name2.append(name.as_str());
    let subsection = match page_json.subsection_by_name(name2.as_str()) {
        Some(s) => s,
        None => subsection_by_subsection_node(subsection_node, page_json, name2.as_str())?,
    };
    let ptn = [("class", "subsectionContent")];
    assert(ptn_view(ptn@) =~= subsection_content_ptn());
    let contents_node = child_match_first(subsection_node, "div", &ptn, false)?;
    proof {
        lemma_first_match_ok(children_of(subsection_node@), "div"@, subsection_content_ptn(), false);
    }
    subsection.contents_mut(page_json);
    let c = match contents_node {
        DomNode::Document(c) | DomNode::Element(_, _, c, _) => c,
        _ => {
            assert(children_of(contents_node@) =~= Seq::<DomV>::empty());
            return Some(());
        },
    };
    let ghost cv = forest_view(c@);
    proof {
        lemma_forest_view(c@);
    }
    let ghost o2 = page_json@;
    proof {
        lemma_no_docs_all(cv);
    }
    let n = c.len();
    assert(cv.take(0) =~= Seq::<DomV>::empty());
    for i in 0..n
        invariant
            n == c@.len(),
            cv == forest_view(c@),
            cv.len() == n,
            forall|x: int| 0 <= x < n ==> #[trigger] cv[x] == c@[x]@,
            forall|x: int| 0 <= x < n ==> #[trigger] node_ok(cv[x]),
            page_json@ == contents_fold(cv.take(i as int), o2, subsection.id as nat),
    {
        assert(node_ok(cv[i as int]));
        assert(cv.take(i + 1).drop_last() =~= cv.take(i as int));
        subsection_content_set(&subsection, page_json, &c[i]);
    }
    assert(cv.take(n as int) =~= cv);
    Some(())
}

/// The subsections of the body, in order.
pub open spec fn body_subsections_fold(divs: Seq<DomV>, o: Option<JsonV>) -> Option<JsonV>
    decreases divs.len(),
{
    if divs.len() == 0 {
        o
    } else {
        subsection_contents_spec(divs.last(), body_subsections_fold(divs.drop_last(), o))
    }
}

/// Every `<div class="subsection">` of the body fills its subsection.
pub open spec fn subsections_contents_spec(page: DomV, o: Option<JsonV>) -> Option<JsonV> {
    match first_match_spec(children_of(page), "body"@, no_attrs(), true) {
        None => o,
        Some(body) => body_subsections_fold(all_matches_spec(children_of(body), "div"@, subsection_ptn(), true), o),
    }
}

/// Fills every subsection of the body into the document.
pub fn subsections_contents_set(page_node: &DomNode, page_json: &mut PageJson) -> (res: Option<()>)
    requires
        no_inner_docs(page_node@),
    ensures
        final(page_json)@ == subsections_contents_spec(page_node@, old(page_json)@),
{
    let none: [(&str, &str); 0] = [];
    assert(ptn_view(none@) =~= no_attrs());
    let body_node = child_match_first(page_node, "body", &none, true)?;
    proof {
        lemma_first_match_ok(children_of(page_node@), "body"@, no_attrs(), true);
    }
    let ptn = [("class", "subsection")];
    assert(ptn_view(ptn@) =~= subsection_ptn());
    let div_list = child_match_list(body_node, "div", &ptn, true, false);
    let ghost dv = div_list@.map_values(|d: &DomNode| d@);
    let ghost o0 = page_json@;
    proof {
        lemma_all_matches_ok(children_of(body_node@), "div"@, subsection_ptn(), true);
        lemma_no_docs_all(dv);
    }
    let n = div_list.len();
    assert(dv.take(0) =~= Seq::<DomV>::empty());
    for i in 0..n
        invariant
            n == div_list@.len(),
            dv == div_list@.map_values(|d: &DomNode| d@),
            forall|x: int| 0 <= x < n ==> #[trigger] node_ok(dv[x]),
            page_json@ == body_subsections_fold(dv.take(i as int), o0),
    {
        assert(node_ok(dv[i as int]));
        assert(dv.take(i + 1).drop_last() =~= dv.take(i as int));
        assert(dv.take(i + 1).last() == div_list[i as int]@);
        let _ = subsection_contents_set(div_list[i], page_json);
    }
    assert(dv.take(n as int) =~= dv);
    Some(())
}

pub open spec fn list_base_ptn() -> Seq<(Seq<char>, Seq<char>)> {
    seq![("class"@, "listItemBase"@)]
}

/// Whether the page is in the old form with a subsection list:
/// `<ul class="listItemBase">`.
pub open spec fn is_type02_spec(page: DomV) -> bool {
    first_match_spec(children_of(page), "ul"@, list_base_ptn(), true) is Some
}

/// Whether the page is in the old form with a subsection list.
pub fn is_type02(page_node: &DomNode) -> (res: bool)
    ensures
        res == is_type02_spec(page_node@),
{
    let ptn = [("class", "listItemBase")];
    assert(ptn_view(ptn@) =~= list_base_ptn());
    child_match_first(page_node, "ul", &ptn, true).is_some()
}

/// The document made from a page in the old form: a new page's document
/// with the title, the navigation, the subsections of the list and the
/// contents of the body's subsections; none for a page not in that form or
/// without a title or navigation element.
pub open spec fn json_from_dom_html_spec(page: DomV) -> Option<JsonV> {
    if !is_type02_spec(page) {
        None
    } else {
        match html_title_spec(page, page_json_plain_spec()) {
            None => None,
            Some(j1) => match html_navi_spec(page, j1) {
                None => None,
                Some(j2) => subsections_contents_spec(page, ul_spec(page, Some(j2), 0)),
            },
        }
    }
}

/// Makes the document of a page in the old form from its HTML.
pub fn json_from_dom_html(page_node: &DomNode) -> (res: Option<Json>)
    requires
        no_inner_docs(page_node@),
    ensures
        match res {
            Some(j) => json_from_dom_html_spec(page_node@) == Some(j@),
            None => json_from_dom_html_spec(page_node@) is None,
        },
{
    if !is_type02(page_node) {
        return None;
    }
    let mut data = page_json_plain();
    json_html_title(page_node, &mut data)?;
    json_html_navi(page_node, &mut data)?;
    let mut page_json = PageJson::from(data);
    json_html_ul(page_node, &mut page_json, 0);
    let _ = subsections_contents_set(page_node, &mut page_json);
    page_json.value_take()
}

/// A page's document read from its HTML: from the span, else from the
/// script, else made from the HTML of the old form.
pub open spec fn json_from_dom_spec(page: DomV) -> Option<JsonV> {
    match json_from_dom_span_spec(page) {
        Some(j) => Some(j),
        None => match json_from_dom_script_spec(page) {
            Some(j) => Some(j),
            None => json_from_dom_html_spec(page),
        },
    }
}

/// Reads a page's document from its HTML.
pub fn json_from_dom(page_node: &DomNode) -> (res: Option<Json>)
    requires
        no_inner_docs(page_node@),
    ensures
        match res {
            Some(j) => json_from_dom_spec(page_node@) == Some(j@),
            None => json_from_dom_spec(page_node@) is None,
        },
{
    if let Some(j) = json_from_dom_span(page_node) {
        return Some(j);
    }
    if let Some(j) = json_from_dom_script(page_node) {
        return Some(j);
    }
    json_from_dom_html(page_node)
}

/// The document read from a page's file: its bytes as UTF-8 text, parsed as
/// HTML, then read by `json_from_dom_spec`.
pub open spec fn json_of_source_spec(source: Seq<u8>) -> Option<JsonV> {
    match crate::http::utf8_text(source) {
        Some(t) => json_from_dom_spec(crate::dom::html_parse_result(t)),
        None => None,
    }
}

/// Reads the document of a page from the bytes of its file.
pub fn json_of_source(source: &[u8]) -> (res: Option<crate::page_json::PageJson>)
    ensures
        match res {
            Some(p) => json_of_source_spec(source@) matches Some(j) && p@ == Some(j),
            None => json_of_source_spec(source@) is None,
        },
{
    let text = string_from_utf8(source)?;
    let dom = crate::dom::html_parse(text.as_str());
    let j = json_from_dom(&dom)?;
    Some(crate::page_json::PageJson::from(j))
}

} // verus!
