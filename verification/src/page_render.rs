//! Making the HTML of a page from its JSON document: the document itself in
//! a hidden span, and a static rendering of its navigation, index and
//! subsections for readers without the script.
use vstd::prelude::*;
use vstd::utf8::{valid_utf8, decode_utf8, encode_utf8};
use crate::dom::{DomNode, DomV, Edit, EditV, plain_attrs, html_ns, no_docs, node_ok, no_inner_docs, lemma_no_docs_all, lemma_no_docs_push,
    lemma_no_docs_concat, lemma_first_match_ok, lemma_edit_in_keeps_no_docs, children_of, first_match_spec, ptn_view, forest_view, lemma_forest_view,
    child_match_first, edit_first, edit_first_in, html_parse, html_parse_result, html_serialize, html_serialize_result};
use crate::json_value::{Json, JsonV, jv_get, jv_at, jv_as_str, jv_get_path, strs_view, items_view, lemma_items_view,
    entries_view, lemma_entries_view, json_dump, json_dump_result};
use crate::page_child::navi_path;
use crate::page_json::subsections_path;
use crate::strings::{decimal, usize_to_string};
use crate::url_parts::{url_parse, url_join, url_make_relative, url_parse_result, url_join_result, url_make_relative_result};

verus! {

/// An HTML element with attributes (without a namespace) and children.
pub open spec fn elem(name: Seq<char>, attrs: Seq<(Seq<char>, Seq<char>)>, c: Seq<DomV>) -> DomV {
    DomV::Element(name, plain_attrs(attrs), c, html_ns())
}

/// Makes an element.
pub fn element(name: &str, attrs: &[(&str, &str)], children: Vec<DomNode>) -> (res: DomNode)
    ensures
        res@ == elem(name@, ptn_view(attrs@), forest_view(children@)),
{
    let mut a: Vec<(String, String, String)> = Vec::new();
    let ghost pa = plain_attrs(ptn_view(attrs@));
    let n = attrs.len();
    for i in 0..n
        invariant
            n == attrs@.len(),
            pa == plain_attrs(ptn_view(attrs@)),
            pa.len() == n,
            crate::dom::attrs_view(a@) =~= pa.take(i as int),
    {
        a.push((attrs[i].0.to_owned(), attrs[i].1.to_owned(), String::new()));
        assert(pa.take(i + 1) =~= pa.take(i as int).push((attrs@[i as int].0@, attrs@[i as int].1@, Seq::<char>::empty())));
    }
    assert(pa.take(n as int) =~= pa);
    DomNode::Element(name.to_owned(), a, children, "http://www.w3.org/1999/xhtml".to_owned())
}

/// Makes a text node.
pub fn node_text(contents: &str) -> (res: DomNode)
    ensures
        res@ == DomV::Text(contents@),
{
    DomNode::Text(contents.to_owned())
}

pub open spec fn no_attrs() -> Seq<(Seq<char>, Seq<char>)> {
    Seq::empty()
}

/// One list of one node.
fn one(d: DomNode) -> (res: Vec<DomNode>)
    ensures
        forest_view(res@) == seq![d@],
{
    let mut v = Vec::new();
    v.push(d);
    proof {
        lemma_forest_view(v@);
    }
    assert(forest_view(v@) =~= seq![d@]);
    v
}

/// The title of a navigation entry (`no title` when it has none).
pub open spec fn navi_title(item: JsonV) -> Seq<char> {
    match jv_as_str(jv_at(item, 0)) {
        Some(t) => t,
        None => "no title"@,
    }
}

/// The href of a navigation entry (empty when it has none).
pub open spec fn navi_href(item: JsonV) -> Seq<char> {
    match jv_as_str(jv_at(item, 1)) {
        Some(h) => h,
        None => Seq::empty(),
    }
}

/// The nodes of navigation entry `k`: a link followed by ` > `, or, for the
/// last entry (the page itself), its title alone.
pub open spec fn navi_piece(items: Seq<JsonV>, k: int) -> Seq<DomV> {
    if k + 1 < items.len() {
        seq![
            elem("a"@, seq![("href"@, navi_href(items[k]))], seq![DomV::Text(navi_title(items[k]))]),
            DomV::Text(" > "@),
        ]
    } else {
        seq![DomV::Text(navi_title(items[k]))]
    }
}

/// The nodes of the first `k` navigation entries.
pub open spec fn navi_nodes(items: Seq<JsonV>, k: int) -> Seq<DomV>
    decreases k,
{
    if k <= 0 {
        Seq::empty()
    } else {
        navi_nodes(items, k - 1) + navi_piece(items, k - 1)
    }
}

/// The first `m` entries give two nodes each, but the last entry of all
/// gives one; node `2k` comes from entry `k`, and so does node `2k + 1`
/// for an entry that is not the last.
proof fn lemma_navi_nodes_at(items: Seq<JsonV>, m: int)
    requires
        0 <= m <= items.len(),
    ensures
        navi_nodes(items, m).len() == if m == items.len() && m > 0 { 2 * m - 1 } else { 2 * m },
        forall|k: int| 0 <= k < m ==> #[trigger] navi_nodes(items, m)[2 * k] == navi_piece(items, k)[0],
        forall|k: int| 0 <= k < m && k + 1 < items.len() ==> #[trigger] navi_nodes(items, m)[2 * k + 1] == navi_piece(items, k)[1],
    decreases m,
{
    if m > 0 {
        lemma_navi_nodes_at(items, m - 1);
        let prev = navi_nodes(items, m - 1);
        let p = navi_piece(items, m - 1);
        assert(navi_nodes(items, m) == prev + p);
        assert forall|k: int| 0 <= k < m implies #[trigger] navi_nodes(items, m)[2 * k] == navi_piece(items, k)[0] by {
            if k < m - 1 {
                assert((prev + p)[2 * k] == prev[2 * k]);
            } else {
                assert((prev + p)[2 * k] == p[0]);
            }
        }
        assert forall|k: int| 0 <= k < m && k + 1 < items.len() implies #[trigger] navi_nodes(items, m)[2 * k + 1] == navi_piece(items, k)[1] by {
            if k < m - 1 {
                assert((prev + p)[2 * k + 1] == prev[2 * k + 1]);
            } else {
                assert((prev + p)[2 * k + 1] == p[1]);
            }
        }
    }
}

/// The title an entry of the navigation shows: its first item when it is
/// text, `no title` otherwise.
pub open spec fn entry_title(item: JsonV) -> Seq<char> {
    match jv_at(item, 0) {
        JsonV::Str(t) => t,
        JsonV::Short(t) => t,
        _ => "no title"@,
    }
}

/// The href an entry of the navigation links to: its second item when it
/// is text, empty otherwise.
pub open spec fn entry_href(item: JsonV) -> Seq<char> {
    match jv_at(item, 1) {
        JsonV::Str(h) => h,
        JsonV::Short(h) => h,
        _ => Seq::empty(),
    }
}

/// The navigation bar holds, for each navigation entry but the last, a link
/// to the entry's href titled with the entry's title, followed by the text
/// ` > `; the last entry, the page itself, is its title alone, as text.
pub proof fn law_navi_links_every_entry_but_the_last(j: JsonV)
    requires
        jv_get_path(j, navi_path()) is Array,
    ensures
        ({
            let a = jv_get_path(j, navi_path())->Array_0;
            let c = children_of(navi_spec(j)->Ok_0);
            &&& navi_spec(j) is Ok
            &&& c.len() == if a.len() == 0 { 0 } else { 2 * a.len() - 1 }
            &&& forall|k: int| 0 <= k && k + 1 < a.len() ==> {
                &&& #[trigger] c[2 * k] == DomV::Element("a"@, seq![("href"@, entry_href(a[k]), Seq::<char>::empty())],
                    seq![DomV::Text(entry_title(a[k]))], html_ns())
                &&& c[2 * k + 1] == DomV::Text(" > "@)
            }
            &&& a.len() > 0 ==> c[2 * (a.len() - 1)] == DomV::Text(entry_title(a[a.len() - 1]))
        }),
{
    let a = jv_get_path(j, navi_path())->Array_0;
    lemma_navi_nodes_at(a, a.len() as int);
    assert forall|k: int| 0 <= k && k + 1 < a.len() implies
        plain_attrs(seq![("href"@, navi_href(a[k]))]) =~= seq![("href"@, entry_href(a[k]), Seq::<char>::empty())] by {}
}

/// The navigation bar of a page: its entries in a `div`; none when the
/// navigation is not an array.
pub open spec fn navi_spec(j: JsonV) -> Result<DomV, Seq<char>> {
    match jv_get_path(j, navi_path()) {
        JsonV::Array(a) => Ok(elem("div"@, no_attrs(), navi_nodes(a, a.len() as int))),
        _ => Err("Failed to get navi data from page_json"@),
    }
}

/// Makes the navigation bar of a page.
pub fn navi(page_json: &Json) -> (res: Result<DomNode, String>)
    ensures
        match navi_spec(page_json@) {
            Ok(d) => res matches Ok(x) && x@ == d,
            Err(e) => res matches Err(m) && m@ == e,
        },
{
    let keys = ["data", "navi"];
    assert(strs_view(keys@) =~= navi_path());
    let items = match page_json.get_path(&keys) {
        Some(Json::Array(items)) => items,
        _ => return Err("Failed to get navi data from page_json".to_owned()),
    };
    let ghost iv = items_view(items@);
    proof {
        lemma_items_view(items@);
    }
    let none: [(&str, &str); 0] = [];
    assert(ptn_view(none@) =~= no_attrs());
    let mut out: Vec<DomNode> = Vec::new();
    let n = items.len();
    assert(forest_view(out@) =~= Seq::<DomV>::empty());
    for k in 0..n
        invariant
            n == items@.len(),
            iv == items_view(items@),
            iv.len() == n,
            forall|x: int| 0 <= x < n ==> #[trigger] iv[x] == items@[x]@,
            forest_view(out@) == navi_nodes(iv, k as int),
    {
        let item = &items[k];
        let title = match item.at(0) {
            Some(t) => match t.as_str() {
                Some(t) => t,
                None => "no title",
            },
            None => "no title",
        };
        let ghost before = forest_view(out@);
        let ghost old_out = out@;
        proof {
            lemma_forest_view(old_out);
        }
        if k + 1 < n {
            let href = match item.at(1) {
                Some(h) => match h.as_str() {
                    Some(h) => h,
                    None => "",
                },
                None => "",
            };
            proof {
                reveal_strlit("");
                assert(""@ =~= Seq::<char>::empty());
            }
            let attrs = [("href", href)];
            assert(ptn_view(attrs@) =~= seq![("href"@, navi_href(iv[k as int]))]);
            let a = element("a", &attrs, one(node_text(title)));
            out.push(a);
            out.push(node_text(" > "));
        } else {
            out.push(node_text(title));
        }
        proof {
            lemma_forest_view(out@);
            assert(navi_title(iv[k as int]) == title@);
            assert(forest_view(out@) =~= before + navi_piece(iv, k as int));
        }
    }
    Ok(element("div", &none, out))
}

/// The links under each subsection of the static page: back and top.
pub open spec fn navi_back_spec() -> DomV {
    elem("div"@, no_attrs(), seq![
        elem("a"@, seq![("href"@, "javascript:history.back()"@)], seq![DomV::Text("back"@)]),
        DomV::Text(" "@),
        elem("a"@, seq![("href"@, "#"@)], seq![DomV::Text("top"@)]),
    ])
}

/// Makes the back and top links.
pub fn navi_back() -> (res: DomNode)
    ensures
        res@ == navi_back_spec(),
{
    let none: [(&str, &str); 0] = [];
    assert(ptn_view(none@) =~= no_attrs());
    let back_attrs = [("href", "javascript:history.back()")];
    assert(ptn_view(back_attrs@) =~= seq![("href"@, "javascript:history.back()"@)]);
    let top_attrs = [("href", "#")];
    assert(ptn_view(top_attrs@) =~= seq![("href"@, "#"@)]);
    let mut c: Vec<DomNode> = Vec::new();
    c.push(element("a", &back_attrs, one(node_text("back"))));
    c.push(node_text(" "));
    c.push(element("a", &top_attrs, one(node_text("top"))));
    proof {
        lemma_forest_view(c@);
    }
    assert(forest_view(c@) =~= navi_back_spec()->Element_2);
    element("div", &none, c)
}

/// A child id whose reading as a `usize` fails and stops the rendering: a
/// number that is not a non-negative integer that fits, or a string (the
/// `json` crate reads no `usize` from a string).
pub open spec fn child_item_panics(v: JsonV) -> bool {
    match v {
        JsonV::Number(n) => !(n.positive && n.exponent == 0 && n.mantissa <= usize::MAX),
        JsonV::Short(_) => true,
        JsonV::Str(_) => true,
        _ => false,
    }
}

/// Reading the child ids of a list panics: the first id that is not a
/// readable number is a number or a string.
pub open spec fn child_list_panics(a: Seq<JsonV>) -> bool {
    exists|i: int| 0 <= i < a.len() && child_item_panics(a[i])
        && forall|j: int| 0 <= j < i ==> #[trigger] a[j] is Number && !child_item_panics(a[j])
}

/// The child ids of a list, read in order; the first entry that is neither
/// a number nor a string is refused.
pub open spec fn child_ids(a: Seq<JsonV>) -> Result<Seq<usize>, Seq<char>>
    decreases a.len(),
{
    if a.len() == 0 {
        Ok(Seq::empty())
    } else {
        match child_ids(a.drop_last()) {
            Err(e) => Err(e),
            Ok(v) => match a.last() {
                JsonV::Number(n) => Ok(v.push(n.mantissa as usize)),
                JsonV::Short(_) => Ok(v),
                JsonV::Str(_) => Ok(v),
                other => Err("Failed to get number of: "@ + json_dump_result(other)),
            },
        }
    }
}

/// The ids of the children of subsection `key`: refused when there is no
/// such subsection; none when it has no child list.
pub open spec fn children_indexes_spec(subs: JsonV, key: usize) -> Result<Seq<usize>, Seq<char>> {
    let parent = jv_get(subs, decimal(key as nat));
    if parent is Null {
        Err("Failed to get parent subsection: "@ + decimal(key as nat))
    } else {
        match jv_get(parent, "child"@) {
            JsonV::Array(a) => child_ids(a),
            _ => Ok(Seq::empty()),
        }
    }
}

/// The child list of subsection `key` can be read without a panic.
pub open spec fn list_at_safe(subs: JsonV, key: usize) -> bool {
    match jv_get(jv_get(subs, decimal(key as nat)), "child"@) {
        JsonV::Array(a) => !child_list_panics(a),
        _ => true,
    }
}

/// Every child list that a walk from subsection `key` down at most `fuel`
/// levels reads can be read without a panic.
pub open spec fn safe_walk(subs: JsonV, key: usize, fuel: nat) -> bool
    decreases fuel,
{
    fuel == 0 || (list_at_safe(subs, key) && match children_indexes_spec(subs, key) {
        Ok(ci) => forall|i: int| 0 <= i < ci.len() ==> safe_walk(subs, #[trigger] ci[i], (fuel - 1) as nat),
        Err(_) => true,
    })
}

/// Every child list that rendering a page's document reads, from the top
/// subsection down, can be read without a panic.
pub open spec fn render_safe(j: JsonV) -> bool {
    let subs = jv_get_path(j, subsections_path());
    safe_walk(subs, 0, walk_fuel(subs))
}

/// Reads the ids of the children of subsection `key`.
pub fn subsection_children_indexes(subs: &Json, key: usize) -> (res: Result<Vec<usize>, String>)
    requires
        list_at_safe(subs@, key),
    ensures
        match children_indexes_spec(subs@, key) {
            Ok(v) => res matches Ok(x) && x@ == v,
            Err(e) => res matches Err(m) && m@ == e,
        },
{
    let key_str = usize_to_string(key);
    let parent = match subs.get(key_str.as_str()) {
        Some(p) => p,
        None => {
            let mut m = "Failed to get parent subsection: ".to_owned();
            m.append(key_str.as_str());
            return Err(m);
        },
    };
    if parent.is_null() {
        let mut m = "Failed to get parent subsection: ".to_owned();
        m.append(key_str.as_str());
        return Err(m);
    }
    let items = match parent.get("child") {
        Some(Json::Array(items)) => items,
        _ => return Ok(Vec::new()),
    };
    let ghost iv = items_view(items@);
    proof {
        lemma_items_view(items@);
    }
    let mut out: Vec<usize> = Vec::new();
    let n = items.len();
    assert(iv.take(0) =~= Seq::<JsonV>::empty());
    assert(children_indexes_spec(subs@, key) == child_ids(iv));
    for i in 0..n
        invariant
            n == items@.len(),
            iv == items_view(items@),
            iv.len() == n,
            forall|x: int| 0 <= x < n ==> #[trigger] iv[x] == items@[x]@,
            !child_list_panics(iv),
            children_indexes_spec(subs@, key) == child_ids(iv),
            forall|j: int| 0 <= j < i ==> #[trigger] iv[j] is Number && !child_item_panics(iv[j]),
            child_ids(iv.take(i as int)) == Ok::<Seq<usize>, Seq<char>>(out@),
    {
        assert(iv.take(i + 1).drop_last() =~= iv.take(i as int));
        assert(iv.take(i + 1).last() == iv[i as int]);
        match &items[i] {
            Json::Number(num) => {
                if !(num.positive && num.exponent == 0 && num.mantissa <= usize::MAX as u64) {
                    proof {
                        assert(child_item_panics(iv[i as int]));
                        assert(child_list_panics(iv));
                    }
                    return Err(String::new());
                }
                out.push(num.mantissa as usize);
            },
            Json::Short(_) | Json::Str(_) => {
                proof {
                    assert(child_item_panics(iv[i as int]));
                    assert(child_list_panics(iv));
                }
                return Err(String::new());
            },
            other => {
                let mut m = "Failed to get number of: ".to_owned();
                let d = json_dump(other);
                m.append(d.as_str());
                proof {
                    assert(child_ids(iv.take(i + 1)) == Err::<Seq<usize>, Seq<char>>(m@));
                    lemma_child_ids_err(iv, i as int + 1, m@);
                    assert(iv.take(n as int) =~= iv);
                }
                return Err(m);
            },
        }
    }
    assert(iv.take(n as int) =~= iv);
    Ok(out)
}

/// Once reading a prefix of the ids fails, reading the whole list fails
/// the same way.
proof fn lemma_child_ids_err(a: Seq<JsonV>, i: int, m: Seq<char>)
    requires
        0 <= i <= a.len(),
        child_ids(a.take(i)) == Err::<Seq<usize>, Seq<char>>(m),
    ensures
        child_ids(a.take(a.len() as int)) == Err::<Seq<usize>, Seq<char>>(m),
    decreases a.len() - i,
{
    if i < a.len() {
        assert(a.take(i + 1).drop_last() =~= a.take(i));
        lemma_child_ids_err(a, i + 1, m);
    }
}

/// The index of the subsections under `key`: a list whose items link to
/// each child subsection (href and title needed) and hold its own index.
/// The walk goes at most `fuel` levels deep.
pub open spec fn index_ul_spec(subs: JsonV, key: usize, fuel: nat) -> Result<DomV, Seq<char>>
    decreases fuel, 0int,
{
    if fuel == 0 {
        Err("Failed to get subsection data: the subsections form a loop"@)
    } else {
        match children_indexes_spec(subs, key) {
            Err(e) => Err(e),
            Ok(ci) => match index_li_fold(subs, ci, (fuel - 1) as nat) {
                Err(e) => Err(e),
                Ok(lis) => Ok(elem("ul"@, no_attrs(), lis)),
            },
        }
    }
}

/// The items of an index list, in order.
pub open spec fn index_li_fold(subs: JsonV, ci: Seq<usize>, fuel: nat) -> Result<Seq<DomV>, Seq<char>>
    decreases fuel, ci.len(),
{
    if ci.len() == 0 {
        Ok(Seq::empty())
    } else {
        match index_li_fold(subs, ci.drop_last(), fuel) {
            Err(e) => Err(e),
            Ok(prev) => {
                let id = ci.last();
                let sj = jv_get(subs, decimal(id as nat));
                match jv_as_str(jv_get(sj, "href"@)) {
                    None => Err("Failed to get subsection href of : "@ + decimal(id as nat)),
                    Some(href) => match jv_as_str(jv_get(sj, "title"@)) {
                        None => Err("Failed to get subsection title of : "@ + decimal(id as nat)),
                        Some(title) => match index_ul_spec(subs, id, fuel) {
                            Err(e) => Err(e),
                            Ok(ul) => Ok(prev.push(elem("li"@, no_attrs(), seq![
                                elem("a"@, seq![("href"@, href)], seq![DomV::Text(title)]),
                                ul,
                            ]))),
                        },
                    },
                }
            },
        }
    }
}

/// Makes the index of the subsections under `key`.
pub fn index_ul(subs: &Json, key: usize, fuel: usize) -> (res: Result<DomNode, String>)
    requires
        safe_walk(subs@, key, fuel as nat),
    ensures
        match index_ul_spec(subs@, key, fuel as nat) {
            Ok(d) => res matches Ok(x) && x@ == d,
            Err(e) => res matches Err(m) && m@ == e,
        },
    decreases fuel,
{
    if fuel == 0 {
        return Err("Failed to get subsection data: the subsections form a loop".to_owned());
    }
    let children_i = subsection_children_indexes(subs, key)?;
    let none: [(&str, &str); 0] = [];
    assert(ptn_view(none@) =~= no_attrs());
    let mut lis: Vec<DomNode> = Vec::new();
    let n = children_i.len();
    assert(children_i@.take(0) =~= Seq::<usize>::empty());
    assert(forest_view(lis@) =~= Seq::<DomV>::empty());
    for i in 0..n
        invariant
            n == children_i@.len(),
            fuel > 0,
            forall|j: int| 0 <= j < n ==> safe_walk(subs@, #[trigger] children_i@[j], (fuel - 1) as nat),
            ptn_view(none@) == no_attrs(),
            index_li_fold(subs@, children_i@.take(i as int), (fuel - 1) as nat) == Ok::<Seq<DomV>, Seq<char>>(forest_view(lis@)),
            index_ul_spec(subs@, key, fuel as nat) == match index_li_fold(subs@, children_i@, (fuel - 1) as nat) {
                Err(e) => Err(e),
                Ok(l) => Ok(elem("ul"@, no_attrs(), l)),
            },
    {
        let id = children_i[i];
        assert(children_i@.take(i + 1).drop_last() =~= children_i@.take(i as int));
        assert(children_i@.take(i + 1).last() == id);
        let id_str = usize_to_string(id);
        let sj = match subs.get(id_str.as_str()) {
            Some(v) => v.deep_clone(),
            None => Json::Null,
        };
        let href = match sj.get("href") {
            Some(h) => match h.as_str() {
                Some(h) => h.to_owned(),
                None => {
                    let mut m = "Failed to get subsection href of : ".to_owned();
                    m.append(id_str.as_str());
                    proof {
                        lemma_index_fold_err(subs@, children_i@, i as int + 1, (fuel - 1) as nat, m@);
                        assert(children_i@.take(n as int) =~= children_i@);
                    }
                    return Err(m);
                },
            },
            None => {
                let mut m = "Failed to get subsection href of : ".to_owned();
                m.append(id_str.as_str());
                proof {
                    lemma_index_fold_err(subs@, children_i@, i as int + 1, (fuel - 1) as nat, m@);
                    assert(children_i@.take(n as int) =~= children_i@);
                }
                return Err(m);
            },
        };
        let title = match sj.get("title") {
            Some(t) => match t.as_str() {
                Some(t) => t.to_owned(),
                None => {
                    let mut m = "Failed to get subsection title of : ".to_owned();
                    m.append(id_str.as_str());
                    proof {
                        lemma_index_fold_err(subs@, children_i@, i as int + 1, (fuel - 1) as nat, m@);
                        assert(children_i@.take(n as int) =~= children_i@);
                    }
                    return Err(m);
                },
            },
            None => {
                let mut m = "Failed to get subsection title of : ".to_owned();
                m.append(id_str.as_str());
                proof {
                    lemma_index_fold_err(subs@, children_i@, i as int + 1, (fuel - 1) as nat, m@);
                    assert(children_i@.take(n as int) =~= children_i@);
                }
                return Err(m);
            },
        };
        let ul = match index_ul(subs, id, fuel - 1) {
            Ok(u) => u,
            Err(e) => {
                proof {
                    lemma_index_fold_err(subs@, children_i@, i as int + 1, (fuel - 1) as nat, e@);
                    assert(children_i@.take(n as int) =~= children_i@);
                }
                return Err(e);
            },
        };
        let attrs = [("href", href.as_str())];
        assert(ptn_view(attrs@) =~= seq![("href"@, href@)]);
        let a = element("a", &attrs, one(node_text(title.as_str())));
        let mut kids: Vec<DomNode> = Vec::new();
        kids.push(a);
        kids.push(ul);
        proof {
            lemma_forest_view(kids@);
            assert(forest_view(kids@) =~= seq![a@, ul@]);
        }
        let li = element("li", &none, kids);
        let ghost old_lis = lis@;
        proof {
            lemma_forest_view(old_lis);
        }
        lis.push(li);
        proof {
            lemma_forest_view(lis@);
            assert(forest_view(lis@) =~= forest_view(old_lis).push(li@));
            assert(li@ == elem("li"@, no_attrs(), seq![
                elem("a"@, seq![("href"@, href@)], seq![DomV::Text(title@)]),
                ul@,
            ]));
        }
    }
    assert(children_i@.take(n as int) =~= children_i@);
    Ok(element("ul", &none, lis))
}

/// Once building a prefix of the index items fails, building the whole
/// list fails the same way.
proof fn lemma_index_fold_err(subs: JsonV, ci: Seq<usize>, i: int, fuel: nat, m: Seq<char>)
    requires
        0 <= i <= ci.len(),
        index_li_fold(subs, ci.take(i), fuel) == Err::<Seq<DomV>, Seq<char>>(m),
    ensures
        index_li_fold(subs, ci.take(ci.len() as int), fuel) == Err::<Seq<DomV>, Seq<char>>(m),
    decreases ci.len() - i,
{
    if i < ci.len() {
        assert(ci.take(i + 1).drop_last() =~= ci.take(i));
        lemma_index_fold_err(subs, ci, i + 1, fuel, m);
    }
}

/// The HTML that every page starts from.
pub const PAGE_HTML_PLAIN: &'static str = r#"<!DOCTYPE html><html><head><title></title><meta charset="UTF-8"></meta><script>function bodyOnload () {}</script><script src="/wc.js"></script>
    <link rel="stylesheet" href="/wc.css"></link>
    <style type="text/css"></style>
</head><body onload="bodyOnload()"><span id="page_json_str" style="display: none"></span></body></html>
"#;

/// The HTML that every page starts from.
pub fn page_html_plain() -> (res: &'static str)
    ensures
        res@ == PAGE_HTML_PLAIN@,
{
    PAGE_HTML_PLAIN
}

/// The nodes that a piece of HTML makes: the children of the body the
/// parser puts them in.
pub open spec fn dom_parts(t: Seq<char>) -> Seq<DomV> {
    match first_match_spec(children_of(html_parse_result(t)), "body"@, no_attrs(), true) {
        Some(b) => children_of(b),
        None => Seq::empty(),
    }
}

/// Parses a piece of HTML into nodes.
pub fn to_dom_parts(html_text: &str) -> (res: Vec<DomNode>)
    ensures
        forest_view(res@) == dom_parts(html_text@),
        no_docs(forest_view(res@)),
{
    let parsed = html_parse(html_text);
    let none: [(&str, &str); 0] = [];
    assert(ptn_view(none@) =~= no_attrs());
    proof {
        lemma_first_match_ok(children_of(parsed@), "body"@, no_attrs(), true);
    }
    match child_match_first(&parsed, "body", &none, true) {
        Some(body) => match body.deep_clone() {
            DomNode::Document(c) | DomNode::Element(_, _, c, _) => c,
            _ => {
                let v: Vec<DomNode> = Vec::new();
                assert(forest_view(v@) =~= Seq::<DomV>::empty());
                v
            },
        },
        None => {
            let v: Vec<DomNode> = Vec::new();
            assert(forest_view(v@) =~= Seq::<DomV>::empty());
            v
        },
    }
}

/// Text as the static page shows it (see `text_in_html`), as a string.
pub open spec fn text_in_html_text(v: Seq<char>) -> Seq<char> {
    let b = crate::text_html::text_in_html_spec(encode_utf8(v));
    if valid_utf8(b) { decode_utf8(b) } else { Seq::empty() }
}

/// Text as the static page shows it.
pub fn text_in_html_str(v: &str) -> (res: String)
    ensures
        res@ == text_in_html_text(v@),
{
    let b = crate::text_html::text_in_html(v.as_bytes());
    match crate::http::string_from_utf8(b.as_slice()) {
        Some(s) => s,
        None => String::new(),
    }
}

pub open spec fn content_class_attrs() -> Seq<(Seq<char>, Seq<char>)> {
    seq![("class"@, "html subsectionContent"@)]
}

/// The node of a content item: `text` as paragraphs, `script` as such in a
/// script block, `html` as it is; refused without a value or with another
/// type.
pub open spec fn content_spec(cj: JsonV) -> Result<DomV, Seq<char>> {
    match jv_as_str(jv_get(cj, "value"@)) {
        None => Err("Failed to get content value"@),
        Some(v) => {
            let t = jv_as_str(jv_get(cj, "type"@));
            if t == Some("text"@) {
                Ok(elem("div"@, content_class_attrs(), dom_parts(text_in_html_text(v))))
            } else if t == Some("script"@) {
                Ok(elem("div"@, content_class_attrs(), seq![elem("div"@, seq![("class"@, "script"@)], dom_parts(text_in_html_text(v)))]))
            } else if t == Some("html"@) {
                Ok(elem("div"@, content_class_attrs(), dom_parts(v)))
            } else {
                Err("type does not match"@)
            }
        },
    }
}

/// Makes the node of a content item.
pub fn content(content_json: &Json) -> (res: Result<DomNode, String>)
    ensures
        match content_spec(content_json@) {
            Ok(d) => res matches Ok(x) && x@ == d,
            Err(e) => res matches Err(m) && m@ == e,
        },
        res matches Ok(x) ==> node_ok(x@),
{
    let value = match content_json.get("value") {
        Some(v) => match v.as_str() {
            Some(v) => v,
            None => return Err("Failed to get content value".to_owned()),
        },
        None => return Err("Failed to get content value".to_owned()),
    };
    let (is_text, is_script, is_html) = match content_json.get("type") {
        Some(t) => (t.eq_str("text"), t.eq_str("script"), t.eq_str("html")),
        None => (false, false, false),
    };
    let cls = [("class", "html subsectionContent")];
    assert(ptn_view(cls@) =~= content_class_attrs());
    if is_text {
        let t = text_in_html_str(value);
        return Ok(element("div", &cls, to_dom_parts(t.as_str())));
    }
    if is_script {
        let t = text_in_html_str(value);
        let script_cls = [("class", "script")];
        assert(ptn_view(script_cls@) =~= seq![("class"@, "script"@)]);
        let inner = element("div", &script_cls, to_dom_parts(t.as_str()));
        let kids = one(inner);
        proof {
            lemma_no_docs_all(forest_view(kids@));
        }
        return Ok(element("div", &cls, kids));
    }
    if is_html {
        return Ok(element("div", &cls, to_dom_parts(value)));
    }
    Err("type does not match".to_owned())
}

/// The element of a subsection, named by its href without the `#` (an
/// `id_undefined` one for a bare `#`); refused without an href starting
/// with `#`.
pub open spec fn subsection_node_new_spec(sj: JsonV) -> Result<DomV, Seq<char>> {
    match jv_as_str(jv_get(sj, "href"@)) {
        None => Err("Failed to get href"@),
        Some(href) => {
            if !crate::strings::starts_with_spec(href, "#"@) {
                Err("href not start with #"@)
            } else {
                let name = href.drop_first();
                if name.len() == 0 {
                    Ok(elem("div"@, seq![("class"@, "id_undefined"@)], Seq::empty()))
                } else {
                    Ok(elem("div"@, seq![("id"@, name)], Seq::empty()))
                }
            }
        },
    }
}

/// Makes the element of a subsection.
pub fn subsection_node_new(subsection_json: &Json) -> (res: Result<DomNode, String>)
    ensures
        match subsection_node_new_spec(subsection_json@) {
            Ok(d) => res matches Ok(x) && x@ == d,
            Err(e) => res matches Err(m) && m@ == e,
        },
        res matches Ok(x) ==> node_ok(x@) && x@ is Element,
{
    let href = match subsection_json.get("href") {
        Some(h) => match h.as_str() {
            Some(h) => h,
            None => return Err("Failed to get href".to_owned()),
        },
        None => return Err("Failed to get href".to_owned()),
    };
    if !crate::strings::starts_with(href, "#") {
        return Err("href not start with #".to_owned());
    }
    proof {
        reveal_strlit("#");
    }
    let n = href.unicode_len();
    let name = href.substring_char(1, n);
    assert(name@ =~= href@.drop_first());
    let empty: Vec<DomNode> = Vec::new();
    assert(forest_view(empty@) =~= Seq::<DomV>::empty());
    if name.unicode_len() == 0 {
        let attrs = [("class", "id_undefined")];
        assert(ptn_view(attrs@) =~= seq![("class"@, "id_undefined"@)]);
        Ok(element("div", &attrs, empty))
    } else {
        let attrs = [("id", name)];
        assert(ptn_view(attrs@) =~= seq![("id"@, name@)]);
        Ok(element("div", &attrs, empty))
    }
}

/// The nodes of the first content items, in order; the first refusal
/// refuses them all.
pub open spec fn contents_nodes(items: Seq<JsonV>) -> Result<Seq<DomV>, Seq<char>>
    decreases items.len(),
{
    if items.len() == 0 {
        Ok(Seq::empty())
    } else {
        match contents_nodes(items.drop_last()) {
            Err(e) => Err(e),
            Ok(v) => match content_spec(items.last()) {
                Err(e) => Err(e),
                Ok(d) => Ok(v.push(d)),
            },
        }
    }
}

proof fn lemma_contents_nodes_err(a: Seq<JsonV>, i: int, m: Seq<char>)
    requires
        0 <= i <= a.len(),
        contents_nodes(a.take(i)) == Err::<Seq<DomV>, Seq<char>>(m),
    ensures
        contents_nodes(a.take(a.len() as int)) == Err::<Seq<DomV>, Seq<char>>(m),
    decreases a.len() - i,
{
    if i < a.len() {
        assert(a.take(i + 1).drop_last() =~= a.take(i));
        lemma_contents_nodes_err(a, i + 1, m);
    }
}

/// The element of subsection `id` with its title and its contents; refused
/// without an href, a title or a content array, or when a content item is.
pub open spec fn subsection_built_spec(subs: JsonV, id: usize) -> Result<DomV, Seq<char>> {
    let sj = jv_get(subs, decimal(id as nat));
    match subsection_node_new_spec(sj) {
        Err(e) => Err(e),
        Ok(node) => match jv_as_str(jv_get(sj, "title"@)) {
            None => Err("Failed to get title of index: "@ + decimal(id as nat)),
            Some(title) => match jv_get(sj, "content"@) {
                JsonV::Array(items) => match contents_nodes(items) {
                    Err(e) => Err(e),
                    Ok(cs) => Ok(crate::dom::with_children(node, seq![
                        elem("div"@, seq![("class"@, "subsectionTitle"@)], seq![DomV::Text(title)]),
                        elem("div"@, no_attrs(), cs),
                    ])),
                },
                _ => Err("Failed to get contents from subsection data of id: "@ + decimal(id as nat)),
            },
        },
    }
}

/// Makes the element of subsection `id`.
#[verifier::loop_isolation(false)]
pub fn subsection_built(subs: &Json, id: usize) -> (res: Result<DomNode, String>)
    ensures
        match subsection_built_spec(subs@, id) {
            Ok(d) => res matches Ok(x) && x@ == d,
            Err(e) => res matches Err(m) && m@ == e,
        },
        res matches Ok(x) ==> node_ok(x@),
{
    let id_str = usize_to_string(id);
    let sj = match subs.get(id_str.as_str()) {
        Some(v) => v.deep_clone(),
        None => Json::Null,
    };
    let node = subsection_node_new(&sj)?;
    let title = match sj.get("title") {
        Some(t) => match t.as_str() {
            Some(t) => t.to_owned(),
            None => {
                let mut m = "Failed to get title of index: ".to_owned();
                m.append(id_str.as_str());
                return Err(m);
            },
        },
        None => {
            let mut m = "Failed to get title of index: ".to_owned();
            m.append(id_str.as_str());
            return Err(m);
        },
    };
    let items = match sj.get("content") {
        Some(Json::Array(items)) => items,
        _ => {
            let mut m = "Failed to get contents from subsection data of id: ".to_owned();
            m.append(id_str.as_str());
            return Err(m);
        },
    };
    let ghost iv = items_view(items@);
    proof {
        lemma_items_view(items@);
    }
    let mut cs: Vec<DomNode> = Vec::new();
    let n = items.len();
    assert(iv.take(0) =~= Seq::<JsonV>::empty());
    assert(forest_view(cs@) =~= Seq::<DomV>::empty());
    for i in 0..n
        invariant
            n == items@.len(),
            iv == items_view(items@),
            iv.len() == n,
            forall|x: int| 0 <= x < n ==> #[trigger] iv[x] == items@[x]@,
            contents_nodes(iv.take(i as int)) == Ok::<Seq<DomV>, Seq<char>>(forest_view(cs@)),
            no_docs(forest_view(cs@)),
    {
        assert(iv.take(i + 1).drop_last() =~= iv.take(i as int));
        assert(iv.take(i + 1).last() == iv[i as int]);
        let d = match content(&items[i]) {
            Ok(d) => d,
            Err(e) => {
                proof {
                    lemma_contents_nodes_err(iv, i as int + 1, e@);
                    assert(iv.take(n as int) =~= iv);
                }
                return Err(e);
            },
        };
        let ghost old_cs = cs@;
        proof {
            lemma_forest_view(old_cs);
        }
        cs.push(d);
        proof {
            lemma_forest_view(cs@);
            assert(forest_view(cs@) =~= forest_view(old_cs).push(d@));
            lemma_no_docs_push(forest_view(old_cs), d@);
        }
    }
    assert(iv.take(n as int) =~= iv);
    let title_cls = [("class", "subsectionTitle")];
    assert(ptn_view(title_cls@) =~= seq![("class"@, "subsectionTitle"@)]);
    let none: [(&str, &str); 0] = [];
    assert(ptn_view(none@) =~= no_attrs());
    let title_div = element("div", &title_cls, one(node_text(title.as_str())));
    let contents_div = element("div", &none, cs);
    let node = match node {
        DomNode::Element(n, a, mut c, ns) => {
            let mut kids: Vec<DomNode> = Vec::new();
            kids.push(title_div);
            kids.push(contents_div);
            proof {
                lemma_forest_view(kids@);
                assert(forest_view(kids@) =~= seq![title_div@, contents_div@]);
                lemma_no_docs_all(seq![DomV::Text(title@)]);
                lemma_no_docs_all(seq![title_div@, contents_div@]);
            }
            DomNode::Element(n, a, kids, ns)
        },
        other => other,
    };
    Ok(node)
}

/// Whether a list holds a number.
fn contains_usize(v: &Vec<usize>, x: usize) -> (res: bool)
    ensures
        res == v@.contains(x),
{
    let n = v.len();
    for i in 0..n
        invariant
            n == v@.len(),
            forall|j: int| 0 <= j < i ==> v@[j] != x,
    {
        if v[i] == x {
            return true;
        }
    }
    false
}

/// The static subsections under `key`, each once (`handled` holds those
/// done): a back and top link, then each child subsection followed by its
/// own. The walk goes at most `fuel` levels deep; a child whose element
/// cannot be made is passed over.
pub open spec fn subsections_spec(subs: JsonV, nodes: Seq<DomV>, handled: Seq<usize>, key: usize, fuel: nat) -> (Result<(), Seq<char>>, Seq<DomV>, Seq<usize>)
    decreases fuel, 0int,
{
    if fuel == 0 || handled.contains(key) {
        (Ok(()), nodes, handled)
    } else {
        let n1 = nodes.push(navi_back_spec());
        let h1 = handled.push(key);
        match children_indexes_spec(subs, key) {
            Err(e) => (Err(e), n1, h1),
            Ok(ci) => {
                let (n2, h2) = subsection_fold(subs, n1, h1, ci, (fuel - 1) as nat);
                (Ok(()), n2, h2)
            },
        }
    }
}

/// The child subsections, in order.
pub open spec fn subsection_fold(subs: JsonV, nodes: Seq<DomV>, handled: Seq<usize>, ci: Seq<usize>, fuel: nat) -> (Seq<DomV>, Seq<usize>)
    decreases fuel, ci.len(),
{
    if ci.len() == 0 {
        (nodes, handled)
    } else {
        let (n0, h0) = subsection_fold(subs, nodes, handled, ci.drop_last(), fuel);
        let id = ci.last();
        match subsection_built_spec(subs, id) {
            Err(_) => (n0, h0),
            Ok(node) => {
                let (_, n1, h1) = subsections_spec(subs, n0.push(node), h0, id, fuel);
                (n1, h1)
            },
        }
    }
}

/// `a` begins with `b`.
pub open spec fn extends<T>(a: Seq<T>, b: Seq<T>) -> bool {
    b.len() <= a.len() && forall|i: int| 0 <= i < b.len() ==> #[trigger] a[i] == b[i]
}

/// Every subsection walked (in `h2`, not in `h1`) whose child list can be
/// read has the element of each child that can be built among `n2`.
pub open spec fn walked_children_shown(subs: JsonV, h1: Seq<usize>, h2: Seq<usize>, n2: Seq<DomV>) -> bool {
    forall|id: usize, j: int| #![trigger h2.contains(id), children_indexes_spec(subs, id)->Ok_0[j]]
        h2.contains(id) && !h1.contains(id) && children_indexes_spec(subs, id) is Ok
        && 0 <= j < children_indexes_spec(subs, id)->Ok_0.len()
        && subsection_built_spec(subs, children_indexes_spec(subs, id)->Ok_0[j]) is Ok
        ==> n2.contains(subsection_built_spec(subs, children_indexes_spec(subs, id)->Ok_0[j])->Ok_0)
}

proof fn lemma_extends_contains<T>(a: Seq<T>, b: Seq<T>, x: T)
    requires
        extends(a, b),
        b.contains(x),
    ensures
        a.contains(x),
{
    let i = choose|i: int| 0 <= i < b.len() && b[i] == x;
    assert(a[i] == x);
}

proof fn lemma_extends_trans<T>(a: Seq<T>, b: Seq<T>, c: Seq<T>)
    requires
        extends(a, b),
        extends(b, c),
    ensures
        extends(a, c),
{
    assert forall|i: int| 0 <= i < c.len() implies #[trigger] a[i] == c[i] by {
        assert(b[i] == c[i]);
    }
}

proof fn lemma_walk(subs: JsonV, nodes: Seq<DomV>, handled: Seq<usize>, key: usize, fuel: nat)
    ensures
        ({
            let (r, n2, h2) = subsections_spec(subs, nodes, handled, key, fuel);
            &&& extends(n2, nodes)
            &&& extends(h2, handled)
            &&& fuel > 0 ==> h2.contains(key)
            &&& walked_children_shown(subs, handled, h2, n2)
        }),
    decreases fuel, 0int,
{
    let (r, n2, h2) = subsections_spec(subs, nodes, handled, key, fuel);
    if fuel == 0 || handled.contains(key) {
        assert(extends(n2, nodes));
        assert(extends(h2, handled));
    } else {
        let n1 = nodes.push(navi_back_spec());
        let h1 = handled.push(key);
        assert(extends(n1, nodes));
        assert(extends(h1, handled));
        assert(h1[handled.len() as int] == key);
        match children_indexes_spec(subs, key) {
            Err(e) => {
                assert(h1.contains(key));
                assert forall|id: usize, j: int| #![trigger h1.contains(id), children_indexes_spec(subs, id)->Ok_0[j]]
                    h1.contains(id) && !handled.contains(id) && children_indexes_spec(subs, id) is Ok
                    && 0 <= j < children_indexes_spec(subs, id)->Ok_0.len()
                    && subsection_built_spec(subs, children_indexes_spec(subs, id)->Ok_0[j]) is Ok
                    implies n1.contains(subsection_built_spec(subs, children_indexes_spec(subs, id)->Ok_0[j])->Ok_0) by {
                    let w = choose|w: int| 0 <= w < h1.len() && h1[w] == id;
                    if w < handled.len() {
                        assert(handled[w] == id);
                    }
                }
            },
            Ok(ci) => {
                lemma_fold(subs, n1, h1, ci, (fuel - 1) as nat);
                let (n3, h3) = subsection_fold(subs, n1, h1, ci, (fuel - 1) as nat);
                lemma_extends_trans(n3, n1, nodes);
                lemma_extends_trans(h3, h1, handled);
                assert(h1.contains(key));
                lemma_extends_contains(h3, h1, key);
                assert forall|id: usize, j: int| #![trigger h3.contains(id), children_indexes_spec(subs, id)->Ok_0[j]]
                    h3.contains(id) && !handled.contains(id) && children_indexes_spec(subs, id) is Ok
                    && 0 <= j < children_indexes_spec(subs, id)->Ok_0.len()
                    && subsection_built_spec(subs, children_indexes_spec(subs, id)->Ok_0[j]) is Ok
                    implies n3.contains(subsection_built_spec(subs, children_indexes_spec(subs, id)->Ok_0[j])->Ok_0) by {
                    if id == key {
                        assert(ci[j] == children_indexes_spec(subs, id)->Ok_0[j]);
                    } else {
                        if h1.contains(id) {
                            let w = choose|w: int| 0 <= w < h1.len() && h1[w] == id;
                            if w < handled.len() {
                                assert(handled[w] == id);
                            }
                        }
                    }
                }
            },
        }
    }
}

proof fn lemma_fold(subs: JsonV, nodes: Seq<DomV>, handled: Seq<usize>, ci: Seq<usize>, fuel: nat)
    ensures
        ({
            let (n2, h2) = subsection_fold(subs, nodes, handled, ci, fuel);
            &&& extends(n2, nodes)
            &&& extends(h2, handled)
            &&& walked_children_shown(subs, handled, h2, n2)
            &&& forall|j: int| 0 <= j < ci.len() && (#[trigger] subsection_built_spec(subs, ci[j])) is Ok
                ==> n2.contains(subsection_built_spec(subs, ci[j])->Ok_0)
            &&& fuel > 0 ==> forall|j: int| 0 <= j < ci.len() && (#[trigger] subsection_built_spec(subs, ci[j])) is Ok
                ==> h2.contains(ci[j])
        }),
    decreases fuel, ci.len(),
{
    let (n2, h2) = subsection_fold(subs, nodes, handled, ci, fuel);
    if ci.len() == 0 {
        assert(extends(n2, nodes));
        assert(extends(h2, handled));
    } else {
        lemma_fold(subs, nodes, handled, ci.drop_last(), fuel);
        let (n0, h0) = subsection_fold(subs, nodes, handled, ci.drop_last(), fuel);
        let id = ci.last();
        match subsection_built_spec(subs, id) {
            Err(_) => {
                assert forall|j: int| 0 <= j < ci.len() && (#[trigger] subsection_built_spec(subs, ci[j])) is Ok
                    implies n2.contains(subsection_built_spec(subs, ci[j])->Ok_0) by {
                    assert(ci.drop_last()[j] == ci[j]);
                }
                assert forall|j: int| fuel > 0 && 0 <= j < ci.len() && (#[trigger] subsection_built_spec(subs, ci[j])) is Ok
                    implies h2.contains(ci[j]) by {
                    assert(ci.drop_last()[j] == ci[j]);
                }
            },
            Ok(node) => {
                let m = n0.push(node);
                assert(extends(m, n0));
                assert(m[n0.len() as int] == node);
                assert(m.contains(node));
                lemma_walk(subs, m, h0, id, fuel);
                let (_, n1, h1) = subsections_spec(subs, m, h0, id, fuel);
                lemma_extends_trans(n1, m, n0);
                lemma_extends_trans(n1, n0, nodes);
                lemma_extends_trans(h1, h0, handled);
                lemma_extends_contains(n1, m, node);
                assert forall|j: int| 0 <= j < ci.len() && (#[trigger] subsection_built_spec(subs, ci[j])) is Ok
                    implies n1.contains(subsection_built_spec(subs, ci[j])->Ok_0) by {
                    if j < ci.len() - 1 {
                        assert(ci.drop_last()[j] == ci[j]);
                        lemma_extends_contains(n1, n0, subsection_built_spec(subs, ci[j])->Ok_0);
                    }
                }
                assert forall|j: int| fuel > 0 && 0 <= j < ci.len() && (#[trigger] subsection_built_spec(subs, ci[j])) is Ok
                    implies h1.contains(ci[j]) by {
                    if j < ci.len() - 1 {
                        assert(ci.drop_last()[j] == ci[j]);
                        lemma_extends_contains(h1, h0, ci[j]);
                    }
                }
                assert forall|x: usize, j: int| #![trigger h1.contains(x), children_indexes_spec(subs, x)->Ok_0[j]]
                    h1.contains(x) && !handled.contains(x) && children_indexes_spec(subs, x) is Ok
                    && 0 <= j < children_indexes_spec(subs, x)->Ok_0.len()
                    && subsection_built_spec(subs, children_indexes_spec(subs, x)->Ok_0[j]) is Ok
                    implies n1.contains(subsection_built_spec(subs, children_indexes_spec(subs, x)->Ok_0[j])->Ok_0) by {
                    let y = subsection_built_spec(subs, children_indexes_spec(subs, x)->Ok_0[j])->Ok_0;
                    if h0.contains(x) {
                        assert(n0.contains(y));
                        lemma_extends_contains(n1, n0, y);
                    }
                }
            },
        }
    }
}

/// The static subsections are walked all the way down: a walk that goes
/// down at least two levels from a subsection not walked yet walks each of
/// its children whose element can be built (each ends among the subsections
/// walked); and every subsection walked has the element of each of its
/// children that can be built among the nodes, which keep the nodes given
/// in front.
pub proof fn law_subsections_walk_every_child(subs: JsonV, nodes: Seq<DomV>, handled: Seq<usize>, key: usize, fuel: nat)
    ensures
        ({
            let (r, n2, h2) = subsections_spec(subs, nodes, handled, key, fuel);
            &&& extends(n2, nodes)
            &&& walked_children_shown(subs, handled, h2, n2)
            &&& (fuel >= 2 && !handled.contains(key) && children_indexes_spec(subs, key) is Ok) ==>
                forall|j: int| 0 <= j < children_indexes_spec(subs, key)->Ok_0.len()
                    && (#[trigger] subsection_built_spec(subs, children_indexes_spec(subs, key)->Ok_0[j])) is Ok
                    ==> h2.contains(children_indexes_spec(subs, key)->Ok_0[j])
        }),
{
    lemma_walk(subs, nodes, handled, key, fuel);
    if fuel >= 2 && !handled.contains(key) {
        match children_indexes_spec(subs, key) {
            Ok(ci) => lemma_fold(subs, nodes.push(navi_back_spec()), handled.push(key), ci, (fuel - 1) as nat),
            Err(_) => {},
        }
    }
}

/// Makes the static subsections under `key`.
pub fn subsections(subs: &Json, nodes: &mut Vec<DomNode>, handled: &mut Vec<usize>, key: usize, fuel: usize) -> (res: Result<(), String>)
    requires
        safe_walk(subs@, key, fuel as nat),
    ensures
        no_docs(forest_view(old(nodes)@)) ==> no_docs(forest_view(final(nodes)@)),
        ({
            let (r, n, h) = subsections_spec(subs@, forest_view(old(nodes)@), old(handled)@, key, fuel as nat);
            &&& forest_view(final(nodes)@) == n
            &&& final(handled)@ == h
            &&& (r matches Err(e) ==> res matches Err(m) && m@ == e)
            &&& (r is Ok ==> res is Ok)
        }),
    decreases fuel,
{
    if fuel == 0 || contains_usize(handled, key) {
        return Ok(());
    }
    handled.push(key);
    let ghost old_nodes = nodes@;
    let ghost ok0 = no_docs(forest_view(old_nodes));
    proof {
        lemma_forest_view(old_nodes);
    }
    nodes.push(navi_back());
    proof {
        lemma_forest_view(nodes@);
        assert(forest_view(nodes@) =~= forest_view(old_nodes).push(navi_back_spec()));
        lemma_navi_back_ok();
        lemma_no_docs_push(forest_view(old_nodes), navi_back_spec());
    }
    let children_i = subsection_children_indexes(subs, key)?;
    let ghost n1 = forest_view(nodes@);
    let ghost h1 = handled@;
    let n = children_i.len();
    assert(children_i@.take(0) =~= Seq::<usize>::empty());
    for i in 0..n
        invariant
            n == children_i@.len(),
            fuel > 0,
            forall|j: int| 0 <= j < n ==> safe_walk(subs@, #[trigger] children_i@[j], (fuel - 1) as nat),
            subsection_fold(subs@, n1, h1, children_i@.take(i as int), (fuel - 1) as nat) == (forest_view(nodes@), handled@),
            ok0 ==> no_docs(forest_view(nodes@)),
    {
        let id = children_i[i];
        assert(children_i@.take(i + 1).drop_last() =~= children_i@.take(i as int));
        assert(children_i@.take(i + 1).last() == id);
        match subsection_built(subs, id) {
            Ok(node) => {
                let ghost before = nodes@;
                proof {
                    lemma_forest_view(before);
                }
                nodes.push(node);
                proof {
                    lemma_forest_view(nodes@);
                    assert(forest_view(nodes@) =~= forest_view(before).push(node@));
                    lemma_no_docs_push(forest_view(before), node@);
                }
                let _ = subsections(subs, nodes, handled, id, fuel - 1);
            },
            Err(_) => {},
        }
    }
    assert(children_i@.take(n as int) =~= children_i@);
    Ok(())
}

/// How many levels the index and the subsection walk may go down: one more
/// than the number of subsections, which a walk that does not loop never
/// needs.
pub open spec fn walk_fuel(subs: JsonV) -> nat {
    let n = match subs {
        JsonV::Array(a) => a.len(),
        JsonV::Object(e) => e.len(),
        _ => 0,
    };
    if n < usize::MAX { n + 1 } else { n }
}

fn walk_fuel_of(subs: &Json) -> (res: usize)
    ensures
        res == walk_fuel(subs@),
{
    let n = subs.len();
    if n < usize::MAX { n + 1 } else { n }
}

/// The subsections of a page's document.
fn subsections_of(page_json: &Json) -> (res: Json)
    ensures
        res@ == jv_get_path(page_json@, subsections_path()),
{
    let keys = ["data", "subsection", "data"];
    assert(strs_view(keys@) =~= subsections_path());
    match page_json.get_path(&keys) {
        Some(s) => s.deep_clone(),
        None => Json::Null,
    }
}

/// The index of a page: refused when the document has no subsections.
pub open spec fn index_spec(j: JsonV) -> Result<DomV, Seq<char>> {
    let subs = jv_get_path(j, subsections_path());
    if subs is Null {
        Err("Failed to get subsection data!"@)
    } else {
        index_ul_spec(subs, 0, walk_fuel(subs))
    }
}

/// Makes the index of a page.
pub fn index(page_json: &Json) -> (res: Result<DomNode, String>)
    requires
        render_safe(page_json@),
    ensures
        match index_spec(page_json@) {
            Ok(d) => res matches Ok(x) && x@ == d,
            Err(e) => res matches Err(m) && m@ == e,
        },
{
    let subs = subsections_of(page_json);
    if subs.is_null() {
        return Err("Failed to get subsection data!".to_owned());
    }
    let fuel = walk_fuel_of(&subs);
    index_ul(&subs, 0, fuel)
}

pub open spec fn css_link_ptn() -> Seq<(Seq<char>, Seq<char>)> {
    seq![("href"@, "/wc.css"@)]
}

/// The page with its stylesheet link made relative to the page's place (a
/// static page does not know where it stands): the first
/// `<link href="/wc.css">` gets the path from the page to `/wc.css`. Left as
/// it is when a URL cannot be made.
pub open spec fn style_link_relative_spec(page: DomV, page_path: Seq<char>) -> DomV {
    match url_parse_result("http://127.0.0.1"@ + page_path) {
        None => page,
        Some(pu) => match url_join_result(pu.serialization, "/wc.css"@) {
            None => page,
            Some(hu) => match url_make_relative_result(pu.serialization, hu.serialization) {
                None => page,
                Some(rel) => edit_first_in(page, "link"@, css_link_ptn(), EditV::SetAttr("href"@, rel)).0,
            },
        },
    }
}

/// Makes the stylesheet link of a page relative.
pub fn style_link_relative_set(page_dom: &mut DomNode, page_path: &str)
    ensures
        final(page_dom)@ == style_link_relative_spec(old(page_dom)@, page_path@),
{
    let mut text = "http://127.0.0.1".to_owned();
    text.append(page_path);
    let page_url = match url_parse(text.as_str()) {
        Some(u) => u,
        None => return,
    };
    let href_url = match url_join(&page_url, "/wc.css") {
        Some(u) => u,
        None => return,
    };
    let relative = match url_make_relative(&page_url, &href_url) {
        Some(r) => r,
        None => return,
    };
    let ptn = [("href", "/wc.css")];
    assert(ptn_view(ptn@) =~= css_link_ptn());
    let e = Edit::SetAttr("href".to_owned(), relative);
    let _ = edit_first(page_dom, "link", &ptn, e);
}

/// The title of a page's document, empty when it has none.
pub open spec fn page_title_text(j: JsonV) -> Seq<char> {
    match jv_as_str(jv_get_path(j, crate::page_child::title_path())) {
        Some(t) => t,
        None => Seq::empty(),
    }
}

/// The page with its title appended to the first `<title>`.
pub open spec fn page_title_spec(page: DomV, j: JsonV) -> DomV {
    edit_first_in(page, "title"@, no_attrs(), EditV::PushChild(DomV::Text(page_title_text(j)))).0
}

/// Puts the title of a page's document into its `<title>`.
pub fn page_title_set(page_dom: &mut DomNode, page_json: &Json)
    ensures
        final(page_dom)@ == page_title_spec(old(page_dom)@, page_json@),
{
    let keys = ["data", "page", "title"];
    assert(strs_view(keys@) =~= crate::page_child::title_path());
    let title = match page_json.get_path(&keys) {
        Some(t) => match t.as_str() {
            Some(t) => t.to_owned(),
            None => String::new(),
        },
        None => String::new(),
    };
    let none: [(&str, &str); 0] = [];
    assert(ptn_view(none@) =~= no_attrs());
    let _ = edit_first(page_dom, "title", &none, Edit::PushChild(node_text(title.as_str())));
}

/// The page with its document, as JSON text, appended to the span that
/// holds it.
pub open spec fn page_json_set_spec(page: DomV, j: JsonV) -> DomV {
    edit_first_in(page, "span"@, crate::page_from_dom::span_ptn(), EditV::PushChild(DomV::Text(json_dump_result(j)))).0
}

/// Puts a page's document, as JSON text, into the span that holds it.
pub fn page_json_set(page_dom: &mut DomNode, page_json: &Json)
    ensures
        final(page_dom)@ == page_json_set_spec(old(page_dom)@, page_json@),
{
    let text = json_dump(page_json);
    let ptn = [("id", "page_json_str")];
    assert(ptn_view(ptn@) =~= crate::page_from_dom::span_ptn());
    let _ = edit_first(page_dom, "span", &ptn, Edit::PushChild(node_text(text.as_str())));
}

/// A few nodes without document nodes.
proof fn lemma_no_docs_seq2(a: DomV, b: DomV)
    requires
        node_ok(a),
        node_ok(b),
    ensures
        no_docs(seq![a, b]),
{
    lemma_no_docs_all(seq![a, b]);
}

proof fn lemma_no_docs_seq1(a: DomV)
    requires
        node_ok(a),
    ensures
        no_docs(seq![a]),
{
    lemma_no_docs_all(seq![a]);
}

/// The navigation entries bring in no document node.
proof fn lemma_navi_nodes_ok(items: Seq<JsonV>, k: int)
    ensures
        no_docs(navi_nodes(items, k)),
    decreases k,
{
    if k > 0 {
        lemma_navi_nodes_ok(items, k - 1);
        let t = DomV::Text(navi_title(items[k - 1]));
        lemma_no_docs_seq1(t);
        if k < items.len() {
            let a = elem("a"@, seq![("href"@, navi_href(items[k - 1]))], seq![t]);
            lemma_no_docs_seq2(a, DomV::Text(" > "@));
        } else {
            lemma_no_docs_seq1(t);
        }
        lemma_no_docs_concat(navi_nodes(items, k - 1), navi_piece(items, k - 1));
    }
}

/// The navigation bar has no document node.
proof fn lemma_navi_ok(j: JsonV)
    ensures
        navi_spec(j) matches Ok(d) ==> node_ok(d),
{
    match jv_get_path(j, navi_path()) {
        JsonV::Array(a) => lemma_navi_nodes_ok(a, a.len() as int),
        _ => {},
    }
}

/// The back and top links have no document node.
proof fn lemma_navi_back_ok()
    ensures
        node_ok(navi_back_spec()),
{
    let back = elem("a"@, seq![("href"@, "javascript:history.back()"@)], seq![DomV::Text("back"@)]);
    let top = elem("a"@, seq![("href"@, "#"@)], seq![DomV::Text("top"@)]);
    lemma_no_docs_seq1(DomV::Text("back"@));
    lemma_no_docs_seq1(DomV::Text("top"@));
    lemma_no_docs_all(seq![back, DomV::Text(" "@), top]);
}

/// The index has no document node.
proof fn lemma_index_ul_ok(subs: JsonV, key: usize, fuel: nat)
    ensures
        index_ul_spec(subs, key, fuel) matches Ok(d) ==> node_ok(d),
    decreases fuel, 0int,
{
    if fuel > 0 {
        match children_indexes_spec(subs, key) {
            Ok(ci) => lemma_index_li_fold_ok(subs, ci, (fuel - 1) as nat),
            _ => {},
        }
    }
}

proof fn lemma_index_li_fold_ok(subs: JsonV, ci: Seq<usize>, fuel: nat)
    ensures
        index_li_fold(subs, ci, fuel) matches Ok(l) ==> no_docs(l),
    decreases fuel, ci.len(),
{
    if ci.len() > 0 {
        lemma_index_li_fold_ok(subs, ci.drop_last(), fuel);
        let id = ci.last();
        lemma_index_ul_ok(subs, id, fuel);
        match index_li_fold(subs, ci, fuel) {
            Ok(l) => {
                let prev = index_li_fold(subs, ci.drop_last(), fuel)->Ok_0;
                let sj = jv_get(subs, decimal(id as nat));
                let href = jv_as_str(jv_get(sj, "href"@))->Some_0;
                let title = jv_as_str(jv_get(sj, "title"@))->Some_0;
                let ul = index_ul_spec(subs, id, fuel)->Ok_0;
                let a = elem("a"@, seq![("href"@, href)], seq![DomV::Text(title)]);
                lemma_no_docs_seq1(DomV::Text(title));
                lemma_no_docs_seq2(a, ul);
                lemma_no_docs_push(prev, elem("li"@, no_attrs(), seq![a, ul]));
            },
            _ => {},
        }
    }
}

/// The subsections of a document.
pub open spec fn subsections_of_spec(j: JsonV) -> JsonV {
    jv_get_path(j, subsections_path())
}

/// Making the stylesheet link relative brings in no document node.
proof fn lemma_style_link_ok(page: DomV, page_path: Seq<char>)
    ensures
        no_inner_docs(page) ==> no_inner_docs(style_link_relative_spec(page, page_path)),
{
    if no_inner_docs(page) {
        match url_parse_result("http://127.0.0.1"@ + page_path) {
            Some(pu) => match url_join_result(pu.serialization, "/wc.css"@) {
                Some(hu) => match url_make_relative_result(pu.serialization, hu.serialization) {
                    Some(rel) => lemma_edit_in_keeps_no_docs(page, "link"@, css_link_ptn(), EditV::SetAttr("href"@, rel)),
                    None => {},
                },
                None => {},
            },
            None => {},
        }
    }
}

/// Writing a page's document into its span and reading the span again
/// gives the document's JSON text back, when the span was empty; read as
/// JSON, that is the page's document.
pub proof fn lemma_json_set_then_read(page: DomV, j: JsonV)
    requires
        page is Document || page is Element,
        first_match_spec(children_of(page), "span"@, crate::page_from_dom::span_ptn(), true) matches Some(s)
            && children_of(s).len() == 0,
    ensures
        crate::page_from_dom::span_json_str_spec(page_json_set_spec(page, j)) == Some(json_dump_result(j)),
        crate::page_from_dom::json_from_dom_span_spec(page_json_set_spec(page, j))
            == crate::json_value::json_parse_result(json_dump_result(j)),
{
    let ptn = crate::page_from_dom::span_ptn();
    let t = DomV::Text(json_dump_result(j));
    crate::dom::lemma_push_then_find(children_of(page), "span"@, ptn, t);
    crate::dom::lemma_first_match_matches(children_of(page), "span"@, ptn, true);
    let s = first_match_spec(children_of(page), "span"@, ptn, true).unwrap();
    let (c2, done) = crate::dom::edit_first_spec(children_of(page), "span"@, ptn, EditV::PushChild(t));
    assert(children_of(page_json_set_spec(page, j)) == c2);
    assert(children_of(crate::dom::with_child(s, t)) =~= seq![t]);
}

/// The static part of a page: in a `<div id="page_top_node">` appended to
/// the body, the navigation, the words `static page`, the index, the
/// subsections and a spacer. The stylesheet link is made relative first;
/// when a part cannot be made, the page keeps only that change and the
/// reason is given.
pub open spec fn page_html_static_spec(page: DomV, page_path: Seq<char>, j: JsonV) -> (DomV, Result<(), Seq<char>>) {
    let p1 = style_link_relative_spec(page, page_path);
    if first_match_spec(children_of(p1), "body"@, no_attrs(), true) is None {
        (p1, Err("Failedto get body element"@))
    } else {
        match navi_spec(j) {
            Err(e) => (p1, Err(e)),
            Ok(nv) => match index_spec(j) {
                Err(e) => (p1, Err(e)),
                Ok(ix) => {
                    let subs = jv_get_path(j, subsections_path());
                    let (r, nodes, _) = subsections_spec(subs, Seq::empty(), Seq::empty(), 0, walk_fuel(subs));
                    match r {
                        Err(e) => (p1, Err(e)),
                        Ok(_) => {
                            let top = elem("div"@, crate::page_from_dom::page_top_ptn(), seq![
                                nv,
                                DomV::Text("static page"@),
                                ix,
                                elem("div"@, no_attrs(), nodes),
                                elem("div"@, no_attrs(), seq![DomV::Text("----"@)]),
                            ]);
                            (edit_first_in(p1, "body"@, no_attrs(), EditV::PushChild(top)).0, Ok(()))
                        },
                    }
                },
            },
        }
    }
}

/// Adds the static part of a page.
pub fn page_html_static_set(page_dom: &mut DomNode, page_path: &str, page_json: &Json) -> (res: Result<(), String>)
    requires
        render_safe(page_json@),
    ensures
        ({
            let (d, r) = page_html_static_spec(old(page_dom)@, page_path@, page_json@);
            &&& final(page_dom)@ == d
            &&& match r {
                Ok(_) => res is Ok,
                Err(e) => res matches Err(m) && m@ == e,
            }
        }),
        no_inner_docs(old(page_dom)@) ==> no_inner_docs(final(page_dom)@),
{
    let ghost ok0 = no_inner_docs(page_dom@);
    proof {
        lemma_style_link_ok(page_dom@, page_path@);
    }
    style_link_relative_set(page_dom, page_path);
    let none: [(&str, &str); 0] = [];
    assert(ptn_view(none@) =~= no_attrs());
    if child_match_first(page_dom, "body", &none, true).is_none() {
        return Err("Failedto get body element".to_owned());
    }
    let nv = navi(page_json)?;
    let ix = index(page_json)?;
    let subs = subsections_of(page_json);
    let fuel = walk_fuel_of(&subs);
    let mut nodes: Vec<DomNode> = Vec::new();
    let mut handled: Vec<usize> = Vec::new();
    assert(forest_view(nodes@) =~= Seq::<DomV>::empty());
    assert(handled@ =~= Seq::<usize>::empty());
    subsections(&subs, &mut nodes, &mut handled, 0, fuel)?;
    let top_attrs = [("id", "page_top_node")];
    assert(ptn_view(top_attrs@) =~= crate::page_from_dom::page_top_ptn());
    let mut kids: Vec<DomNode> = Vec::new();
    kids.push(nv);
    kids.push(node_text("static page"));
    kids.push(ix);
    kids.push(element("div", &none, nodes));
    kids.push(element("div", &none, one(node_text("----"))));
    proof {
        lemma_forest_view(kids@);
        assert(forest_view(kids@) =~= seq![
            nv@,
            DomV::Text("static page"@),
            ix@,
            elem("div"@, no_attrs(), forest_view(nodes@)),
            elem("div"@, no_attrs(), seq![DomV::Text("----"@)]),
        ]);
        lemma_navi_ok(page_json@);
        lemma_index_ul_ok(subsections_of_spec(page_json@), 0, walk_fuel(subsections_of_spec(page_json@)));
        lemma_no_docs_all(seq![DomV::Text("----"@)]);
        lemma_no_docs_all(forest_view(kids@));
    }
    let top = element("div", &top_attrs, kids);
    proof {
        if ok0 {
            lemma_edit_in_keeps_no_docs(page_dom@, "body"@, no_attrs(), EditV::PushChild(top@));
        }
    }
    let _ = edit_first(page_dom, "body", &none, Edit::PushChild(top));
    Ok(())
}

/// The document of a page made from its JSON: the plain page with its
/// title, its JSON text and, when it can be made, its static part.
pub open spec fn page_dom_spec(page_path: Seq<char>, j: JsonV) -> DomV {
    let d0 = html_parse_result(PAGE_HTML_PLAIN@);
    let d1 = page_title_spec(d0, j);
    let d2 = page_json_set_spec(d1, j);
    page_html_static_spec(d2, page_path, j).0
}

/// Makes the document of a page from its JSON; it is always made.
pub fn page_dom_from_json(page_path: &str, page_json: &Json) -> (res: Result<DomNode, String>)
    requires
        render_safe(page_json@),
    ensures
        res matches Ok(d) && d@ == page_dom_spec(page_path@, page_json@),
        no_inner_docs(page_dom_spec(page_path@, page_json@)),
{
    let mut page_dom = html_parse(page_html_plain());
    proof {
        lemma_no_docs_all(seq![DomV::Text(page_title_text(page_json@))]);
        lemma_edit_in_keeps_no_docs(page_dom@, "title"@, no_attrs(), EditV::PushChild(DomV::Text(page_title_text(page_json@))));
    }
    page_title_set(&mut page_dom, page_json);
    proof {
        let t = DomV::Text(json_dump_result(page_json@));
        lemma_no_docs_all(seq![t]);
        lemma_edit_in_keeps_no_docs(page_dom@, "span"@, crate::page_from_dom::span_ptn(), EditV::PushChild(t));
    }
    page_json_set(&mut page_dom, page_json);
    let _ = page_html_static_set(&mut page_dom, page_path, page_json);
    Ok(page_dom)
}

/// The HTML source of a page made from its JSON.
pub open spec fn source_from_json_spec(page_path: Seq<char>, j: JsonV) -> Seq<u8> {
    html_serialize_result(page_dom_spec(page_path, j))
}

/// Makes the HTML source of a page from its JSON.
pub fn source_from_json(page_path: &str, page_json: &Json) -> (res: Vec<u8>)
    requires
        render_safe(page_json@),
    ensures
        res@ == source_from_json_spec(page_path@, page_json@),
{
    match page_dom_from_json(page_path, page_json) {
        Ok(d) => html_serialize(&d),
        Err(_) => Vec::new(),
    }
}

/// Whether reading a child id would panic.
fn child_item_panics_exec(v: &Json) -> (res: bool)
    ensures
        res == child_item_panics(v@),
{
    match v {
        Json::Number(n) => !(n.positive && n.exponent == 0 && n.mantissa <= usize::MAX as u64),
        Json::Short(_) | Json::Str(_) => true,
        _ => false,
    }
}

/// Whether reading the child ids of a list would panic.
fn child_list_panics_exec(items: &Vec<Json>) -> (res: bool)
    ensures
        res == child_list_panics(items_view(items@)),
{
    let ghost iv = items_view(items@);
    proof {
        lemma_items_view(items@);
    }
    let n = items.len();
    for i in 0..n
        invariant
            n == items@.len(),
            iv == items_view(items@),
            iv.len() == n,
            forall|x: int| 0 <= x < n ==> #[trigger] iv[x] == items@[x]@,
            forall|j: int| 0 <= j < i ==> #[trigger] iv[j] is Number && !child_item_panics(iv[j]),
    {
        if child_item_panics_exec(&items[i]) {
            assert(child_item_panics(iv[i as int]));
            return true;
        }
        match &items[i] {
            Json::Number(_) => {},
            _ => {
                proof {
                    assert(iv[i as int] !is Number);
                    assert forall|k: int| 0 <= k < iv.len() && child_item_panics(iv[k]) implies
                        !(forall|j: int| 0 <= j < k ==> #[trigger] iv[j] is Number && !child_item_panics(iv[j])) by {
                        if k > i {
                            assert(!(iv[i as int] is Number && !child_item_panics(iv[i as int])));
                        }
                    }
                }
                return false;
            },
        }
    }
    false
}

/// Whether the child list of subsection `key` can be read without a panic.
fn list_at_safe_check(subs: &Json, key: usize) -> (res: bool)
    ensures
        res == list_at_safe(subs@, key),
{
    let key_str = usize_to_string(key);
    let parent = match subs.get(key_str.as_str()) {
        Some(p) => p,
        None => return true,
    };
    match parent.get("child") {
        Some(Json::Array(items)) => !child_list_panics_exec(items),
        _ => true,
    }
}

/// Whether every child list that a walk from subsection `key` down at most
/// `fuel` levels reads can be read without a panic.
fn safe_walk_check(subs: &Json, key: usize, fuel: usize) -> (res: bool)
    ensures
        res == safe_walk(subs@, key, fuel as nat),
    decreases fuel,
{
    if fuel == 0 {
        return true;
    }
    if !list_at_safe_check(subs, key) {
        return false;
    }
    let children_i = match subsection_children_indexes(subs, key) {
        Ok(c) => c,
        Err(_) => return true,
    };
    let n = children_i.len();
    for i in 0..n
        invariant
            n == children_i@.len(),
            fuel > 0,
            children_indexes_spec(subs@, key) == Ok::<Seq<usize>, Seq<char>>(children_i@),
            forall|j: int| 0 <= j < i ==> safe_walk(subs@, #[trigger] children_i@[j], (fuel - 1) as nat),
    {
        if !safe_walk_check(subs, children_i[i], fuel - 1) {
            proof {
                lemma_unsafe_child(subs@, key, fuel as nat, children_i@, i as int);
            }
            return false;
        }
    }
    true
}

/// A walk that reaches a child whose own walk is unsafe is unsafe.
proof fn lemma_unsafe_child(subs: JsonV, key: usize, fuel: nat, ci: Seq<usize>, i: int)
    requires
        fuel > 0,
        children_indexes_spec(subs, key) == Ok::<Seq<usize>, Seq<char>>(ci),
        0 <= i < ci.len(),
        !safe_walk(subs, ci[i], (fuel - 1) as nat),
    ensures
        !safe_walk(subs, key, fuel),
{
    if safe_walk(subs, key, fuel) {
        assert(list_at_safe(subs, key));
        assert(children_indexes_spec(subs, key) is Ok);
        let c2 = children_indexes_spec(subs, key)->Ok_0;
        assert(c2 == ci);
        assert(forall|j: int| 0 <= j < c2.len() ==> safe_walk(subs, #[trigger] c2[j], (fuel - 1) as nat));
        assert(safe_walk(subs, c2[i], (fuel - 1) as nat));
    }
}

/// Whether a page's document can be rendered without a panic (see
/// `render_safe`).
pub fn render_safe_check(page_json: &Json) -> (res: bool)
    ensures
        res == render_safe(page_json@),
{
    let subs = subsections_of(page_json);
    let fuel = walk_fuel_of(&subs);
    safe_walk_check(&subs, 0, fuel)
}

} // verus!
