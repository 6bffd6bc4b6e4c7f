//! Moving a page, and the pages under it, to another place: the moved
//! documents, with their hrefs rewritten, and the notes left at the old
//! place.
use vstd::prelude::*;
use vstd::utf8::{valid_utf8, decode_utf8, encode_utf8};
use crate::regex_calls::{regex_find, regex_find_result, regex_captures, regex_captures_result};
use crate::text_html::push_all;
use crate::http::string_from_utf8;
use crate::url_parts::{UrlParts, UrlV, href_on, href_on_spec, url_join, url_join_result};
use crate::json_value::{Json, JsonV, json_dump, json_dump_result, entry_push, entries_view, lemma_entries_view, lemma_entries_view_empty, jv_get, jv_set, jv_at, jv_is_empty, jv_as_str, jv_string, jv_get_path, jv_set_path, strs_view, items_view, lemma_items_view, lemma_set_path_twice};
use crate::page_child::{navi_path, title_path};
use crate::page_json::{PageJson, pj_moved_to, subsections_path, moved_to_path, page_json_plain, page_json_plain_spec};
use crate::strings::{decimal, push_decimal_u64, string_views};

verus! {

/// A run of backslashes at the end of the text.
pub const ESC_RUN_PATTERN: &'static str = r"(\\+)$";

/// The start of an `href` attribute up to its opening quote.
pub const HREF_PATTERN: &'static str = r#"(?i)\s*href\s*=\s*["']"#;

/// The opening of an anchor element.
pub const ANCHOR_PATTERN: &'static str = "<a";

/// Whether the text ends with an odd number of backslashes, so that what
/// follows it is escaped.
pub open spec fn escaped_before(s: Seq<u8>) -> bool {
    match regex_captures_result(ESC_RUN_PATTERN@, s) {
        Some(g) => g.len() > 1 && (g[1] matches Some((a, b)) && (b - a) % 2 == 1),
        None => false,
    }
}

/// The first match of `ptn` at or after `start` that is not escaped by a
/// backslash: its start and end. A match whose end does not move past
/// `start` ends the search.
pub open spec fn pos_not_escaped_spec(s: Seq<u8>, start: int, ptn: Seq<char>) -> Option<(int, int)>
    decreases s.len() - start,
{
    if start < 0 || s.len() <= start {
        None
    } else {
        match regex_find_result(ptn, s.subrange(start, s.len() as int)) {
            None => None,
            Some((ms, me)) => {
                let ptn_start = start + ms;
                let next = start + me;
                if escaped_before(s.subrange(start, ptn_start)) {
                    if next <= start || next > s.len() {
                        None
                    } else {
                        pos_not_escaped_spec(s, next, ptn)
                    }
                } else {
                    Some((ptn_start, next))
                }
            },
        }
    }
}

/// Whether the text ends with an odd number of backslashes.
fn escaped_before_exec(s: &[u8]) -> (res: bool)
    ensures
        res == escaped_before(s@),
{
    match regex_captures(ESC_RUN_PATTERN, s) {
        Some(g) => {
            if g.len() > 1 {
                match g[1] {
                    Some((a, b)) => (b - a) % 2 == 1,
                    None => false,
                }
            } else {
                false
            }
        },
        None => false,
    }
}

/// Finds the first match of `ptn` at or after `search_start` that is not
/// escaped by a backslash.
pub fn pos_not_escaped(s: &[u8], search_start: usize, ptn: &str) -> (res: Option<(usize, usize)>)
    ensures
        match res {
            Some((a, b)) => pos_not_escaped_spec(s@, search_start as int, ptn@) == Some((a as int, b as int))
                && search_start <= a <= b <= s@.len(),
            None => pos_not_escaped_spec(s@, search_start as int, ptn@) is None,
        },
{
    let mut index_start = search_start;
    let len = s.len();
    loop
        invariant
            len == s@.len(),
            search_start <= index_start,
            pos_not_escaped_spec(s@, search_start as int, ptn@) == pos_not_escaped_spec(s@, index_start as int, ptn@),
        decreases len - index_start,
    {
        if len <= index_start {
            return None;
        }
        let (ms, me) = match regex_find(ptn, &s[index_start..len]) {
            Some(m) => m,
            None => return None,
        };
        let ptn_start = index_start + ms;
        let escaped = escaped_before_exec(&s[index_start..ptn_start]);
        assert(s@.subrange(index_start as int, ptn_start as int) == s@.subrange(index_start as int, len as int).subrange(0, ms as int));
        let next = index_start + me;
        if escaped {
            if next <= index_start || next > len {
                return None;
            }
            index_start = next;
        } else {
            return Some((ptn_start, next));
        }
    }
}

/// Where the next `href` of an anchor at or after `search_start` lies: the
/// whole attribute (from the blanks before `href` to the closing quote) and
/// the value between the quotes.
pub open spec fn href_pos_spec(s: Seq<u8>, search_start: int) -> Option<(int, int, int, int)> {
    match pos_not_escaped_spec(s, search_start, ANCHOR_PATTERN@) {
        None => None,
        Some((_a_start, a_end)) => {
            if a_end > s.len() {
                None
            } else {
                match regex_find_result(HREF_PATTERN@, s.subrange(a_end, s.len() as int)) {
                    None => None,
                    Some((ms, me)) => {
                        let href_start = a_end + ms;
                        let q1_end = a_end + me;
                        if q1_end < 1 {
                            None
                        } else {
                            let quote = s.subrange(q1_end - 1, q1_end);
                            if !valid_utf8(quote) {
                                None
                            } else {
                                match pos_not_escaped_spec(s, q1_end, decode_utf8(quote)) {
                                    None => None,
                                    Some((q2_start, q2_end)) => Some((href_start, q2_end, q1_end, q2_start)),
                                }
                            }
                        }
                    },
                }
            }
        },
    }
}

/// Finds the next `href` of an anchor.
pub fn href_pos(s: &[u8], search_start: usize) -> (res: Option<(usize, usize, usize, usize)>)
    ensures
        match res {
            Some((hs, he, vs, ve)) => href_pos_spec(s@, search_start as int) == Some((hs as int, he as int, vs as int, ve as int))
                && search_start <= hs <= vs <= ve <= he <= s@.len(),
            None => href_pos_spec(s@, search_start as int) is None,
        },
{
    let (_a_start, a_end) = pos_not_escaped(s, search_start, ANCHOR_PATTERN)?;
    let len = s.len();
    let (ms, me) = regex_find(HREF_PATTERN, &s[a_end..len])?;
    let href_start = a_end + ms;
    let q1_end = a_end + me;
    if q1_end < 1 {
        return None;
    }
    let q1_start = q1_end - 1;
    let quote = string_from_utf8(&s[q1_start..q1_end])?;
    let (q2_start, q2_end) = pos_not_escaped(s, q1_end, quote.as_str())?;
    Some((href_start, q2_end, q1_end, q2_start))
}

/// The attribute written in place of an href: ` href="<dest>"`.
pub open spec fn href_attr(dest: Seq<char>) -> Seq<u8> {
    encode_utf8(" href=\""@ + dest + "\""@)
}

/// The content from `index` on with each anchor's href rewritten for the
/// page's new place (`href_on`); an href that cannot be rewritten is kept.
/// A step that would not move forward ends the rewriting.
pub open spec fn href_convert_from(content: Seq<u8>, index: int, org_url: UrlV) -> Seq<u8>
    decreases content.len() - index,
{
    if index < 0 || content.len() <= index {
        content
    } else {
        match href_pos_spec(content, index) {
            None => content,
            Some((hs, he, vs, ve)) => {
                if !(index <= hs <= vs <= ve <= he <= content.len()) || ve <= index {
                    content
                } else {
                    let org_href = content.subrange(vs, ve);
                    let moved = if valid_utf8(org_href) { href_on_spec(org_url, decode_utf8(org_href)) } else { None };
                    match moved {
                        None => href_convert_from(content, ve, org_url),
                        Some((dest, _)) => {
                            let eq = href_attr(dest);
                            let next = content.subrange(0, hs) + eq + content.subrange(he, content.len() as int);
                            href_convert_from(next, hs + eq.len(), org_url)
                        },
                    }
                }
            },
        }
    }
}

/// The content with every anchor's href rewritten for the page's new place.
pub open spec fn content_href_convert_spec(org_content: Seq<char>, org_url: UrlV) -> Seq<char> {
    let out = href_convert_from(encode_utf8(org_content), 0, org_url);
    if valid_utf8(out) { decode_utf8(out) } else { org_content }
}

/// Rewrites each anchor's href of a content for the page's new place.
pub fn page_move_content_href_convert(org_content: &str, org_url: &UrlParts) -> (res: String)
    ensures
        res@ == content_href_convert_spec(org_content@, org_url@),
{
    let mut content: Vec<u8> = Vec::new();
    push_all(&mut content, org_content.as_bytes());
    let mut index: usize = 0;
    loop
        invariant
            href_convert_from(content@, index as int, org_url@) == href_convert_from(encode_utf8(org_content@), 0, org_url@),
            index <= content@.len(),
        ensures
            href_convert_from(content@, index as int, org_url@) == content@,
            content@ == href_convert_from(encode_utf8(org_content@), 0, org_url@),
        decreases content@.len() - index,
    {
        if content.len() <= index {
            break;
        }
        let (hs, he, vs, ve) = match href_pos(content.as_slice(), index) {
            Some(p) => p,
            None => break,
        };
        if ve <= index {
            break;
        }
        let moved = match string_from_utf8(&content[vs..ve]) {
            Some(org_href) => href_on(org_url, org_href.as_str()),
            None => None,
        };
        match moved {
            None => {
                index = ve;
            },
            Some((dest, _is_child)) => {
                let mut eq_text = " href=\"".to_owned();
                eq_text.append(dest.as_str());
                eq_text.append("\"");
                let eq = eq_text.as_str().as_bytes();
                let mut next: Vec<u8> = Vec::new();
                push_all(&mut next, &content[0..hs]);
                push_all(&mut next, eq);
                let clen = content.len();
                push_all(&mut next, &content[he..clen]);
                assert(eq@ == href_attr(dest@));
                assert(next@ =~= content@.subrange(0, hs as int) + eq@ + content@.subrange(he as int, clen as int));
                assert(next@.len() == hs + eq@.len() + (clen - he));
                let nlen = next.len();
                let step = nlen - (clen - he);
                assert(step == hs + eq@.len());
                content = next;
                index = step;
            },
        }
    }
    match string_from_utf8(content.as_slice()) {
        Some(s) => s,
        None => org_content.to_owned(),
    }
}

pub open spec fn system_path() -> Seq<Seq<char>> {
    seq!["system"@]
}

pub open spec fn page_path_keys() -> Seq<Seq<char>> {
    seq!["data"@, "page"@]
}

/// The moved document takes the old one's system and page records.
pub open spec fn move_system_and_spec(dest: JsonV, org: JsonV) -> JsonV {
    jv_set_path(jv_set_path(dest, system_path(), jv_get_path(org, system_path())), page_path_keys(), jv_get_path(org, page_path_keys()))
}

/// Copies the system and page records into the moved document.
pub fn page_move_system_and(dest_json: &mut Json, org_json: &Json)
    ensures
        final(dest_json)@ == move_system_and_spec(old(dest_json)@, org_json@),
{
    let system_keys = ["system"];
    assert(strs_view(system_keys@) =~= system_path());
    let page_keys = ["data", "page"];
    assert(strs_view(page_keys@) =~= page_path_keys());
    let system = match org_json.get_path(&system_keys) {
        Some(v) => v.deep_clone(),
        None => Json::Null,
    };
    dest_json.set_path(&system_keys, system);
    let page = match org_json.get_path(&page_keys) {
        Some(v) => v.deep_clone(),
        None => Json::Null,
    };
    dest_json.set_path(&page_keys, page);
}

/// Appends items to an array; any other value stays as it is.
pub open spec fn jv_push_all(a: JsonV, items: Seq<JsonV>) -> JsonV {
    match a {
        JsonV::Array(v) => JsonV::Array(v + items),
        _ => a,
    }
}

/// The navigation entries that a moved page gets from its new parent: each
/// of the parent's entries with its title (`no title` when it has none)
/// and its href read from the parent's URL, kept as a path (empty when it
/// cannot be read). None without a parent, its document or a navigation
/// array.
pub open spec fn navi_parent_items(parent_url: Option<UrlV>, parent_json: Option<JsonV>) -> Seq<JsonV> {
    match (parent_url, parent_json) {
        (Some(pu), Some(pj)) => match jv_get_path(pj, navi_path()) {
            JsonV::Array(items) => items.map_values(|nv: JsonV| navi_parent_item(nv, pu)),
            _ => Seq::empty(),
        },
        _ => Seq::empty(),
    }
}

pub open spec fn navi_parent_item(nv: JsonV, parent_url: UrlV) -> JsonV {
    let title = match jv_as_str(jv_at(nv, 0)) {
        Some(t) => t,
        None => "no title"@,
    };
    let href = match jv_as_str(jv_at(nv, 1)) {
        Some(h) => h,
        None => Seq::empty(),
    };
    let path = match url_join_result(parent_url.serialization, href) {
        Some(u) => u.path,
        None => Seq::empty(),
    };
    JsonV::Array(seq![jv_string(title), JsonV::Str(path)])
}

/// The moved document's navigation: its parent's entries, then its own
/// title (`no title` when it has none) with an empty href.
pub open spec fn move_navi_spec(dest: JsonV, parent_url: Option<UrlV>, parent_json: Option<JsonV>) -> JsonV {
    let title = match jv_as_str(jv_get_path(dest, title_path())) {
        Some(t) => t,
        None => "no title"@,
    };
    let own = JsonV::Array(seq![JsonV::Str(title), JsonV::Short(Seq::empty())]);
    jv_set_path(dest, navi_path(), jv_push_all(jv_get_path(dest, navi_path()), navi_parent_items(parent_url, parent_json).push(own)))
}

fn opt_url_view(u: Option<&UrlParts>) -> (res: Ghost<Option<UrlV>>)
    ensures
        res@ == match u {
            Some(x) => Some(x@),
            None => None::<UrlV>,
        },
{
    Ghost(match u {
        Some(x) => Some(x@),
        None => None,
    })
}

pub open spec fn opt_json_view(j: Option<&Json>) -> Option<JsonV> {
    match j {
        Some(x) => Some(x@),
        None => None,
    }
}

pub open spec fn opt_url(u: Option<&UrlParts>) -> Option<UrlV> {
    match u {
        Some(x) => Some(x@),
        None => None,
    }
}

/// The entries a moved page gets from its new parent.
fn page_move_navi_parent(dest_parent_url: Option<&UrlParts>, dest_parent_json: Option<&Json>) -> (res: Vec<Json>)
    ensures
        items_view(res@) == navi_parent_items(opt_url(dest_parent_url), opt_json_view(dest_parent_json)),
{
    let mut out: Vec<Json> = Vec::new();
    proof {
        assert(items_view(out@) =~= Seq::<JsonV>::empty());
    }
    let parent_url = match dest_parent_url {
        Some(u) => u,
        None => return out,
    };
    let parent_json = match dest_parent_json {
        Some(j) => j,
        None => return out,
    };
    let keys = ["data", "navi"];
    assert(strs_view(keys@) =~= navi_path());
    let parent_navi = match parent_json.get_path(&keys) {
        Some(Json::Array(items)) => items,
        _ => return out,
    };
    let ghost pv = items_view(parent_navi@);
    proof {
        lemma_items_view(parent_navi@);
    }
    let n = parent_navi.len();
    for i in 0..n
        invariant
            n == parent_navi@.len(),
            pv == items_view(parent_navi@),
            pv.len() == n,
            forall|x: int| 0 <= x < n ==> #[trigger] pv[x] == parent_navi@[x]@,
            items_view(out@) =~= pv.take(i as int).map_values(|nv: JsonV| navi_parent_item(nv, parent_url@)),
    {
        let nv = &parent_navi[i];
        let title = match nv.at(0) {
            Some(t) => match t.as_str() {
                Some(t) => t,
                None => "no title",
            },
            None => "no title",
        };
        let href = match nv.at(1) {
            Some(h) => match h.as_str() {
                Some(h) => h,
                None => "",
            },
            None => "",
        };
        proof {
            reveal_strlit("");
            assert(""@ =~= Seq::<char>::empty());
        }
        let path = match url_join(parent_url, href) {
            Some(u) => u.path,
            None => String::new(),
        };
        let mut item = Json::new_array();
        item.push(Json::string(title));
        item.push(Json::Str(path));
        assert(item@->Array_0 =~= navi_parent_item(pv[i as int], parent_url@)->Array_0);
        let ghost before = out@;
        out.push(item);
        proof {
            assert(out@.drop_last() =~= before);
            assert(pv.take(i + 1) =~= pv.take(i as int).push(pv[i as int]));
        }
    }
    assert(pv.take(n as int) =~= pv);
    out
}

/// Writes the moved document's navigation.
pub fn page_move_navi(dest_json: &mut Json, dest_parent_url: Option<&UrlParts>, dest_parent_json: Option<&Json>)
    ensures
        final(dest_json)@ == move_navi_spec(old(dest_json)@, opt_url(dest_parent_url), opt_json_view(dest_parent_json)),
{
    let title_keys = ["data", "page", "title"];
    assert(strs_view(title_keys@) =~= title_path());
    let title = match dest_json.get_path(&title_keys) {
        Some(t) => match t.as_str() {
            Some(t) => t.to_owned(),
            None => "no title".to_owned(),
        },
        None => "no title".to_owned(),
    };
    let items = page_move_navi_parent(dest_parent_url, dest_parent_json);
    let keys = ["data", "navi"];
    assert(strs_view(keys@) =~= navi_path());
    let ghost d0 = dest_json@;
    let mut navi = dest_json.take_path(&keys);
    let ghost n0 = navi@;
    let ghost iv = items_view(items@);
    proof {
        lemma_items_view(items@);
    }
    let m = items.len();
    let mut idx: usize = 0;
    while idx < m
        invariant
            m == items@.len(),
            iv == items_view(items@),
            iv.len() == m,
            forall|x: int| 0 <= x < m ==> #[trigger] iv[x] == items@[x]@,
            idx <= m,
            navi@ == jv_push_all(n0, iv.take(idx as int)),
        decreases m - idx,
    {
        let item = items[idx].deep_clone();
        navi.push(item);
        proof {
            match n0 {
                JsonV::Array(v) => {
                    assert(v + iv.take(idx + 1) =~= (v + iv.take(idx as int)).push(iv[idx as int]));
                },
                _ => {},
            }
        }
        idx = idx + 1;
    }
    let mut own = Json::new_array();
    own.push(Json::Str(title));
    own.push(Json::Short(String::new()));
    let ghost own_v = JsonV::Array(seq![JsonV::Str(title@), JsonV::Short(Seq::empty())]);
    assert(own@->Array_0 =~= own_v->Array_0);
    let ghost before_own = navi@;
    assert(iv.take(m as int) =~= iv);
    navi.push(own);
    proof {
        match n0 {
            JsonV::Array(v) => {
                assert((v + iv).push(own_v) =~= v + iv.push(own_v));
                assert(navi@ == jv_push_all(n0, iv.push(own_v)));
            },
            _ => {
                assert(navi@ == jv_push_all(n0, iv.push(own_v)));
            },
        }
    }
    let ghost n1 = navi@;
    dest_json.set_path(&keys, navi);
    proof {
        lemma_set_path_twice(d0, navi_path(), JsonV::Null, n1);
    }
}

/// The id of a subsection as text: an integer number is written in decimal
/// (with `-` when negative); any other number as JSON writes it; a string
/// as it is; anything else as the empty text.
pub open spec fn id_text_spec(id: JsonV) -> Seq<char> {
    match id {
        JsonV::Number(n) => {
            if n.exponent == 0 && n.mantissa <= 0x20000000000000 {
                (if n.positive { Seq::empty() } else { "-"@ }) + decimal(n.mantissa as nat)
            } else {
                json_dump_result(id)
            }
        },
        _ => match jv_as_str(id) {
            Some(s) => s,
            None => Seq::empty(),
        },
    }
}

/// The id of a subsection as text.
pub fn id_text(id: &Json) -> (res: String)
    ensures
        res@ == id_text_spec(id@),
{
    match id {
        Json::Number(n) => {
            if n.exponent == 0 && n.mantissa <= 0x20000000000000 {
                let mut t = if n.positive { String::new() } else { "-".to_owned() };
                push_decimal_u64(&mut t, n.mantissa);
                t
            } else {
                json_dump(id)
            }
        },
        _ => match id.as_str() {
            Some(s) => s.to_owned(),
            None => String::new(),
        },
    }
}

/// The moved subsection takes the old one's parent, title and children, and
/// its id as text.
pub open spec fn title_and_spec(dest: JsonV, sub: JsonV) -> JsonV {
    let d1 = jv_set(dest, "parent"@, jv_get(sub, "parent"@));
    let d2 = jv_set(d1, "title"@, jv_get(sub, "title"@));
    let d3 = jv_set(d2, "child"@, jv_get(sub, "child"@));
    jv_set(d3, "id"@, JsonV::Str(id_text_spec(jv_get(sub, "id"@))))
}

fn field_clone(j: &Json, key: &str) -> (res: Json)
    ensures
        res@ == jv_get(j@, key@),
{
    match j.get(key) {
        Some(v) => v.deep_clone(),
        None => Json::Null,
    }
}

/// Copies the parent, title, children and id of a subsection.
pub fn page_move_subsection_title_and(subsection: &Json, dest_subsection: &mut Json)
    ensures
        final(dest_subsection)@ == title_and_spec(old(dest_subsection)@, subsection@),
{
    dest_subsection.set("parent", field_clone(subsection, "parent"));
    dest_subsection.set("title", field_clone(subsection, "title"));
    dest_subsection.set("child", field_clone(subsection, "child"));
    let id = field_clone(subsection, "id");
    dest_subsection.set("id", Json::Str(id_text(&id)));
}

/// A moved content item: its type, and its text with the hrefs rewritten.
pub open spec fn move_content_item(c: JsonV, org_url: UrlV) -> JsonV {
    let v = match jv_as_str(jv_get(c, "value"@)) {
        Some(v) => v,
        None => Seq::empty(),
    };
    JsonV::Object(seq![("type"@, jv_get(c, "type"@)), ("value"@, JsonV::Str(content_href_convert_spec(v, org_url)))])
}

/// The moved contents of a subsection; they must form an array.
pub open spec fn move_contents_spec(contents: JsonV, org_url: UrlV) -> Result<JsonV, Seq<char>> {
    match contents {
        JsonV::Array(items) => Ok(JsonV::Array(items.map_values(|c: JsonV| move_content_item(c, org_url)))),
        _ => Err("Failed to get content of "@ + org_url.path + " as Arrray"@),
    }
}

/// Moves the contents of a subsection.
pub fn page_move_subsection_content(org_contents: &Json, org_url: &UrlParts) -> (res: Result<Json, String>)
    ensures
        match res {
            Ok(j) => move_contents_spec(org_contents@, org_url@) == Ok::<JsonV, Seq<char>>(j@),
            Err(e) => move_contents_spec(org_contents@, org_url@) == Err::<JsonV, Seq<char>>(e@),
        },
{
    let items = match org_contents {
        Json::Array(items) => items,
        _ => {
            let mut m = "Failed to get content of ".to_owned();
            m.append(org_url.path.as_str());
            m.append(" as Arrray");
            return Err(m);
        },
    };
    let ghost iv = items_view(items@);
    proof {
        lemma_items_view(items@);
        lemma_entries_view_empty();
    }
    let mut out: Vec<Json> = Vec::new();
    let n = items.len();
    for i in 0..n
        invariant
            n == items@.len(),
            iv == items_view(items@),
            iv.len() == n,
            forall|x: int| 0 <= x < n ==> #[trigger] iv[x] == items@[x]@,
            items_view(out@) =~= iv.take(i as int).map_values(|c: JsonV| move_content_item(c, org_url@)),
    {
        let c = &items[i];
        let value = match c.get("value") {
            Some(v) => match v.as_str() {
                Some(v) => v,
                None => "",
            },
            None => "",
        };
        proof {
            reveal_strlit("");
            assert(""@ =~= Seq::<char>::empty());
        }
        let mut fields: Vec<(String, Json)> = Vec::new();
        entry_push(&mut fields, "type", field_clone(c, "type"));
        entry_push(&mut fields, "value", Json::Str(page_move_content_href_convert(value, org_url)));
        assert(entries_view(fields@) =~= move_content_item(iv[i as int], org_url@)->Object_0);
        let item = Json::Object(fields);
        assert(item@ == move_content_item(iv[i as int], org_url@));
        let ghost before = out@;
        out.push(item);
        proof {
            assert(out@.drop_last() =~= before);
            assert(iv.take(i + 1) =~= iv.take(i as int).push(iv[i as int]));
            assert(iv.take(i + 1).map_values(|c: JsonV| move_content_item(c, org_url@)) =~= iv.take(i as int).map_values(|c: JsonV| move_content_item(c, org_url@)).push(move_content_item(iv[i as int], org_url@)));
        }
    }
    assert(iv.take(n as int) =~= iv);
    Ok(Json::Array(out))
}

/// A moved subsection and, when its href points to a child page, that
/// href as the moved page writes it.
pub open spec fn move_subsection_spec(org_url: UrlV, sub: JsonV) -> Result<(JsonV, Option<Seq<char>>), Seq<char>> {
    let d = title_and_spec(JsonV::Object(Seq::empty()), sub);
    let org_href = match jv_as_str(jv_get(sub, "href"@)) {
        Some(h) => h,
        None => Seq::empty(),
    };
    let (d2, child) = match href_on_spec(org_url, org_href) {
        Some((h, c)) => (jv_set(d, "href"@, jv_string(h)), if c { Some(h) } else { None }),
        None => (d, None),
    };
    match move_contents_spec(jv_get(sub, "content"@), org_url) {
        Ok(c) => Ok((jv_set(d2, "content"@, c), child)),
        Err(e) => Err(e),
    }
}

/// Moves one subsection, noting the href of a child page it points to.
pub fn page_move_subsection(org_url: &UrlParts, org_subsection: &Json, children_href: &mut Vec<String>) -> (res: Result<Json, String>)
    ensures
        match move_subsection_spec(org_url@, org_subsection@) {
            Ok((d, child)) => res matches Ok(j) && j@ == d && string_views(final(children_href)@) == match child {
                Some(h) => string_views(old(children_href)@).push(h),
                None => string_views(old(children_href)@),
            },
            Err(e) => res matches Err(m) && m@ == e,
        },
{
    let mut dest = Json::new_object();
    page_move_subsection_title_and(org_subsection, &mut dest);
    let org_href = match org_subsection.get("href") {
        Some(h) => match h.as_str() {
            Some(h) => h,
            None => "",
        },
        None => "",
    };
    proof {
        reveal_strlit("");
        assert(""@ =~= Seq::<char>::empty());
    }
    let ghost before = string_views(children_href@);
    if let Some((dest_href, is_child)) = href_on(org_url, org_href) {
        dest.set("href", Json::string(dest_href.as_str()));
        if is_child {
            children_href.push(dest_href);
            assert(string_views(children_href@) =~= before.push(dest_href@));
        }
    }
    let contents = match org_subsection.get("content") {
        Some(c) => page_move_subsection_content(c, org_url),
        None => page_move_subsection_content(&Json::Null, org_url),
    };
    match contents {
        Ok(c) => {
            dest.set("content", c);
            Ok(dest)
        },
        Err(e) => Err(e),
    }
}

/// The moved subsections of the first entries of an object, with the hrefs
/// of child pages they point to, in order.
pub open spec fn move_subsections_prefix(e: Seq<(Seq<char>, JsonV)>, org_url: UrlV) -> Result<(JsonV, Seq<Seq<char>>), Seq<char>>
    decreases e.len(),
{
    if e.len() == 0 {
        Ok((JsonV::Object(Seq::empty()), Seq::empty()))
    } else {
        match move_subsections_prefix(e.drop_last(), org_url) {
            Err(m) => Err(m),
            Ok((obj, children)) => match move_subsection_spec(org_url, e.last().1) {
                Err(m) => Err(m),
                Ok((d, c)) => Ok((jv_set(obj, e.last().0, d), match c {
                    Some(h) => children.push(h),
                    None => children,
                })),
            },
        }
    }
}

/// The moved document with the old one's subsections moved, and the hrefs
/// of the child pages to move next.
pub open spec fn move_subsections_spec(dest: JsonV, org: JsonV, org_url: UrlV) -> Result<(JsonV, Seq<Seq<char>>), Seq<char>> {
    match jv_get_path(org, subsections_path()) {
        JsonV::Object(e) => match move_subsections_prefix(e, org_url) {
            Err(m) => Err(m),
            Ok((obj, children)) => Ok((jv_set_path(dest, subsections_path(), obj), children)),
        },
        _ => Err("Failed to get subsection data"@),
    }
}

/// Moves the subsections into the moved document; gives the hrefs of the
/// child pages to move next.
pub fn page_move_subsections(dest_json: &mut Json, org_json: &Json, org_url: &UrlParts) -> (res: Result<Vec<String>, String>)
    ensures
        match move_subsections_spec(old(dest_json)@, org_json@, org_url@) {
            Ok((d, children)) => res matches Ok(v) && final(dest_json)@ == d && string_views(v@) == children,
            Err(e) => res matches Err(m) && m@ == e,
        },
{
    let keys = ["data", "subsection", "data"];
    assert(strs_view(keys@) =~= subsections_path());
    let entries = match org_json.get_path(&keys) {
        Some(Json::Object(e)) => e,
        _ => return Err("Failed to get subsection data".to_owned()),
    };
    let ghost ev = entries_view(entries@);
    proof {
        lemma_entries_view(entries@);
    }
    let mut dest_subsections = Json::new_object();
    let mut children_href: Vec<String> = Vec::new();
    let n = entries.len();
    assert(ev.take(0) =~= Seq::<(Seq<char>, JsonV)>::empty());
    assert(string_views(children_href@) =~= Seq::<Seq<char>>::empty());
    for i in 0..n
        invariant
            n == entries@.len(),
            ev == entries_view(entries@),
            ev.len() == n,
            forall|x: int| 0 <= x < n ==> #[trigger] ev[x] == (entries@[x].0@, entries@[x].1@),
            move_subsections_prefix(ev.take(i as int), org_url@) == Ok::<(JsonV, Seq<Seq<char>>), Seq<char>>((dest_subsections@, string_views(children_href@))),
            jv_get_path(org_json@, subsections_path()) == JsonV::Object(ev),
    {
        let entry = &entries[i];
        assert(ev.take(i + 1).drop_last() =~= ev.take(i as int));
        assert(ev.take(i + 1).last() == ev[i as int]);
        let d = match page_move_subsection(org_url, &entry.1, &mut children_href) {
            Ok(d) => d,
            Err(e) => {
                proof {
                    assert(move_subsections_prefix(ev.take(i + 1), org_url@) == Err::<(JsonV, Seq<Seq<char>>), Seq<char>>(e@));
                    lemma_prefix_err(ev, org_url@, i + 1, e@);
                    assert(ev.take(n as int) =~= ev);
                }
                return Err(e);
            },
        };
        dest_subsections.set(entry.0.as_str(), d);
    }
    assert(ev.take(n as int) =~= ev);
    dest_json.set_path(&keys, dest_subsections);
    Ok(children_href)
}

/// Once moving a prefix of the subsections fails, moving a longer one fails.
proof fn lemma_prefix_err(e: Seq<(Seq<char>, JsonV)>, org_url: UrlV, i: int, m: Seq<char>)
    requires
        0 <= i <= e.len(),
        move_subsections_prefix(e.take(i), org_url) == Err::<(JsonV, Seq<Seq<char>>), Seq<char>>(m),
    ensures
        move_subsections_prefix(e.take(e.len() as int), org_url) == Err::<(JsonV, Seq<Seq<char>>), Seq<char>>(m),
    decreases e.len() - i,
{
    if i < e.len() {
        assert(e.take(i + 1).drop_last() =~= e.take(i));
        lemma_prefix_err(e, org_url, i + 1, m);
    }
}

/// The pages being moved, by their old path: old URL, new URL and the moved
/// document, in the order they were added.
pub struct PageMoving {
    entries: Vec<(String, UrlParts, UrlParts, Json)>,
}

pub struct MovingV {
    pub path: Seq<char>,
    pub org_url: UrlV,
    pub dest_url: UrlV,
    pub json: JsonV,
}

pub open spec fn moving_view(e: (String, UrlParts, UrlParts, Json)) -> MovingV {
    MovingV { path: e.0@, org_url: e.1@, dest_url: e.2@, json: e.3@ }
}

/// Whether a page with old path `p` is being moved.
pub open spec fn moving_has(m: Seq<MovingV>, p: Seq<char>) -> bool {
    exists|i: int| 0 <= i < m.len() && m[i].path == p
}

/// No old path occurs twice.
pub open spec fn moving_distinct(m: Seq<MovingV>) -> bool {
    forall|i: int, j: int| 0 <= i < j < m.len() ==> m[i].path != m[j].path
}

impl View for PageMoving {
    type V = Seq<MovingV>;

    closed spec fn view(&self) -> Seq<MovingV> {
        self.entries@.map_values(|e: (String, UrlParts, UrlParts, Json)| moving_view(e))
    }
}

impl PageMoving {
    #[verifier::type_invariant]
    closed spec fn distinct(self) -> bool {
        moving_distinct(self@)
    }

    pub fn new() -> (res: PageMoving)
        ensures
            res@.len() == 0,
    {
        let res = PageMoving { entries: Vec::new() };
        assert(res@ =~= Seq::<MovingV>::empty());
        res
    }

    fn position(&self, path: &str) -> (res: Option<usize>)
        ensures
            match res {
                Some(i) => i < self@.len() && self@[i as int].path == path@,
                None => !moving_has(self@, path@),
            },
    {
        let p = path.to_owned();
        let n = self.entries.len();
        for i in 0..n
            invariant
                n == self.entries@.len(),
                p@ == path@,
                forall|j: int| 0 <= j < i ==> self@[j].path != path@,
        {
            if self.entries[i].0 == p {
                return Some(i);
            }
        }
        None
    }

    /// Whether the page at `org_url` is being moved.
    pub fn contains_org_url(&self, org_url: &UrlParts) -> (res: bool)
        ensures
            res == moving_has(self@, org_url@.path),
    {
        self.position(org_url.path.as_str()).is_some()
    }

    /// Adds a page; a page whose old path is there already is refused.
    pub fn insert(&mut self, org_url: UrlParts, dest_url: UrlParts, json: Json) -> (res: Result<(), String>)
        ensures
            moving_distinct(final(self)@),
            moving_has(old(self)@, org_url@.path) ==> (res matches Err(e) && e@ == "org_url recurred: "@ + org_url@.path
                && final(self)@ == old(self)@),
            !moving_has(old(self)@, org_url@.path) ==> res is Ok
                && final(self)@ == old(self)@.push(MovingV { path: org_url@.path, org_url: org_url@, dest_url: dest_url@, json: json@ }),
    {
        proof {
            use_type_invariant(&*self);
        }
        if self.contains_org_url(&org_url) {
            let mut m = "org_url recurred: ".to_owned();
            m.append(org_url.path.as_str());
            return Err(m);
        }
        let path = org_url.path.clone();
        let ghost before = self@;
        let mut entries = Vec::new();
        std::mem::swap(&mut entries, &mut self.entries);
        entries.push((path, org_url, dest_url, json));
        let ghost after = entries@.map_values(|e: (String, UrlParts, UrlParts, Json)| moving_view(e));
        assert(after =~= before.push(after.last()));
        assert forall|i: int, j: int| 0 <= i < j < after.len() implies after[i].path != after[j].path by {
            if j == after.len() - 1 {
                assert(before[i].path == after[i].path);
            }
        }
        self.entries = entries;
        Ok(())
    }

    /// The page with old path `org_path`: its old and new URL and its moved
    /// document.
    pub fn get(&self, org_path: &str) -> (res: Option<(UrlParts, UrlParts, &Json)>)
        ensures
            match res {
                Some((o, d, j)) => exists|i: int| 0 <= i < self@.len() && self@[i].path == org_path@
                    && self@[i].org_url == o@ && self@[i].dest_url == d@ && self@[i].json == j@,
                None => !moving_has(self@, org_path@),
            },
    {
        match self.position(org_path) {
            Some(i) => {
                let e = &self.entries[i];
                Some((e.1.copy(), e.2.copy(), &e.3))
            },
            None => None,
        }
    }

    /// The old paths, in the order the pages were added.
    pub fn org_path_list(&self) -> (res: Vec<String>)
        ensures
            string_views(res@) == self@.map_values(|m: MovingV| m.path),
    {
        let mut out: Vec<String> = Vec::new();
        let n = self.entries.len();
        for i in 0..n
            invariant
                n == self.entries@.len(),
                string_views(out@) =~= self@.take(i as int).map_values(|m: MovingV| m.path),
        {
            let ghost before = out@;
            out.push(self.entries[i].0.clone());
            assert(self@[i as int].path == self.entries@[i as int].0@);
            assert(out@.drop_last() =~= before);
            assert(self@.take(i + 1) =~= self@.take(i as int).push(self@[i as int]));
            assert(string_views(out@) =~= string_views(before).push(self@[i as int].path));
        }
        assert(self@.take(n as int) =~= self@);
        out
    }
}

/// Moving one page (the pages under it follow): refused when the page is
/// being moved already, was moved before, or when its new place holds a page
/// with subsections. Else the new document is a new page's one with the old
/// system and page records, the navigation of its new parent and its
/// subsections moved; the page is added; the hrefs of its child pages come
/// back with the new document.
pub open spec fn page_move_json_spec(m: Seq<MovingV>, org: JsonV, org_url: UrlV, dest_url: UrlV, parent_url: Option<UrlV>, parent_json: Option<JsonV>, dest_data_exists: bool) -> Result<(Seq<MovingV>, JsonV, Seq<Seq<char>>), Seq<char>> {
    if moving_has(m, org_url.path) {
        Err("Duplicated org_url: "@ + org_url.serialization)
    } else if !jv_is_empty(jv_get_path(org, moved_to_path())) {
        Err("Already moved : "@ + org_url.serialization)
    } else if dest_data_exists {
        Err("The file data already exists: "@ + dest_url.path)
    } else {
        let d1 = move_system_and_spec(page_json_plain_spec(), org);
        let d2 = move_navi_spec(d1, parent_url, parent_json);
        match move_subsections_spec(d2, org, org_url) {
            Err(e) => Err(e),
            Ok((d3, children)) => Ok((m.push(MovingV { path: org_url.path, org_url, dest_url, json: d3 }), d3, children)),
        }
    }
}

/// Moves one page's document: adds it to the pages being moved and gives
/// back the new document and the hrefs of the child pages to move next.
/// `dest_data_exists` tells whether the page at the new place has
/// subsections already.
pub fn page_move_json(
    page_moving: &mut PageMoving,
    org_json: &Json,
    org_url: &UrlParts,
    dest_url: &UrlParts,
    dest_parent_url: Option<&UrlParts>,
    dest_parent_json: Option<&Json>,
    dest_data_exists: bool,
) -> (res: Result<(Json, Vec<String>), String>)
    ensures
        match page_move_json_spec(old(page_moving)@, org_json@, org_url@, dest_url@, opt_url(dest_parent_url), opt_json_view(dest_parent_json), dest_data_exists) {
            Ok((m, d, children)) => res matches Ok((j, c)) && final(page_moving)@ == m && j@ == d && string_views(c@) == children,
            Err(e) => res matches Err(msg) && msg@ == e && final(page_moving)@ == old(page_moving)@,
        },
{
    if page_moving.contains_org_url(org_url) {
        let mut m = "Duplicated org_url: ".to_owned();
        m.append(org_url.serialization.as_str());
        return Err(m);
    }
    let keys = ["data", "page", "moved_to"];
    assert(strs_view(keys@) =~= moved_to_path());
    let moved = match org_json.get_path(&keys) {
        Some(v) => !v.is_empty(),
        None => false,
    };
    if moved {
        let mut m = "Already moved : ".to_owned();
        m.append(org_url.serialization.as_str());
        return Err(m);
    }
    if dest_data_exists {
        let mut m = "The file data already exists: ".to_owned();
        m.append(dest_url.path.as_str());
        return Err(m);
    }
    let mut dest_json = page_json_plain();
    page_move_system_and(&mut dest_json, org_json);
    page_move_navi(&mut dest_json, dest_parent_url, dest_parent_json);
    let children = page_move_subsections(&mut dest_json, org_json, org_url)?;
    let copy = dest_json.deep_clone();
    page_moving.insert(org_url.copy(), dest_url.copy(), copy)?;
    Ok((dest_json, children))
}

/// The old and new URL of a child page, from its href: the href read from
/// the old and from the new URL of its parent.
pub open spec fn children_urls_spec(href: Seq<char>, parent_org_url: UrlV, parent_dest_url: UrlV) -> Result<(UrlV, UrlV), Seq<char>> {
    match url_join_result(parent_org_url.serialization, href) {
        None => Err("Failed to get url for : "@ + href),
        Some(o) => match url_join_result(parent_dest_url.serialization, href) {
            None => Err("Failed to get child_dest_url of "@ + href),
            Some(d) => Ok((o, d)),
        },
    }
}

/// The old and new URL of a child page to move.
pub fn page_move_children_urls(child_org_href: &str, parent_org_url: &UrlParts, parent_dest_url: &UrlParts) -> (res: Result<(UrlParts, UrlParts), String>)
    ensures
        match children_urls_spec(child_org_href@, parent_org_url@, parent_dest_url@) {
            Ok((o, d)) => res matches Ok((x, y)) && x@ == o && y@ == d,
            Err(e) => res matches Err(m) && m@ == e,
        },
{
    let org = match url_join(parent_org_url, child_org_href) {
        Some(u) => u,
        None => {
            let mut m = "Failed to get url for : ".to_owned();
            m.append(child_org_href);
            return Err(m);
        },
    };
    let dest = match url_join(parent_dest_url, child_org_href) {
        Some(u) => u,
        None => {
            let mut m = "Failed to get child_dest_url of ".to_owned();
            m.append(child_org_href);
            return Err(m);
        },
    };
    Ok((org, dest))
}

/// `x[0] = v` on a value: an array gets its first item replaced (an empty
/// one gets `v` as item), any other value becomes `[v]`.
pub open spec fn jv_set_first(x: JsonV, v: JsonV) -> JsonV {
    match x {
        JsonV::Array(a) => if a.len() > 0 { JsonV::Array(a.update(0, v)) } else { JsonV::Array(seq![v]) },
        _ => JsonV::Array(seq![v]),
    }
}

/// The old page's document after the move: it says where the page went,
/// and its last navigation entry is titled `Moved(<title>) to <new URL>`;
/// refused when the navigation is not a non-empty array.
pub open spec fn org_moved_json_spec(org: JsonV, org_url: UrlV, dest_url: UrlV) -> Result<JsonV, Seq<char>> {
    let j1 = jv_set_path(org, moved_to_path(), jv_string(dest_url.serialization));
    let t = match jv_as_str(jv_get_path(org, title_path())) {
        Some(t) => t,
        None => Seq::empty(),
    };
    let title = "Moved("@ + t + ") to "@ + dest_url.serialization;
    match jv_get_path(j1, navi_path()) {
        JsonV::Array(a) => {
            if a.len() == 0 {
                Err("Failed to vet navi data of : "@ + org_url.serialization)
            } else {
                Ok(jv_set_path(j1, navi_path(), JsonV::Array(a.update(a.len() - 1, jv_set_first(a.last(), JsonV::Str(title))))))
            }
        },
        _ => Err("Failed to vet navi data of : "@ + org_url.serialization),
    }
}

/// Writing one key leaves every other key as it reads.
proof fn lemma_get_set_other_key(j: JsonV, k: Seq<char>, v: JsonV, other: Seq<char>)
    requires
        other != k,
    ensures
        jv_get(jv_set(j, k, v), other) == jv_get(j, other),
{
    match j {
        JsonV::Object(_) => crate::json_value::lemma_get_set_other(j, k, v, other),
        _ => crate::json_value::lemma_key_index(seq![(k, v)], other),
    }
}

/// Writing where the page moved leaves its navigation as it was.
proof fn lemma_moved_to_keeps_navi(j: JsonV, v: JsonV)
    ensures
        jv_get_path(jv_set_path(j, moved_to_path(), v), navi_path()) == jv_get_path(j, navi_path()),
{
    reveal_strlit("page");
    reveal_strlit("navi");
    reveal_strlit("data");
    assert("page"@[0] != "navi"@[0]);
    let d = jv_get(j, "data"@);
    let y = jv_set_path(jv_get(d, "page"@), seq!["moved_to"@], v);
    assert(moved_to_path().drop_first() =~= seq!["page"@, "moved_to"@]);
    assert(seq!["page"@, "moved_to"@].drop_first() =~= seq!["moved_to"@]);
    assert(navi_path().drop_first() =~= seq!["navi"@]);
    assert(seq!["navi"@].drop_first() =~= Seq::<Seq<char>>::empty());
    let x = jv_set(d, "page"@, y);
    assert(jv_set_path(d, seq!["page"@, "moved_to"@], v) == x);
    assert(jv_set_path(j, moved_to_path(), v) == jv_set(j, "data"@, x));
    crate::json_value::lemma_get_set(j, "data"@, x);
    lemma_get_set_other_key(d, "page"@, y, "navi"@);
    assert(jv_get_path(jv_set(j, "data"@, x), navi_path()) == jv_get_path(jv_get(jv_set(j, "data"@, x), "data"@), seq!["navi"@]));
    assert(jv_get_path(j, navi_path()) == jv_get_path(d, seq!["navi"@]));
}

/// Writing the navigation leaves where the page moved as it reads.
proof fn lemma_navi_keeps_moved_to(j: JsonV, v: JsonV)
    ensures
        jv_get_path(jv_set_path(j, navi_path(), v), moved_to_path()) == jv_get_path(j, moved_to_path()),
{
    reveal_strlit("page");
    reveal_strlit("navi");
    assert("page"@[0] != "navi"@[0]);
    let d = jv_get(j, "data"@);
    assert(navi_path().drop_first() =~= seq!["navi"@]);
    assert(seq!["navi"@].drop_first() =~= Seq::<Seq<char>>::empty());
    assert(moved_to_path().drop_first() =~= seq!["page"@, "moved_to"@]);
    assert(seq!["page"@, "moved_to"@].drop_first() =~= seq!["moved_to"@]);
    let x = jv_set(d, "navi"@, v);
    assert(jv_set_path(jv_get(d, "navi"@), seq!["navi"@].drop_first(), v) == v);
    assert(jv_set_path(d, seq!["navi"@], v) == x);
    assert(jv_set_path(j, navi_path(), v) == jv_set(j, "data"@, x));
    crate::json_value::lemma_get_set(j, "data"@, x);
    lemma_get_set_other_key(d, "navi"@, v, "page"@);
    let dx = jv_get(jv_set(j, "data"@, x), "data"@);
    assert(jv_get_path(dx, seq!["page"@, "moved_to"@]) == jv_get_path(jv_get(dx, "page"@), seq!["moved_to"@]));
    assert(jv_get_path(jv_set(j, "data"@, x), moved_to_path()) == jv_get_path(dx, seq!["page"@, "moved_to"@]));
    assert(jv_get_path(d, seq!["page"@, "moved_to"@]) == jv_get_path(jv_get(d, "page"@), seq!["moved_to"@]));
    assert(jv_get_path(j, moved_to_path()) == jv_get_path(d, seq!["page"@, "moved_to"@]));
}

/// Marking a page as moved retitles only its own navigation entry, the
/// last one: the entries before it are kept as they are, and the last one
/// gets the title `Moved(<page title>) to <new URL>` in place of its first
/// item, its other items kept; the document records the new URL as where
/// the page moved.
pub proof fn law_moved_page_retitles_its_own_entry(org: JsonV, org_url: UrlV, dest_url: UrlV)
    requires
        org_moved_json_spec(org, org_url, dest_url) is Ok,
    ensures
        ({
            let before = jv_get_path(org, navi_path());
            let after = jv_get_path(org_moved_json_spec(org, org_url, dest_url)->Ok_0, navi_path());
            let t = match jv_as_str(jv_get_path(org, title_path())) {
                Some(t) => t,
                None => Seq::empty(),
            };
            let a = before->Array_0;
            let b = after->Array_0;
            let n = a.len();
            &&& before is Array
            &&& after is Array
            &&& n > 0
            &&& b.len() == n
            &&& forall|k: int| 0 <= k < n - 1 ==> #[trigger] b[k] == a[k]
            &&& jv_at(b[n - 1], 0) == JsonV::Str("Moved("@ + t + ") to "@ + dest_url.serialization)
            &&& forall|m: int| 1 <= m < a[n - 1]->Array_0.len() ==> #[trigger] jv_at(b[n - 1], m) == jv_at(a[n - 1], m)
            &&& jv_get_path(org_moved_json_spec(org, org_url, dest_url)->Ok_0, moved_to_path()) == jv_string(dest_url.serialization)
        }),
{
    let j1 = jv_set_path(org, moved_to_path(), jv_string(dest_url.serialization));
    lemma_moved_to_keeps_navi(org, jv_string(dest_url.serialization));
    let a = jv_get_path(org, navi_path())->Array_0;
    let t = match jv_as_str(jv_get_path(org, title_path())) {
        Some(t) => t,
        None => Seq::empty(),
    };
    let title = "Moved("@ + t + ") to "@ + dest_url.serialization;
    let v = JsonV::Array(a.update(a.len() - 1, jv_set_first(a.last(), JsonV::Str(title))));
    crate::json_value::lemma_get_set_path(j1, navi_path(), v);
    lemma_navi_keeps_moved_to(j1, v);
    crate::json_value::lemma_get_set_path(org, moved_to_path(), jv_string(dest_url.serialization));
}

fn set_first(x: Json, v: Json) -> (res: Json)
    ensures
        res@ == jv_set_first(x@, v@),
{
    match x {
        Json::Array(mut items) => {
            proof {
                lemma_items_view(items@);
            }
            if items.len() > 0 {
                let ghost iv = items_view(items@);
                items.set(0, v);
                proof {
                    lemma_items_view(items@);
                    assert(items_view(items@) =~= iv.update(0, v@));
                }
                Json::Array(items)
            } else {
                let mut one = Json::new_array();
                one.push(v);
                assert(one@->Array_0 =~= seq![v@]);
                one
            }
        },
        _ => {
            let mut one = Json::new_array();
            one.push(v);
            assert(one@->Array_0 =~= seq![v@]);
            one
        },
    }
}

/// The old page's document after the move.
pub fn page_org_page_moved(org_json: &Json, org_url: &UrlParts, dest_url: &UrlParts) -> (res: Result<Json, String>)
    ensures
        match org_moved_json_spec(org_json@, org_url@, dest_url@) {
            Ok(j) => res matches Ok(x) && x@ == j,
            Err(e) => res matches Err(m) && m@ == e,
        },
{
    let mut uped = org_json.deep_clone();
    let moved_keys = ["data", "page", "moved_to"];
    assert(strs_view(moved_keys@) =~= moved_to_path());
    uped.set_path(&moved_keys, Json::string(dest_url.serialization.as_str()));
    let title_keys = ["data", "page", "title"];
    assert(strs_view(title_keys@) =~= title_path());
    let t = match org_json.get_path(&title_keys) {
        Some(v) => match v.as_str() {
            Some(t) => t,
            None => "",
        },
        None => "",
    };
    proof {
        reveal_strlit("");
        assert(""@ =~= Seq::<char>::empty());
    }
    let mut title = "Moved(".to_owned();
    title.append(t);
    title.append(") to ");
    title.append(dest_url.serialization.as_str());
    let navi_keys = ["data", "navi"];
    assert(strs_view(navi_keys@) =~= navi_path());
    let ghost u0 = uped@;
    let navi = uped.take_path(&navi_keys);
    let mut items = match navi {
        Json::Array(items) => items,
        _ => {
            let mut m = "Failed to vet navi data of : ".to_owned();
            m.append(org_url.serialization.as_str());
            return Err(m);
        },
    };
    proof {
        lemma_items_view(items@);
    }
    if items.len() == 0 {
        let mut m = "Failed to vet navi data of : ".to_owned();
        m.append(org_url.serialization.as_str());
        return Err(m);
    }
    let last = items.len() - 1;
    let ghost iv = items_view(items@);
    let mut slot = Json::Null;
    items.set_and_swap(last, &mut slot);
    let updated = set_first(slot, Json::Str(title));
    items.set(last, updated);
    proof {
        lemma_items_view(items@);
        assert(items_view(items@) =~= iv.update(last as int, jv_set_first(iv.last(), JsonV::Str(title@))));
    }
    let ghost n1 = JsonV::Array(items_view(items@));
    uped.set_path(&navi_keys, Json::Array(items));
    proof {
        lemma_set_path_twice(u0, navi_path(), JsonV::Null, n1);
    }
    Ok(uped)
}

/// A page moves only once: the move is refused when its document says
/// where it went already.
pub open spec fn page_move_check_spec(page_json: Option<Option<JsonV>>, page_path: Seq<char>) -> Result<(), Seq<char>> {
    match page_json {
        Some(pj) => if pj_moved_to(pj) is Some {
            Err("This page already moved to: "@ + page_path)
        } else {
            Ok(())
        },
        None => Ok(()),
    }
}

/// Checks that a page may be moved.
pub fn page_move_check(page_json: Option<&PageJson>, page_path: &str) -> (res: Result<(), String>)
    ensures
        match page_move_check_spec(match page_json {
            Some(p) => Some(p@),
            None => None::<Option<JsonV>>,
        }, page_path@) {
            Ok(_) => res is Ok,
            Err(e) => res matches Err(m) && m@ == e,
        },
{
    match page_json {
        Some(p) => {
            if p.moved_to().is_some() {
                let mut m = "This page already moved to: ".to_owned();
                m.append(page_path);
                return Err(m);
            }
            Ok(())
        },
        None => Ok(()),
    }
}

} // verus!
