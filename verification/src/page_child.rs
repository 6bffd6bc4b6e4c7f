//! A new child page of a page: its place, its document and its navigation.
use vstd::prelude::*;
use crate::page::Page;
use crate::json_value::{Json, JsonV, jv_at, jv_as_str, jv_get_path, jv_set_path, jv_push, jv_string, strs_view, items_view, lemma_items_view};
use crate::page_json::{PageJson, page_json_plain, page_json_plain_spec, pj_rev, jv_to_usize, rev_path, to_usize};
use crate::url_parts::{UrlParts, UrlV, href_url, href_url_spec, page_url, page_url_spec, url_join, url_join_result, title_href_check, title_href_check_spec};
use crate::strings::{decimal, push_decimal};

verus! {

pub open spec fn navi_path() -> Seq<Seq<char>> {
    seq!["data"@, "navi"@]
}

pub open spec fn title_path() -> Seq<Seq<char>> {
    seq!["data"@, "page"@, "title"@]
}

/// One entry of a child's navigation made from its parent's entry `nv`
/// (`[title, href]`): the title as it is, the href rewritten from the
/// parent's URL to the child's (empty when it cannot be).
pub open spec fn child_navi_item(nv: JsonV, parent_url: UrlV, child_url: UrlV) -> JsonV {
    let href = match jv_as_str(jv_at(nv, 1)) {
        Some(h) => match href_url_spec(parent_url, h, child_url) {
            Some(r) => r,
            None => Seq::empty(),
        },
        None => Seq::empty(),
    };
    JsonV::Array(seq![jv_at(nv, 0), JsonV::Str(href)])
}

/// The navigation of a child page: each entry of the parent's, rewritten;
/// nothing when the parent's navigation is not an array.
pub open spec fn child_navi_spec(parent_json: JsonV, parent_url: UrlV, child_url: UrlV) -> Option<JsonV> {
    match jv_get_path(parent_json, navi_path()) {
        JsonV::Array(items) => Some(JsonV::Array(items.map_values(|nv: JsonV| child_navi_item(nv, parent_url, child_url)))),
        _ => None,
    }
}

/// The navigation of a child page made from its parent's.
pub fn child_navi(parent_json: &Json, parent_url: &UrlParts, child_url: &UrlParts) -> (res: Result<Json, ()>)
    ensures
        match res {
            Ok(j) => child_navi_spec(parent_json@, parent_url@, child_url@) == Some(j@),
            Err(_) => child_navi_spec(parent_json@, parent_url@, child_url@) is None,
        },
{
    let keys = ["data", "navi"];
    assert(strs_view(keys@) =~= navi_path());
    let parent_navi = match parent_json.get_path(&keys) {
        Some(Json::Array(items)) => items,
        _ => return Err(()),
    };
    let ghost pv = items_view(parent_navi@);
    proof {
        lemma_items_view(parent_navi@);
    }
    let mut out: Vec<Json> = Vec::new();
    let n = parent_navi.len();
    for i in 0..n
        invariant
            n == parent_navi@.len(),
            pv == items_view(parent_navi@),
            pv.len() == n,
            forall|x: int| 0 <= x < n ==> #[trigger] pv[x] == parent_navi@[x]@,
            items_view(out@) =~= pv.take(i as int).map_values(|nv: JsonV| child_navi_item(nv, parent_url@, child_url@)),
    {
        let nv = &parent_navi[i];
        let title = match nv.at(0) {
            Some(t) => t.deep_clone(),
            None => Json::Null,
        };
        let href = match nv.at(1) {
            Some(h) => match h.as_str() {
                Some(h) => match href_url(parent_url, h, child_url) {
                    Some(r) => r,
                    None => String::new(),
                },
                None => String::new(),
            },
            None => String::new(),
        };
        let mut navi2 = Json::new_array();
        navi2.push(title);
        navi2.push(Json::Str(href));
        assert(navi2@->Array_0 =~= child_navi_item(pv[i as int], parent_url@, child_url@)->Array_0);
        let ghost before = out@;
        out.push(navi2);
        proof {
            assert(out@.drop_last() =~= before);
            assert(pv.take(i + 1) =~= pv.take(i as int).push(pv[i as int]));
        }
    }
    assert(pv.take(n as int) =~= pv);
    Ok(Json::Array(out))
}

/// The document of a new child page titled `title`: a new page's document
/// with that title and the parent's navigation rewritten, followed by the
/// child's own entry `[title, ""]`.
pub open spec fn child_json_spec(parent_json: JsonV, parent_url: UrlV, child_url: UrlV, title: Seq<char>) -> Option<JsonV> {
    match child_navi_spec(parent_json, parent_url, child_url) {
        None => None,
        Some(navi) => {
            let j = jv_set_path(page_json_plain_spec(), title_path(), jv_string(title));
            let own = JsonV::Array(seq![jv_string(title), JsonV::Short(Seq::empty())]);
            Some(jv_set_path(j, navi_path(), jv_push(navi, own)))
        },
    }
}

/// What a new child page is: its path (the child URL's path, the child URL
/// being the trimmed href read from the parent's URL) and its document.
pub open spec fn page_child_new_spec(parent: (Seq<char>, Seq<char>), parent_json: Option<JsonV>, title: Seq<char>, href: Seq<char>) -> Option<(Seq<char>, JsonV)> {
    match parent_json {
        None => None,
        Some(pj) => match page_url_spec(parent.1) {
            None => None,
            Some(parent_url) => match title_href_check_spec(title, href) {
                None => None,
                Some((t, h)) => match url_join_result(parent_url.serialization, h) {
                    None => None,
                    Some(child_url) => match child_json_spec(pj, parent_url, child_url, t) {
                        None => None,
                        Some(cj) => Some((child_url.path, cj)),
                    },
                },
            },
        },
    }
}

/// Makes a new child page of `parent_page` titled `child_title` at
/// `child_href`: the child page (in the same store) and its document. The
/// caller refuses it when the child's file exists already.
pub fn page_child_new(parent_page: &Page, parent_json: Option<&Json>, child_title: &str, child_href: &str) -> (res: Result<(Page, Json), ()>)
    ensures
        match res {
            Ok((p, j)) => page_child_new_spec(parent_page@, match parent_json {
                Some(x) => Some(x@),
                None => None::<JsonV>,
            }, child_title@, child_href@) == Some((p@.1, j@)) && p@.0 == parent_page@.0,
            Err(_) => page_child_new_spec(parent_page@, match parent_json {
                Some(x) => Some(x@),
                None => None::<JsonV>,
            }, child_title@, child_href@) is None,
        },
{
    let parent_json = match parent_json {
        Some(j) => j,
        None => return Err(()),
    };
    let parent_url = match page_url(parent_page) {
        Ok(u) => u,
        Err(_) => return Err(()),
    };
    let (title, href) = title_href_check(child_title, child_href)?;
    let child_url = match url_join(&parent_url, href) {
        Some(u) => u,
        None => return Err(()),
    };
    let mut child_json = page_json_plain();
    let title_keys = ["data", "page", "title"];
    assert(strs_view(title_keys@) =~= title_path());
    child_json.set_path(&title_keys, Json::string(title));
    let mut navi = child_navi(parent_json, &parent_url, &child_url)?;
    let mut own = Json::new_array();
    own.push(Json::string(title));
    own.push(Json::Short(String::new()));
    assert(own@->Array_0 =~= seq![jv_string(title@), JsonV::Short(Seq::empty())]);
    navi.push(own);
    let navi_keys = ["data", "navi"];
    assert(strs_view(navi_keys@) =~= navi_path());
    child_json.set_path(&navi_keys, navi);
    let child_page = Page::new(parent_page.stor_root(), child_url.path.as_str());
    Ok((child_page, child_json))
}

/// Whether the revision of a posted document is the page's own: the page's
/// document must be there and tell its revision, and the posted one must
/// tell the same.
pub open spec fn json_rev_match_spec(page_json: Option<Option<JsonV>>, json_data2: JsonV) -> bool {
    match page_json {
        Some(pj) => match pj_rev(pj) {
            Some(rev) => jv_to_usize(jv_get_path(json_data2, rev_path())) == Some(rev),
            None => false,
        },
        None => false,
    }
}

/// Why a posted document is refused, by the first check that fails: no
/// document of the page, no revision in it, no revision in the posted one,
/// or two revisions that differ.
pub open spec fn json_rev_mismatch(page_json: Option<Option<JsonV>>, page_path: Seq<char>, json_data2: JsonV) -> Option<Seq<char>> {
    match page_json {
        None => Some("Failed to get json of "@ + page_path),
        Some(pj) => match pj_rev(pj) {
            None => Some("Failed to get rev of "@ + page_path),
            Some(rev) => match jv_to_usize(jv_get_path(json_data2, rev_path())) {
                None => Some("Failed to get rev from json_data2"@),
                Some(rev2) => if rev == rev2 {
                    None
                } else {
                    Some("rev not match "@ + decimal(rev) + " : "@ + decimal(rev2))
                },
            },
        },
    }
}

/// Checks that a posted document has the page's revision, so that a save
/// made from an outdated copy is refused.
pub fn json_rev_match(page_json: Option<&PageJson>, page_path: &str, json_data2: &Json) -> (res: Result<(), String>)
    ensures
        res is Ok <==> json_rev_match_spec(match page_json {
            Some(p) => Some(p@),
            None => None::<Option<JsonV>>,
        }, json_data2@),
        match json_rev_mismatch(match page_json {
            Some(p) => Some(p@),
            None => None::<Option<JsonV>>,
        }, page_path@, json_data2@) {
            Some(m) => res matches Err(e) && e@ == m,
            None => res is Ok,
        },
{
    let page_json = match page_json {
        Some(p) => p,
        None => {
            let mut m = "Failed to get json of ".to_owned();
            m.append(page_path);
            return Err(m);
        },
    };
    let rev = match page_json.rev() {
        Some(r) => r,
        None => {
            let mut m = "Failed to get rev of ".to_owned();
            m.append(page_path);
            return Err(m);
        },
    };
    let keys = ["data", "page", "rev"];
    assert(strs_view(keys@) =~= rev_path());
    let rev2 = match json_data2.get_path(&keys) {
        Some(v) => match to_usize(v) {
            Ok(r) => r,
            Err(_) => return Err("Failed to get rev from json_data2".to_owned()),
        },
        None => return Err("Failed to get rev from json_data2".to_owned()),
    };
    if rev == rev2 {
        Ok(())
    } else {
        let mut m = "rev not match ".to_owned();
        push_decimal(&mut m, rev);
        m.append(" : ");
        push_decimal(&mut m, rev2);
        Err(m)
    }
}

/// The document a page keeps when a client posts one: the posted document
/// with its revision counted up, provided it was made from the page's own
/// revision (see `json_rev_match_spec`); none otherwise, or when the
/// revision cannot be counted up.
pub open spec fn json_replace_spec(page_json: Option<Option<JsonV>>, posted: JsonV) -> Option<JsonV> {
    if !json_rev_match_spec(page_json, posted) {
        None
    } else {
        match jv_to_usize(jv_get_path(posted, rev_path())) {
            Some(r) => if r < usize::MAX {
                Some(jv_set_path(posted, rev_path(), crate::json_value::jv_usize((r + 1) as usize)))
            } else {
                None
            },
            None => None,
        }
    }
}

/// Makes the document a page keeps when a client posts one.
pub fn json_replace_prepare(page_json: Option<&PageJson>, page_path: &str, json_data2: Json) -> (res: Result<PageJson, String>)
    ensures
        match json_replace_spec(match page_json {
            Some(p) => Some(p@),
            None => None::<Option<JsonV>>,
        }, json_data2@) {
            Some(v) => res matches Ok(p) && p@ == Some(v),
            None => res matches Err(e) && e@ == match json_rev_mismatch(match page_json {
                Some(p) => Some(p@),
                None => None::<Option<JsonV>>,
            }, page_path@, json_data2@) {
                Some(m) => m,
                None => "Failed to repace rev one up."@,
            },
        },
{
    json_rev_match(page_json, page_path, &json_data2)?;
    let mut pj = PageJson::from(json_data2);
    match pj.rev_replace_one_up() {
        Ok(_) => Ok(pj),
        Err(_) => Err("Failed to repace rev one up.".to_owned()),
    }
}

/// A save accepted from a client leaves the page one revision on: the
/// document kept has the revision the page had, plus one.
pub proof fn lemma_replace_rev_one_up(page_json: Option<Option<JsonV>>, posted: JsonV)
    requires
        json_replace_spec(page_json, posted) is Some,
    ensures
        pj_rev(json_replace_spec(page_json, posted)) == Some(pj_rev(page_json.unwrap()).unwrap() + 1),
{
    let r = jv_to_usize(jv_get_path(posted, rev_path())).unwrap();
    let v = crate::json_value::jv_usize((r + 1) as usize);
    crate::json_value::lemma_get_set_path(posted, rev_path(), v);
}

/// A post made from another revision than the page's is refused.
pub proof fn lemma_stale_post_refused(page_json: Option<Option<JsonV>>, posted: JsonV)
    requires
        pj_rev(page_json.unwrap_or(None)) != jv_to_usize(jv_get_path(posted, rev_path())),
    ensures
        json_replace_spec(page_json, posted) is None,
{
}

/// The document of a new top page: a new page's document titled `Top`,
/// whose navigation holds its own entry `["Top", ""]`.
pub open spec fn page_top_json_spec() -> JsonV {
    let j = jv_set_path(page_json_plain_spec(), title_path(), JsonV::Short("Top"@));
    jv_set_path(j, navi_path(), JsonV::Array(seq![JsonV::Array(seq![JsonV::Short("Top"@), JsonV::Short(Seq::empty())])]))
}

/// Makes the document of a new top page.
pub fn page_top_json() -> (res: Json)
    ensures
        res@ == page_top_json_spec(),
{
    let mut j = page_json_plain();
    let title_keys = ["data", "page", "title"];
    assert(strs_view(title_keys@) =~= title_path());
    j.set_path(&title_keys, Json::Short("Top".to_owned()));
    let mut own = Json::new_array();
    own.push(Json::Short("Top".to_owned()));
    own.push(Json::Short(String::new()));
    assert(own@->Array_0 =~= seq![JsonV::Short("Top"@), JsonV::Short(Seq::empty())]);
    let mut navi = Json::new_array();
    navi.push(own);
    assert(navi@->Array_0 =~= seq![JsonV::Array(seq![JsonV::Short("Top"@), JsonV::Short(Seq::empty())])]);
    let navi_keys = ["data", "navi"];
    assert(strs_view(navi_keys@) =~= navi_path());
    j.set_path(&navi_keys, navi);
    j
}

} // verus!
