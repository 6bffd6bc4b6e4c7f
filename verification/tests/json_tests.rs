use wc_note::contents::{json_plain, Contents};
use wc_note::json_value::{Json, JsonNumber};
use wc_note::page_child::{json_replace_prepare, json_rev_match};
use wc_note::page_from_html::json_of_source;
use wc_note::page_json::{page_json_plain, to_usize, PageJson};

fn num(n: u64) -> Json {
    Json::Number(JsonNumber { positive: true, mantissa: n, exponent: 0 })
}

fn number_of(j: Option<&Json>) -> Option<u64> {
    match j {
        Some(Json::Number(n)) if n.positive && n.exponent == 0 => Some(n.mantissa),
        _ => None,
    }
}

/// A document read back from the span of a page's HTML.
fn parse(text: &str) -> Json {
    let html = format!("<html><head></head><body><span id=\"page_json_str\">{}</span></body></html>", text);
    json_of_source(html.as_bytes()).unwrap().value().unwrap().deep_clone()
}

#[test]
fn set_then_get() {
    let mut j = Json::new_object();
    j.set("a", num(1));
    j.set("b", Json::string("x"));
    j.set("a", num(2));
    assert_eq!(number_of(j.get("a")), Some(2));
    assert_eq!(j.get("b").unwrap().as_str(), Some("x"));
    assert!(j.get("c").is_none());
    assert_eq!(j.len(), 2);
}

#[test]
fn set_on_a_non_object_makes_an_object() {
    let mut j = num(5);
    j.set("k", Json::Boolean(true));
    assert_eq!(j.len(), 1);
    assert!(matches!(j.get("k"), Some(Json::Boolean(true))));
}

#[test]
fn set_path_then_get_path() {
    let mut j = Json::Null;
    j.set_path(&["data", "page", "rev"], num(3));
    assert_eq!(number_of(j.get_path(&["data", "page", "rev"])), Some(3));
    assert!(j.get_path(&["data", "navi"]).is_none());
    let t = j.take_path(&["data", "page", "rev"]);
    assert_eq!(number_of(Some(&t)), Some(3));
    assert!(j.get_path(&["data", "page", "rev"]).unwrap().is_null());
}

#[test]
fn strings_short_and_long() {
    assert!(matches!(Json::string("short"), Json::Short(_)));
    assert!(matches!(Json::string("a string that is longer than thirty bytes"), Json::Str(_)));
    assert!(Json::string("x").eq_str("x"));
    assert!(!num(1).eq_str("1"));
}

#[test]
fn emptiness() {
    assert!(Json::Null.is_empty());
    assert!(Json::string("").is_empty());
    assert!(num(0).is_empty());
    assert!(!num(2).is_empty());
    assert!(Json::new_array().is_empty());
    assert!(!Json::Boolean(true).is_empty());
}

#[test]
fn push_only_to_arrays() {
    let mut a = Json::new_array();
    assert!(a.push(num(1)));
    assert!(a.push(num(2)));
    assert_eq!(a.len(), 2);
    assert_eq!(number_of(a.at(1)), Some(2));
    assert!(a.at(2).is_none());
    let mut o = Json::new_object();
    assert!(!o.push(num(1)));
    assert_eq!(o.len(), 0);
}

#[test]
fn to_usize_reads_numbers_and_digit_strings() {
    assert_eq!(to_usize(&num(12)), Ok(12));
    assert_eq!(to_usize(&Json::string("12")), Ok(12));
    assert!(to_usize(&Json::string("x")).is_err());
    assert!(to_usize(&Json::Null).is_err());
}

#[test]
fn parse_from_span() {
    let j = parse(r#"{"data":{"page":{"rev":7,"title":"T"}},"list":[1,2]}"#);
    assert_eq!(number_of(j.get_path(&["data", "page", "rev"])), Some(7));
    assert_eq!(j.get_path(&["data", "page", "title"]).unwrap().as_str(), Some("T"));
    assert_eq!(j.get("list").unwrap().len(), 2);
}

#[test]
fn plain_page_document() {
    let p = PageJson::from(page_json_plain());
    assert_eq!(p.rev(), Some(1));
    assert_eq!(p.rev_uped(), Some(2));
    assert_eq!(p.subsection_id_next(), Some(1));
    assert!(p.moved_to().is_none());
    // The root subsection alone is there: no data besides it.
    assert!(!p.subsections_data_exists());
    assert_eq!(p.subsections().unwrap().len(), 1);
    let v = p.value().unwrap();
    assert_eq!(v.get_path(&["system", "version"]).unwrap().as_str(), Some("0.0.4"));
}

#[test]
fn new_page_json_is_plain() {
    let p = PageJson::new();
    assert_eq!(p.rev(), Some(1));
}

#[test]
fn subsection_ids_count_up() {
    let mut p = PageJson::new();
    assert_eq!(p.subsection_id_new(), Some(1));
    assert_eq!(p.subsection_id_new(), Some(2));
    assert_eq!(p.subsection_id_next(), Some(3));
}

#[test]
fn subsection_new_links_the_parent() {
    let mut p = PageJson::new();
    let s = p.subsection_new(0).unwrap();
    assert_eq!(s.id(), 1);
    let v = p.value().unwrap();
    let child = v.get_path(&["data", "subsection", "data", "0", "child"]).unwrap();
    assert_eq!(child.len(), 1);
    assert_eq!(number_of(child.at(0)), Some(1));
    assert_eq!(number_of(v.get_path(&["data", "subsection", "data", "1", "parent_id"])), Some(0));
    // No parent 9.
    assert!(p.subsection_new(9).is_none());
}

#[test]
fn subsection_found_by_href() {
    let mut p = PageJson::new();
    let s = p.subsection_new(0).unwrap();
    s.href_set(&mut p, "#intro");
    s.title_set(&mut p, "Intro");
    let found = p.subsection_by_name("#intro").unwrap();
    assert_eq!(found.id(), 1);
    assert!(p.subsections_data_exists());
    assert!(p.subsection_by_name("#none").is_none());
    let v = p.value().unwrap();
    assert_eq!(v.get_path(&["data", "subsection", "data", "1", "title"]).unwrap().as_str(), Some("Intro"));
}

#[test]
fn contents_pushed_in_order() {
    let mut p = PageJson::new();
    let s = p.subsection_new(0).unwrap();
    s.contents_push(&mut p, Json::string("first"));
    s.contents_push(&mut p, Json::string("second"));
    let v = p.value().unwrap();
    let c = v.get_path(&["data", "subsection", "data", "1", "content"]).unwrap();
    assert_eq!(c.len(), 2);
    assert_eq!(c.at(1).unwrap().as_str(), Some("second"));
}

#[test]
fn moved_to_read() {
    let mut j = page_json_plain();
    j.set_path(&["data", "page", "moved_to"], Json::string("/new/place.html"));
    let p = PageJson::from(j);
    assert_eq!(p.moved_to(), Some("/new/place.html".to_string()));
}

#[test]
fn value_taken_out() {
    let mut p = PageJson::new();
    assert!(p.value_take().is_some());
    assert!(p.value().is_none());
    assert!(p.rev().is_none());
    assert!(p.value_take().is_none());
}

#[test]
fn rev_counted_up_as_a_number() {
    let mut j = page_json_plain();
    j.set_path(&["data", "page", "rev"], Json::string("12"));
    let mut p = PageJson::from(j);
    assert_eq!(p.rev(), Some(12));
    assert!(p.rev_replace_one_up().is_ok());
    assert_eq!(p.rev(), Some(13));
    assert_eq!(number_of(p.value().unwrap().get_path(&["data", "page", "rev"])), Some(13));
    let mut q = PageJson::from(Json::new_object());
    assert!(q.rev_replace_one_up().is_err());
    assert!(q.rev().is_none());
}

#[test]
fn posted_rev_must_match() {
    let page = PageJson::from(page_json_plain());
    let mut same = page_json_plain();
    same.set_path(&["data", "page", "title"], Json::string("edited"));
    assert!(json_rev_match(Some(&page), "/p.html", &same).is_ok());
    let mut stale = page_json_plain();
    stale.set_path(&["data", "page", "rev"], num(5));
    assert_eq!(json_rev_match(Some(&page), "/p.html", &stale), Err("rev not match 1 : 5".to_string()));
    assert_eq!(json_rev_match(None, "/p.html", &same), Err("Failed to get json of /p.html".to_string()));
    let no_rev = Json::new_object();
    assert_eq!(
        json_rev_match(Some(&page), "/p.html", &no_rev),
        Err("Failed to get rev from json_data2".to_string())
    );
}

#[test]
fn accepted_post_is_one_revision_on() {
    let page = PageJson::from(page_json_plain());
    let mut posted = page_json_plain();
    posted.set_path(&["data", "page", "title"], Json::string("edited"));
    let kept = json_replace_prepare(Some(&page), "/p.html", posted).unwrap();
    assert_eq!(kept.rev(), Some(2));
    assert_eq!(
        kept.value().unwrap().get_path(&["data", "page", "title"]).unwrap().as_str(),
        Some("edited")
    );
    let mut stale = page_json_plain();
    stale.set_path(&["data", "page", "rev"], num(9));
    assert!(json_replace_prepare(Some(&page), "/p.html", stale).is_err());
}

#[test]
fn contents_document() {
    let c = Contents::from(json_plain());
    assert_eq!(c.rev(), Some(0));
    assert_eq!(c.rev_uped(), Some(1));
    let v = c.data().unwrap();
    assert_eq!(v.get_path(&["system", "version"]).unwrap().as_str(), Some("0.0.3"));
    assert_eq!(number_of(v.get_path(&["data", "subsection", "id", "id_next"])), Some(2));
    let mut n = Contents::new();
    n.data_plain_set();
    assert_eq!(n.rev(), Some(0));
    let mut short_rev = json_plain();
    short_rev.set_path(&["data", "page", "rev"], Json::string("41"));
    assert_eq!(Contents::from(short_rev).rev_uped(), Some(42));
}
