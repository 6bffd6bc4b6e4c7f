use wc_note::json_value::{Json, JsonNumber};
use wc_note::page::Page;
use wc_note::page_json::{page_json_plain, PageJson};
use wc_note::page_move::{
    href_pos, id_text, page_move_children_urls, page_move_content_href_convert, page_move_json, page_move_navi,
    page_move_subsection_content, page_move_subsection_title_and, page_move_subsections, page_move_system_and,
    page_org_page_moved, pos_not_escaped, PageMoving,
};
use wc_note::url_parts::{page_url, UrlParts};

fn url(path: &str) -> UrlParts {
    page_url(&Page::new("./pages", path)).unwrap()
}

fn pair(a: &str, b: &str) -> Json {
    let mut x = Json::new_array();
    x.push(Json::string(a));
    x.push(Json::string(b));
    x
}

fn text_item(value: &str) -> Json {
    let mut c = Json::new_object();
    c.set("type", Json::string("text"));
    c.set("value", Json::string(value));
    c
}

#[test]
fn pattern_not_escaped() {
    assert_eq!(pos_not_escaped(b"ab\\<a <a", 0, "<a"), Some((6, 8)));
    assert_eq!(pos_not_escaped(b"ab\\\\<a", 0, "<a"), Some((4, 6)));
    assert_eq!(pos_not_escaped(b"no anchor", 0, "<a"), None);
    assert_eq!(pos_not_escaped(b"<a", 2, "<a"), None);
}

#[test]
fn href_positions() {
    assert_eq!(href_pos(b"<a href=\"x\">", 0), Some((2, 11, 9, 10)));
    assert_eq!(href_pos(b"<a HREF = 'yz'>", 0), Some((2, 14, 11, 13)));
    assert_eq!(href_pos(b"<b href=\"x\">", 0), None);
}

#[test]
fn hrefs_converted_for_the_move() {
    let org = url("/a/b.html");
    assert_eq!(page_move_content_href_convert("<a href=\"c/d.html\">x</a>", &org), "<a href=\"c/d.html\">x</a>");
    assert_eq!(page_move_content_href_convert("<a href=\"/a/x.html\">x</a>", &org), "<a href=\"x.html\">x</a>");
    assert_eq!(page_move_content_href_convert("<a  HREF='../up.html'>u</a>", &org), "<a href=\"/up.html\">u</a>");
    assert_eq!(page_move_content_href_convert("<a href=\"#s\">s</a>", &org), "<a href=\"#s\">s</a>");
    assert_eq!(page_move_content_href_convert("\\<a href=\"/a/x.html\">", &org), "\\<a href=\"/a/x.html\">");
    assert_eq!(page_move_content_href_convert("plain text", &org), "plain text");
    assert_eq!(
        page_move_content_href_convert("<a href=\"/a/x.html\">1</a> <a href=\"/z.html\">2</a>", &org),
        "<a href=\"x.html\">1</a> <a href=\"/z.html\">2</a>"
    );
}

#[test]
fn system_and_page_copied() {
    let mut org = page_json_plain();
    org.set_path(&["data", "page", "title"], Json::string("T"));
    org.set_path(&["system", "version"], Json::string("9.9.9"));
    let mut dest = page_json_plain();
    page_move_system_and(&mut dest, &org);
    assert_eq!(dest.get_path(&["system", "version"]).unwrap().as_str(), Some("9.9.9"));
    assert_eq!(dest.get_path(&["data", "page", "title"]).unwrap().as_str(), Some("T"));
}

#[test]
fn navi_under_the_new_parent() {
    let mut parent = page_json_plain();
    let mut navi = Json::new_array();
    navi.push(pair("Top", "/top.html"));
    navi.push(pair("P", ""));
    parent.set_path(&["data", "navi"], navi);
    let mut dest = page_json_plain();
    dest.set_path(&["data", "page", "title"], Json::string("T"));
    let purl = url("/p/q.html");
    page_move_navi(&mut dest, Some(&purl), Some(&parent));
    let n = dest.get_path(&["data", "navi"]).unwrap();
    assert_eq!(n.len(), 3);
    assert_eq!(n.at(0).unwrap().at(1).unwrap().as_str(), Some("/top.html"));
    assert_eq!(n.at(1).unwrap().at(1).unwrap().as_str(), Some("/p/q.html"));
    assert_eq!(n.at(2).unwrap().at(0).unwrap().as_str(), Some("T"));
    assert_eq!(n.at(2).unwrap().at(1).unwrap().as_str(), Some(""));
    // The top page: only its own entry, titled "no title" without a title.
    let mut top = page_json_plain();
    top.set_path(&["data", "page", "title"], Json::Null);
    page_move_navi(&mut top, None, None);
    let n = top.get_path(&["data", "navi"]).unwrap();
    assert_eq!(n.len(), 1);
    assert_eq!(n.at(0).unwrap().at(0).unwrap().as_str(), Some("no title"));
}

#[test]
fn ids_as_text() {
    assert_eq!(id_text(&Json::Number(JsonNumber { positive: true, mantissa: 12, exponent: 0 })), "12");
    assert_eq!(id_text(&Json::Number(JsonNumber { positive: false, mantissa: 3, exponent: 0 })), "-3");
    assert_eq!(id_text(&Json::string("7")), "7");
    assert_eq!(id_text(&Json::Null), "");
}

#[test]
fn subsection_title_and_moved() {
    let mut sub = Json::new_object();
    sub.set("parent", Json::string("0"));
    sub.set("title", Json::string("S"));
    sub.set("id", Json::Number(JsonNumber { positive: true, mantissa: 4, exponent: 0 }));
    let mut dest = Json::new_object();
    page_move_subsection_title_and(&sub, &mut dest);
    assert_eq!(dest.get("title").unwrap().as_str(), Some("S"));
    assert_eq!(dest.get("id").unwrap().as_str(), Some("4"));
    assert!(dest.get("child").unwrap().is_null());
}

#[test]
fn contents_moved() {
    let org = url("/a/b.html");
    let mut contents = Json::new_array();
    contents.push(text_item("<a href=\"/a/x.html\">x</a>"));
    let moved = page_move_subsection_content(&contents, &org).unwrap();
    assert_eq!(moved.len(), 1);
    assert_eq!(moved.at(0).unwrap().get("value").unwrap().as_str(), Some("<a href=\"x.html\">x</a>"));
    assert_eq!(moved.at(0).unwrap().get("type").unwrap().as_str(), Some("text"));
    assert_eq!(
        page_move_subsection_content(&Json::Null, &org).err(),
        Some("Failed to get content of /a/b.html as Arrray".to_string())
    );
}

fn org_document() -> Json {
    let mut p = PageJson::new();
    let s = p.subsection_new(0).unwrap();
    s.href_set(&mut p, "c/d.html");
    s.title_set(&mut p, "Child");
    s.contents_push(&mut p, text_item("<a href=\"/a/x.html\">x</a>"));
    let s2 = p.subsection_new(0).unwrap();
    s2.href_set(&mut p, "#here");
    s2.contents_mut(&mut p);
    let mut j = p.value().unwrap().deep_clone();
    j.set_path(&["data", "subsection", "data", "0", "content"], Json::new_array());
    j.set_path(&["data", "page", "title"], Json::string("Org"));
    let mut navi = Json::new_array();
    navi.push(pair("Org", ""));
    j.set_path(&["data", "navi"], navi);
    j
}

#[test]
fn subsections_moved_with_children() {
    let org = org_document();
    let mut dest = page_json_plain();
    let children = page_move_subsections(&mut dest, &org, &url("/a/b.html")).unwrap();
    assert_eq!(children, vec!["c/d.html".to_string()]);
    let subs = dest.get_path(&["data", "subsection", "data"]).unwrap();
    assert_eq!(subs.len(), 3);
    assert_eq!(subs.get("1").unwrap().get("href").unwrap().as_str(), Some("c/d.html"));
    assert_eq!(subs.get("2").unwrap().get("href").unwrap().as_str(), Some("#here"));
    let mut bad = page_json_plain();
    bad.set_path(&["data", "subsection", "data"], Json::Null);
    assert_eq!(
        page_move_subsections(&mut dest, &bad, &url("/a/b.html")).err(),
        Some("Failed to get subsection data".to_string())
    );
}

#[test]
fn one_page_moved() {
    let org = org_document();
    let mut moving = PageMoving::new();
    let (dest_json, children) =
        page_move_json(&mut moving, &org, &url("/a/b.html"), &url("/n/b.html"), None, None, false).unwrap();
    assert_eq!(children, vec!["c/d.html".to_string()]);
    assert_eq!(dest_json.get_path(&["data", "page", "title"]).unwrap().as_str(), Some("Org"));
    assert!(moving.contains_org_url(&url("/a/b.html")));
    assert_eq!(moving.org_path_list(), vec!["/a/b.html".to_string()]);
    let (o, d, j) = moving.get("/a/b.html").unwrap();
    assert_eq!(o.path, "/a/b.html");
    assert_eq!(d.path, "/n/b.html");
    assert_eq!(j.get_path(&["data", "page", "title"]).unwrap().as_str(), Some("Org"));
    // The same page again is refused, and nothing changes.
    let again = page_move_json(&mut moving, &org, &url("/a/b.html"), &url("/m/b.html"), None, None, false);
    assert_eq!(again.err(), Some("Duplicated org_url: http://127.0.0.1/a/b.html".to_string()));
    assert_eq!(moving.org_path_list().len(), 1);
}

#[test]
fn moves_refused() {
    let mut moving = PageMoving::new();
    let org = org_document();
    let r = page_move_json(&mut moving, &org, &url("/a/b.html"), &url("/n/b.html"), None, None, true);
    assert_eq!(r.err(), Some("The file data already exists: /n/b.html".to_string()));
    let mut moved = org_document();
    moved.set_path(&["data", "page", "moved_to"], Json::string("http://127.0.0.1/z.html"));
    let r = page_move_json(&mut moving, &moved, &url("/a/b.html"), &url("/n/b.html"), None, None, false);
    assert_eq!(r.err(), Some("Already moved : http://127.0.0.1/a/b.html".to_string()));
    assert!(moving.org_path_list().is_empty());
}

#[test]
fn moving_record_refuses_repeats() {
    let mut m = PageMoving::new();
    assert!(m.insert(url("/a.html"), url("/b.html"), Json::Null).is_ok());
    assert_eq!(m.insert(url("/a.html"), url("/c.html"), Json::Null), Err("org_url recurred: /a.html".to_string()));
    assert!(m.insert(url("/x.html"), url("/y.html"), Json::Null).is_ok());
    assert_eq!(m.org_path_list(), vec!["/a.html".to_string(), "/x.html".to_string()]);
    assert!(m.get("/q.html").is_none());
}

#[test]
fn child_urls_on_both_sides() {
    let (o, d) = page_move_children_urls("c/d.html", &url("/a/b.html"), &url("/n/b.html")).unwrap();
    assert_eq!(o.path, "/a/c/d.html");
    assert_eq!(d.path, "/n/c/d.html");
}

#[test]
fn old_page_marked_moved() {
    let org = org_document();
    let moved = page_org_page_moved(&org, &url("/a/b.html"), &url("/n/b.html")).unwrap();
    assert_eq!(moved.get_path(&["data", "page", "moved_to"]).unwrap().as_str(), Some("http://127.0.0.1/n/b.html"));
    let n = moved.get_path(&["data", "navi"]).unwrap();
    assert_eq!(n.at(0).unwrap().at(0).unwrap().as_str(), Some("Moved(Org) to http://127.0.0.1/n/b.html"));
    let mut empty_navi = org_document();
    empty_navi.set_path(&["data", "navi"], Json::new_array());
    assert_eq!(
        page_move_json_err(&empty_navi),
        Some("Failed to vet navi data of : http://127.0.0.1/a/b.html".to_string())
    );
}

fn page_move_json_err(org: &Json) -> Option<String> {
    page_org_page_moved(org, &url("/a/b.html"), &url("/n/b.html")).err()
}
