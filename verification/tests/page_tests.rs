use wc_note::backup::{dir_gabage, is_end_with_rev, path_with_rev_dot};
use wc_note::json_value::Json;
use wc_note::page::{file_path, Page};
use wc_note::page_child::{child_navi, page_child_new};
use wc_note::page_json::page_json_plain;
use wc_note::url_parts::{href_on, href_url, page_url, title_href_check};

fn navi_item(title: &str, href: &str) -> Json {
    let mut a = Json::new_array();
    a.push(Json::string(title));
    a.push(Json::string(href));
    a
}

#[test]
fn page_files() {
    let p = Page::new("./pages", "/a/b.html");
    assert_eq!(p.stor_root(), "./pages");
    assert_eq!(p.page_path(), "/a/b.html");
    assert_eq!(p.file_path(), "./pages/a/b.html");
    assert_eq!(p.path_rev_form(7), "./pages/a/b.html.7");
    assert_eq!(file_path("root", "/x.html"), "root/x.html");
}

#[test]
fn backup_paths() {
    let p = Page::new("./pages", "/a/b.html");
    assert_eq!(path_with_rev_dot(&p, 3), Ok("./pages/a/b_rev3.html".to_string()));
    assert!(path_with_rev_dot(&Page::new("./pages", "/a/noext"), 3).is_err());
    assert!(!is_end_with_rev(&p));
    assert!(is_end_with_rev(&Page::new("./pages", "/a/b.html.12")));
    assert_eq!(dir_gabage(&p), "./pages/gabage");
}

#[test]
fn page_url_on_local_host() {
    let u = page_url(&Page::new("./pages", "/a/b.html")).unwrap();
    assert_eq!(u.serialization, "http://127.0.0.1/a/b.html");
    assert_eq!(u.host, Some("127.0.0.1".to_string()));
    assert_eq!(u.path, "/a/b.html");
    assert_eq!(u.last_segment, Some("b.html".to_string()));
    assert_eq!(u.fragment, None);
}

#[test]
fn hrefs_seen_from_a_page() {
    let base = page_url(&Page::new("./pages", "/a/b.html")).unwrap();
    assert_eq!(href_on(&base, "#x"), Some(("#x".to_string(), false)));
    assert_eq!(href_on(&base, ""), None);
    assert_eq!(href_on(&base, "c/d.html"), Some(("c/d.html".to_string(), true)));
    assert_eq!(href_on(&base, "c/d.html#s"), Some(("c/d.html#s".to_string(), true)));
    assert_eq!(href_on(&base, "/z/y.html#f"), Some(("/z/y.html#f".to_string(), false)));
    assert_eq!(href_on(&base, "../up.html"), Some(("/up.html".to_string(), false)));
    assert_eq!(href_on(&base, "http://other.com/x"), Some(("http://other.com/x".to_string(), false)));
}

#[test]
fn href_rebased() {
    let parent = page_url(&Page::new("./pages", "/a/b.html")).unwrap();
    let child = page_url(&Page::new("./pages", "/a/c/d.html")).unwrap();
    assert_eq!(href_url(&parent, "b.html", &child), Some("../b.html".to_string()));
    assert_eq!(href_url(&parent, "/top.html", &child), Some("../../top.html".to_string()));
}

#[test]
fn child_title_and_href_checked() {
    assert_eq!(title_href_check("  T ", " c.html "), Ok(("T", "c.html")));
    assert!(title_href_check("   ", "c.html").is_err());
    assert!(title_href_check("T", "#frag").is_err());
    assert!(title_href_check("T", "  ").is_err());
}

#[test]
fn child_navi_rebased() {
    let mut parent_json = page_json_plain();
    let mut navi = Json::new_array();
    navi.push(navi_item("Top", "/top.html"));
    navi.push(navi_item("Here", ""));
    parent_json.set_path(&["data", "navi"], navi);
    let parent = page_url(&Page::new("./pages", "/a/b.html")).unwrap();
    let child = page_url(&Page::new("./pages", "/a/c/d.html")).unwrap();
    let n = child_navi(&parent_json, &parent, &child).unwrap();
    assert_eq!(n.len(), 2);
    assert_eq!(n.at(0).unwrap().at(0).unwrap().as_str(), Some("Top"));
    assert_eq!(n.at(0).unwrap().at(1).unwrap().as_str(), Some("../../top.html"));
    assert_eq!(n.at(1).unwrap().at(1).unwrap().as_str(), Some("../b.html"));
    assert!(child_navi(&Json::new_object(), &parent, &child).is_err());
}

#[test]
fn new_child_page() {
    let parent = Page::new("./pages", "/a/b.html");
    let mut parent_json = page_json_plain();
    let mut navi = Json::new_array();
    navi.push(navi_item("Top", "/top.html"));
    parent_json.set_path(&["data", "navi"], navi);
    let (child, cj) = page_child_new(&parent, Some(&parent_json), " Child ", " c/d.html ").unwrap();
    assert_eq!(child.stor_root(), "./pages");
    assert_eq!(child.page_path(), "/a/c/d.html");
    assert_eq!(cj.get_path(&["data", "page", "title"]).unwrap().as_str(), Some("Child"));
    let n = cj.get_path(&["data", "navi"]).unwrap();
    assert_eq!(n.len(), 2);
    assert_eq!(n.at(1).unwrap().at(0).unwrap().as_str(), Some("Child"));
    assert_eq!(n.at(1).unwrap().at(1).unwrap().as_str(), Some(""));
    assert!(page_child_new(&parent, None, "Child", "c/d.html").is_err());
    assert!(page_child_new(&parent, Some(&parent_json), "", "c/d.html").is_err());
    assert!(page_child_new(&parent, Some(&parent_json), "Child", "#x").is_err());
}
