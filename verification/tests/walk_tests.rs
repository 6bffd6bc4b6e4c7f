use wc_note::json_value::Json;
use wc_note::move_walk::{MoveAction, MoveEvent, MoveWalk};
use wc_note::page::Page;
use wc_note::page_child::page_top_json;
use wc_note::page_json::{page_json_plain, PageJson};
use wc_note::page_move::page_move_check;
use wc_note::url_parts::{page_url, UrlParts};

fn url(path: &str) -> UrlParts {
    page_url(&Page::new("./pages", path)).unwrap()
}

/// A page with one subsection pointing to `href`.
fn with_child(title: &str, href: &str) -> Json {
    let mut p = PageJson::new();
    let s = p.subsection_new(0).unwrap();
    s.href_set(&mut p, href);
    s.contents_mut(&mut p);
    let mut j = p.value().unwrap().deep_clone();
    j.set_path(&["data", "page", "title"], Json::string(title));
    j
}

fn leaf(title: &str) -> Json {
    let mut j = page_json_plain();
    j.set_path(&["data", "page", "title"], Json::string(title));
    j
}

#[test]
fn walk_moves_children_depth_first() {
    let (mut walk, a) = MoveWalk::start(&with_child("A", "c/d.html"), &url("/a/b.html"), &url("/n/b.html"), None, None, false);
    assert!(matches!(a, MoveAction::Next));
    let a = walk.step(MoveEvent::Next);
    match &a {
        MoveAction::Load { org_url, dest_url } => {
            assert_eq!(org_url.path, "/a/c/d.html");
            assert_eq!(dest_url.path, "/n/c/d.html");
        },
        _ => panic!("expected a load"),
    }
    let a = walk.step(MoveEvent::Loaded { org_json: Some(leaf("D")), dest_data_exists: false });
    assert!(matches!(a, MoveAction::Next));
    // The child has no children: it is left, then the top page is.
    assert!(matches!(walk.step(MoveEvent::Next), MoveAction::Next));
    assert!(matches!(walk.step(MoveEvent::Next), MoveAction::Next));
    assert!(matches!(walk.step(MoveEvent::Next), MoveAction::Done(Ok(()))));
    assert!(matches!(walk.step(MoveEvent::Next), MoveAction::Done(Ok(()))));
    assert_eq!(walk.moving().org_path_list(), vec!["/a/b.html".to_string(), "/a/c/d.html".to_string()]);
    let (_, d, j) = walk.moving().get("/a/c/d.html").unwrap();
    assert_eq!(d.path, "/n/c/d.html");
    // The child's navigation starts with its new parent's.
    let n = j.get_path(&["data", "navi"]).unwrap();
    assert_eq!(n.at(0).unwrap().at(0).unwrap().as_str(), Some("A"));
    assert_eq!(n.at(0).unwrap().at(1).unwrap().as_str(), Some("/n/b.html"));
}

#[test]
fn unreadable_child_passed_over() {
    let (mut walk, _) = MoveWalk::start(&with_child("A", "c/d.html"), &url("/a/b.html"), &url("/n/b.html"), None, None, false);
    assert!(matches!(walk.step(MoveEvent::Next), MoveAction::Load { .. }));
    assert!(matches!(walk.step(MoveEvent::Loaded { org_json: None, dest_data_exists: false }), MoveAction::Next));
    assert!(matches!(walk.step(MoveEvent::Next), MoveAction::Next));
    assert!(matches!(walk.step(MoveEvent::Next), MoveAction::Done(Ok(()))));
    assert_eq!(walk.moving().org_path_list().len(), 1);
}

#[test]
fn refused_child_stops_the_move() {
    let (mut walk, _) = MoveWalk::start(&with_child("A", "c/d.html"), &url("/a/b.html"), &url("/n/b.html"), None, None, false);
    walk.step(MoveEvent::Next);
    match walk.step(MoveEvent::Loaded { org_json: Some(leaf("D")), dest_data_exists: true }) {
        MoveAction::Done(Err(e)) => assert_eq!(e, "The file data already exists: /n/c/d.html"),
        _ => panic!("expected the refusal"),
    }
}

#[test]
fn a_page_met_twice_is_refused() {
    // Two subsections point to the same child page.
    let mut p = PageJson::new();
    for _ in 0..2 {
        let s = p.subsection_new(0).unwrap();
        s.href_set(&mut p, "c/d.html");
        s.contents_mut(&mut p);
    }
    let org = p.value().unwrap().deep_clone();
    let (mut walk, _) = MoveWalk::start(&org, &url("/a/b.html"), &url("/n/b.html"), None, None, false);
    assert!(matches!(walk.step(MoveEvent::Next), MoveAction::Load { .. }));
    assert!(matches!(walk.step(MoveEvent::Loaded { org_json: Some(leaf("D")), dest_data_exists: false }), MoveAction::Next));
    assert!(matches!(walk.step(MoveEvent::Next), MoveAction::Next));
    match walk.step(MoveEvent::Next) {
        MoveAction::Load { org_url, .. } => assert_eq!(org_url.path, "/a/c/d.html"),
        _ => panic!("expected a load"),
    }
    match walk.step(MoveEvent::Loaded { org_json: Some(leaf("D")), dest_data_exists: false }) {
        MoveAction::Done(Err(e)) => assert_eq!(e, "Duplicated org_url: http://127.0.0.1/a/c/d.html"),
        _ => panic!("expected the refusal"),
    }
}

#[test]
fn refused_start() {
    let mut moved = leaf("A");
    moved.set_path(&["data", "page", "moved_to"], Json::string("/x.html"));
    let (_, a) = MoveWalk::start(&moved, &url("/a/b.html"), &url("/n/b.html"), None, None, false);
    assert!(matches!(a, MoveAction::Done(Err(_))));
}

#[test]
fn moved_page_not_moved_again() {
    let mut moved = leaf("A");
    moved.set_path(&["data", "page", "moved_to"], Json::string("/x.html"));
    let pj = PageJson::from(moved);
    assert_eq!(page_move_check(Some(&pj), "/a/b.html"), Err("This page already moved to: /a/b.html".to_string()));
    assert_eq!(page_move_check(Some(&PageJson::new()), "/a/b.html"), Ok(()));
    assert_eq!(page_move_check(None, "/a/b.html"), Ok(()));
}

#[test]
fn top_page_document() {
    let j = page_top_json();
    assert_eq!(j.get_path(&["data", "page", "title"]).unwrap().as_str(), Some("Top"));
    let n = j.get_path(&["data", "navi"]).unwrap();
    assert_eq!(n.len(), 1);
    assert_eq!(n.at(0).unwrap().at(0).unwrap().as_str(), Some("Top"));
    assert_eq!(n.at(0).unwrap().at(1).unwrap().as_str(), Some(""));
}
