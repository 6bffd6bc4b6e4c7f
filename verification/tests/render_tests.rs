use wc_note::dom::{
    attrs_match, child_match_first, child_match_list, children, edit_first, element_match, first_attr_exec,
    to_dom, DomNode, Edit,
};
use wc_note::js_css::{handle_dtype, setup};
use wc_note::json_value::{Json, JsonNumber};
use wc_note::page_from_dom::{get_span_json, json_from_dom_script, json_from_dom_span, script_json_str, span_json_str};
use wc_note::page_from_html::{json_from_dom, json_of_source};
use wc_note::page_json::{page_json_plain, PageJson};
use wc_note::page_render::{
    content, index, navi, navi_back, node_text, page_dom_from_json, page_html_plain, render_safe_check,
    source_from_json, style_link_relative_set, subsection_built, subsection_children_indexes, subsection_node_new,
    text_in_html_str, to_dom_parts,
};

fn name(d: &DomNode) -> &str {
    match d {
        DomNode::Element(n, _, _, _) => n.as_str(),
        _ => "",
    }
}

fn text(d: &DomNode) -> &str {
    match d {
        DomNode::Text(t) => t.as_str(),
        _ => "",
    }
}

fn kids(d: &DomNode) -> &Vec<DomNode> {
    children(d).unwrap()
}

fn attr<'a>(d: &'a DomNode, key: &str) -> Option<&'a str> {
    match d {
        DomNode::Element(_, a, _, _) => first_attr_exec(a, key).map(|s| s.as_str()),
        _ => None,
    }
}

fn num(n: u64) -> Json {
    Json::Number(JsonNumber { positive: true, mantissa: n, exponent: 0 })
}

fn pair(a: &str, b: &str) -> Json {
    let mut x = Json::new_array();
    x.push(Json::string(a));
    x.push(Json::string(b));
    x
}

fn text_item(value: &str) -> Json {
    let mut c = Json::new_object();
    c.set("type", Json::string("text"));
    c.set("value", Json::string(value));
    c
}

/// A page with navigation Top > Doc and one child subsection `#intro`.
fn doc() -> Json {
    let mut p = PageJson::new();
    let s = p.subsection_new(0).unwrap();
    s.href_set(&mut p, "#intro");
    s.title_set(&mut p, "Intro");
    s.contents_push(&mut p, text_item("hello"));
    let mut j = p.value().unwrap().deep_clone();
    j.set_path(&["data", "page", "title"], Json::string("Doc"));
    let mut n = Json::new_array();
    n.push(pair("Top", "/top.html"));
    n.push(pair("Doc", ""));
    j.set_path(&["data", "navi"], n);
    j
}

const PAGE: &str = "<html><head><title>T</title><link rel=\"stylesheet\" href=\"/wc.css\"></head><body><p id=\"x\" class=\"c\">hi</p><div><p>two</p></div></body></html>";

#[test]
fn search_a_document() {
    let d = to_dom(PAGE);
    let p = child_match_first(&d, "p", &[("id", "x")], true).unwrap();
    assert_eq!(text(&kids(p)[0]), "hi");
    assert!(element_match(p, "p", &[("class", "c")]));
    assert!(!element_match(p, "p", &[("class", "d")]));
    assert!(child_match_first(&d, "p", &[("id", "none")], true).is_none());
    // Not recursive: only the document's own children are looked at.
    assert!(child_match_first(&d, "p", &[], false).is_none());
    let all = child_match_list(&d, "p", &[], true, false);
    assert_eq!(all.len(), 2);
    assert_eq!(text(&kids(all[1])[0]), "two");
    let first = child_match_list(&d, "p", &[], true, true);
    assert_eq!(first.len(), 1);
    if let DomNode::Element(_, a, _, _) = p {
        assert!(attrs_match(a, &[("id", "x"), ("class", "c")]));
        assert!(!attrs_match(a, &[("id", "y")]));
    }
}

#[test]
fn edit_the_first_match() {
    let mut d = to_dom(PAGE);
    assert!(edit_first(&mut d, "p", &[("id", "x")], Edit::SetAttr("id".to_string(), "y".to_string())));
    assert!(child_match_first(&d, "p", &[("id", "y")], true).is_some());
    assert!(edit_first(&mut d, "div", &[], Edit::PushChild(node_text("added"))));
    let div = child_match_first(&d, "div", &[], true).unwrap();
    assert_eq!(kids(div).len(), 2);
    assert_eq!(text(&kids(div)[1]), "added");
    assert!(!edit_first(&mut d, "table", &[], Edit::PushChild(node_text("x"))));
}

#[test]
fn deep_copy() {
    let d = to_dom(PAGE);
    let copy = d.deep_clone();
    let p = child_match_first(&copy, "p", &[("id", "x")], true).unwrap();
    assert_eq!(text(&kids(p)[0]), "hi");
    assert_eq!(child_match_list(&copy, "p", &[], true, false).len(), 2);
}

#[test]
fn parts_of_html() {
    let parts = to_dom_parts("<b>x</b>y");
    assert_eq!(parts.len(), 2);
    assert_eq!(name(&parts[0]), "b");
    assert_eq!(text(&parts[1]), "y");
    assert_eq!(text_in_html_str("a\\<b"), "<p>a&lt;b</p>");
}

#[test]
fn document_read_from_span_and_script() {
    let page = to_dom("<html><body><span id=\"page_json_str\">{\"a\":1}</span></body></html>");
    assert!(get_span_json(&page).is_some());
    assert_eq!(span_json_str(&page), Some("{\"a\":1}".to_string()));
    assert!(json_from_dom_span(&page).is_some());
    assert!(json_from_dom(&page).is_some());
    let old = to_dom("<html><head><script type=\"text/javascript\">let page_json = {\"b\":2}\n</script></head><body></body></html>");
    assert_eq!(script_json_str(&old), Some("{\"b\":2}".to_string()));
    let j = json_from_dom_script(&old).unwrap();
    assert!(matches!(j.get("b"), Some(Json::Number(n)) if n.mantissa == 2));
    assert!(json_from_dom_span(&old).is_none());
    assert!(json_of_source(&[0xff, 0xfe]).is_none());
}

#[test]
fn navigation_bar() {
    let n = navi(&doc()).unwrap();
    assert_eq!(name(&n), "div");
    let k = kids(&n);
    assert_eq!(k.len(), 3);
    assert_eq!(name(&k[0]), "a");
    assert_eq!(attr(&k[0], "href"), Some("/top.html"));
    assert_eq!(text(&kids(&k[0])[0]), "Top");
    assert_eq!(text(&k[1]), " > ");
    assert_eq!(text(&k[2]), "Doc");
    assert_eq!(navi(&Json::new_object()).err(), Some("Failed to get navi data from page_json".to_string()));
}

#[test]
fn back_and_top_links() {
    let b = navi_back();
    let k = kids(&b);
    assert_eq!(k.len(), 3);
    assert_eq!(attr(&k[0], "href"), Some("javascript:history.back()"));
    assert_eq!(text(&k[1]), " ");
    assert_eq!(attr(&k[2], "href"), Some("#"));
    assert_eq!(text(&kids(&k[2])[0]), "top");
}

#[test]
fn child_ids_read() {
    let j = doc();
    let subs = j.get_path(&["data", "subsection", "data"]).unwrap();
    assert_eq!(subsection_children_indexes(subs, 0), Ok(vec![1]));
    assert_eq!(subsection_children_indexes(subs, 1), Ok(vec![]));
    assert_eq!(subsection_children_indexes(subs, 5), Err("Failed to get parent subsection: 5".to_string()));
    let mut bad = subs.deep_clone();
    let mut c = Json::new_array();
    c.push(Json::Boolean(true));
    bad.set_path(&["0", "child"], c);
    assert_eq!(subsection_children_indexes(&bad, 0), Err("Failed to get number of: true".to_string()));
}

#[test]
fn subsection_elements() {
    let mut s = Json::new_object();
    s.set("href", Json::string("#intro"));
    let n = subsection_node_new(&s).unwrap();
    assert_eq!(attr(&n, "id"), Some("intro"));
    s.set("href", Json::string("#"));
    assert_eq!(attr(&subsection_node_new(&s).unwrap(), "class"), Some("id_undefined"));
    s.set("href", Json::string("intro"));
    assert_eq!(subsection_node_new(&s).err(), Some("href not start with #".to_string()));
    assert_eq!(subsection_node_new(&Json::new_object()).err(), Some("Failed to get href".to_string()));

    let j = doc();
    let subs = j.get_path(&["data", "subsection", "data"]).unwrap();
    let built = subsection_built(subs, 1).unwrap();
    let k = kids(&built);
    assert_eq!(k.len(), 2);
    assert_eq!(attr(&k[0], "class"), Some("subsectionTitle"));
    assert_eq!(text(&kids(&k[0])[0]), "Intro");
    assert_eq!(kids(&k[1]).len(), 1);
    assert_eq!(subsection_built(subs, 0).err(), Some("href not start with #".to_string()));
    assert_eq!(subsection_built(subs, 7).err(), Some("Failed to get href".to_string()));
}

#[test]
fn content_kinds() {
    let t = content(&text_item("a\nb")).unwrap();
    assert_eq!(attr(&t, "class"), Some("html subsectionContent"));
    assert_eq!(name(&kids(&t)[0]), "p");
    let mut h = Json::new_object();
    h.set("type", Json::string("html"));
    h.set("value", Json::string("<i>x</i>"));
    let hn = content(&h).unwrap();
    assert_eq!(name(&kids(&hn)[0]), "i");
    let mut s = Json::new_object();
    s.set("type", Json::string("script"));
    s.set("value", Json::string("x"));
    let sn = content(&s).unwrap();
    assert_eq!(attr(&kids(&sn)[0], "class"), Some("script"));
    let mut o = Json::new_object();
    o.set("type", Json::string("other"));
    o.set("value", Json::string("x"));
    assert_eq!(content(&o).err(), Some("type does not match".to_string()));
    assert_eq!(content(&Json::new_object()).err(), Some("Failed to get content value".to_string()));
}

#[test]
fn index_of_a_page() {
    let ul = index(&doc()).unwrap();
    assert_eq!(name(&ul), "ul");
    let li = &kids(&ul)[0];
    assert_eq!(name(li), "li");
    let a = &kids(li)[0];
    assert_eq!(attr(a, "href"), Some("#intro"));
    assert_eq!(text(&kids(a)[0]), "Intro");
    assert_eq!(name(&kids(li)[1]), "ul");
    let mut none = doc();
    none.set_path(&["data", "subsection", "data"], Json::Null);
    assert_eq!(index(&none).err(), Some("Failed to get subsection data!".to_string()));
}

#[test]
fn subsections_that_loop_are_cut() {
    let mut j = doc();
    let mut c = Json::new_array();
    c.push(num(0));
    j.set_path(&["data", "subsection", "data", "1", "child"], c);
    // The index walks the loop until it gives up.
    assert!(index(&j).is_err());
    // The page is still made, without its static part.
    let d = page_dom_from_json("/a.html", &j).unwrap();
    assert!(child_match_first(&d, "div", &[("id", "page_top_node")], true).is_none());
}

#[test]
fn render_safety_checked() {
    assert!(render_safe_check(&doc()));
    let mut j = doc();
    let mut c = Json::new_array();
    c.push(Json::string("1"));
    j.set_path(&["data", "subsection", "data", "0", "child"], c);
    assert!(!render_safe_check(&j));
    assert!(render_safe_check(&Json::Null));
}

#[test]
fn only_reached_child_lists_matter() {
    // A subsection that the walk from the top never reaches may hold a
    // list that could not be read.
    let mut j = doc();
    let mut c = Json::new_array();
    c.push(Json::string("1"));
    j.set_path(&["data", "subsection", "data", "9", "child"], c);
    assert!(render_safe_check(&j));
    assert!(index(&j).is_ok());
    let d = page_dom_from_json("/a.html", &j).unwrap();
    assert!(child_match_first(&d, "div", &[("id", "page_top_node")], true).is_some());
    // The same list on the child of the top subsection is read.
    let mut k = doc();
    let mut c = Json::new_array();
    c.push(Json::string("1"));
    k.set_path(&["data", "subsection", "data", "1", "child"], c);
    assert!(!render_safe_check(&k));
}

#[test]
fn foreign_markup_keeps_its_namespaces() {
    let svg = "<svg><a xlink:href=\"#x\"><text>t</text></a></svg>";
    let d = to_dom(&format!("<html><body>{}</body></html>", svg));
    let a = child_match_first(&d, "a", &[], true).unwrap();
    match a {
        DomNode::Element(n, attrs, _, ns) => {
            assert_eq!(n, "a");
            assert_eq!(ns, "http://www.w3.org/2000/svg");
            assert_eq!(attrs[0].0, "href");
            assert_eq!(attrs[0].2, "http://www.w3.org/1999/xlink");
        }
        _ => panic!("not an element"),
    }
    // Found by its local name, as in an HTML element.
    assert!(element_match(a, "a", &[("href", "#x")]));
    // Written back with its prefix.
    let mut item = Json::new_object();
    item.set("type", Json::string("html"));
    item.set("value", Json::string(svg));
    let mut p = PageJson::new();
    let s = p.subsection_new(0).unwrap();
    s.href_set(&mut p, "#intro");
    s.title_set(&mut p, "Intro");
    s.contents_push(&mut p, item);
    let j = p.value().unwrap().deep_clone();
    let source = String::from_utf8(source_from_json("/a.html", &j)).unwrap();
    assert!(source.contains("xlink:href=\"#x\""));
}

#[test]
fn stylesheet_made_relative() {
    let mut d = to_dom(PAGE);
    style_link_relative_set(&mut d, "/a/b/c.html");
    let link = child_match_first(&d, "link", &[], true).unwrap();
    assert_eq!(attr(link, "href"), Some("../../wc.css"));
}

#[test]
fn page_made_from_its_document() {
    let d = page_dom_from_json("/doc.html", &doc()).unwrap();
    let title = child_match_first(&d, "title", &[], true).unwrap();
    assert_eq!(text(&kids(title)[0]), "Doc");
    let span = get_span_json(&d).unwrap();
    assert!(text(&kids(span)[0]).contains("\"Doc\""));
    let top = child_match_first(&d, "div", &[("id", "page_top_node")], true).unwrap();
    let k = kids(top);
    assert_eq!(k.len(), 5);
    assert_eq!(text(&k[1]), "static page");
    assert_eq!(name(&k[2]), "ul");
    assert_eq!(text(&kids(&k[4])[0]), "----");
    // The document read back from the page is the one it was made from.
    let back = json_from_dom(&d).unwrap();
    assert_eq!(back.get_path(&["data", "page", "title"]).unwrap().as_str(), Some("Doc"));
    let source = String::from_utf8(source_from_json("/doc.html", &doc())).unwrap();
    assert!(source.contains("static page"));
    assert!(source.contains("<title>Doc</title>"));
    let read = json_of_source(source.as_bytes()).unwrap();
    assert_eq!(read.rev(), Some(1));
}

#[test]
fn plain_page_text() {
    assert!(page_html_plain().contains("<span id=\"page_json_str\" style=\"display: none\"></span>"));
}

#[test]
fn shared_files() {
    let files = setup();
    assert_eq!(files.len(), 2);
    assert_eq!(files[0].0, "pages/wc.js");
    assert_eq!(files[1].0, "pages/wc.css");
    assert!(!files[0].1.is_empty());
    assert!(!files[1].1.is_empty());
    assert_eq!(handle_dtype("txt"), ("pages/wc.txt".to_string(), String::new()));
}

#[test]
fn plain_document_renders() {
    let j = page_json_plain();
    assert!(render_safe_check(&j));
    let d = page_dom_from_json("/p.html", &j).unwrap();
    assert!(child_match_first(&d, "div", &[("id", "page_top_node")], true).is_some());
}
