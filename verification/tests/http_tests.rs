use wc_note::http::{
    _http_400, handle_href, handle_href_temp, head_value, http_404, http_err, http_form, http_hello, http_ok,
    json_save_reply, page_move_reply, page_move_request, page_new_reply, page_new_request, post_kind,
    request_of_parsed, response_route, HttpRequest, ParsedRequest, PostKind, Route,
};

fn post(path: &str, wc_request: Option<&str>, host: Option<&str>, body: &str) -> Vec<u8> {
    let mut head = format!("POST {} HTTP/1.1\r\n", path);
    if let Some(w) = wc_request {
        head.push_str(&format!("wc-request: {}\r\n", w));
    }
    if let Some(h) = host {
        head.push_str(&format!("Host: {}\r\n", h));
    }
    head.push_str(&format!("Content-Length: {}\r\n\r\n", body.len()));
    let mut bytes = head.into_bytes();
    bytes.extend_from_slice(body.as_bytes());
    bytes
}

fn ok_with(body: &str) -> Vec<u8> {
    format!("HTTP/1.1 200 OK\r\nContent-Length: {}\r\n\r\n{}", body.len(), body).into_bytes()
}

#[test]
fn response_forms() {
    assert_eq!(http_form("200 OK", &b"abc".to_vec()), b"HTTP/1.1 200 OK\r\nContent-Length: 3\r\n\r\nabc".to_vec());
    assert_eq!(http_ok(&vec![]), b"HTTP/1.1 200 OK\r\nContent-Length: 0\r\n\r\n".to_vec());
    assert_eq!(http_404(), b"HTTP/1.1 404 Not Found.\r\nContent-Length: 14\r\n\r\n404 Not Found.".to_vec());
    assert_eq!(_http_400(), b"HTTP/1.1 400 Bad Request.\r\nContent-Length: 16\r\n\r\n400 Bad Request.".to_vec());
    assert_eq!(http_err("500 X"), b"HTTP/1.1 500 X\r\nContent-Length: 5\r\n\r\n500 X".to_vec());
    assert_eq!(http_hello(), ok_with("Hello"));
}

#[test]
fn get_keeps_method_and_path_only() {
    let r = HttpRequest::from(b"GET /a/b.html HTTP/1.1\r\nHost: x\r\nwc-request: json_save\r\n\r\n").unwrap();
    assert_eq!(r.method(), "GET");
    assert_eq!(r.path(), "/a/b.html");
    assert_eq!(r.wc_request(), None);
    assert_eq!(r.host(), None);
    assert!(r.body().is_none());
    assert_eq!(response_route(&r), Route::Get { from_json: true });
    let css = HttpRequest::from(b"GET /wc.css HTTP/1.1\r\n\r\n").unwrap();
    assert_eq!(response_route(&css), Route::Get { from_json: false });
}

#[test]
fn post_keeps_headers_and_body() {
    let r = HttpRequest::from(&post("/p.html", Some("json_save"), Some("127.0.0.1:3000"), "{\"a\":1}")).unwrap();
    assert_eq!(r.method(), "POST");
    assert_eq!(r.wc_request(), Some("json_save"));
    assert_eq!(r.host(), Some("127.0.0.1:3000"));
    assert_eq!(r.body(), Some(&b"{\"a\":1}".to_vec()));
    assert_eq!(r.body_string(), Some("{\"a\":1}".to_string()));
    assert!(r.body_json().is_some());
    assert_eq!(post_kind(&r), PostKind::JsonSave);
    assert_eq!(response_route(&r), Route::Post(PostKind::JsonSave));
}

#[test]
fn garbage_is_refused() {
    assert!(HttpRequest::from(b"\x00\x01\x02 \r\n\r\n").is_err());
}

#[test]
fn post_kinds() {
    let kind = |w: Option<&str>| post_kind(&HttpRequest::from(&post("/p.html", w, None, "")).unwrap());
    assert_eq!(kind(None), PostKind::Missing);
    assert_eq!(kind(Some("json_save")), PostKind::JsonSave);
    assert_eq!(kind(Some("page_new")), PostKind::PageNew);
    assert_eq!(kind(Some("href")), PostKind::Href);
    assert_eq!(kind(Some("page_move")), PostKind::PageMove);
    assert_eq!(kind(Some("page_upgrade")), PostKind::Other);
}

#[test]
fn backup_revisions_refuse_posts() {
    let r = HttpRequest::from(&post("/p.html.003", Some("json_save"), None, "")).unwrap();
    assert!(r.path_ends_with_rev());
    assert_eq!(response_route(&r), Route::NotFound);
    let g = HttpRequest::from(b"GET /p.html.003 HTTP/1.1\r\n\r\n").unwrap();
    assert_eq!(response_route(&g), Route::Get { from_json: true });
    let other = HttpRequest::from(b"PUT /p.html HTTP/1.1\r\n\r\n").unwrap();
    assert!(!other.path_ends_with_rev());
    assert_eq!(response_route(&other), Route::Hello);
}

#[test]
fn first_header_of_the_name() {
    let p = ParsedRequest {
        method: None,
        path: None,
        headers: vec![("Host".to_string(), b"x".to_vec()), ("Host".to_string(), b"y".to_vec())],
        body_offset: None,
    };
    assert_eq!(head_value(&p, "Host"), Some(&b"x".to_vec()));
    assert_eq!(head_value(&p, "host"), None);
}

#[test]
fn href_answered_with_destination() {
    let r = HttpRequest::from(&post("/p.html", Some("href"), None, "{\"href\":\"x.html\"}")).unwrap();
    assert_eq!(handle_href(&r), Ok(ok_with("{\"dest\":\"x.html\"}")));
    assert_eq!(handle_href_temp(&r), Ok(ok_with("{\"dest\":\"x.html\"}")));
    let none = HttpRequest::from(&post("/p.html", Some("href"), None, "{\"other\":1}")).unwrap();
    assert!(handle_href(&none).is_err());
    let bad = HttpRequest::from(&post("/p.html", Some("href"), None, "not json")).unwrap();
    assert!(handle_href(&bad).is_err());
}

#[test]
fn json_save_replies() {
    assert_eq!(json_save_reply(Ok(3)), ok_with("{\"res\":\"post_handle page_json_save\"}"));
    assert_eq!(json_save_reply(Err("rev not match 1 : 2".to_string())), ok_with("{\"res\":\"rev not match 1 : 2\"}"));
}

#[test]
fn request_url_needs_a_host() {
    let r = HttpRequest::from(&post("/a/b.html", None, Some("127.0.0.1:3000"), "")).unwrap();
    let u = r.url().unwrap();
    assert_eq!(u.serialization, "https://127.0.0.1:3000/a/b.html");
    assert_eq!(u.host, Some("127.0.0.1".to_string()));
    assert_eq!(u.path, "/a/b.html");
    let no_host = HttpRequest::from(&post("/a/b.html", None, None, "")).unwrap();
    assert!(no_host.url().is_none());
}

#[test]
fn page_move_request_read() {
    let body = "{\"parent_url\":\" \",\"dest_url\":\" ../c/d.html \"}";
    let r = HttpRequest::from(&post("/a/b.html", Some("page_move"), Some("h"), body)).unwrap();
    let (page, dest, parent) = page_move_request(&r).unwrap();
    assert_eq!(page.serialization, "https://h/a/b.html");
    assert_eq!(dest.serialization, "https://h/c/d.html");
    assert!(parent.is_none());

    let body = "{\"parent_url\":\"/p/q.html\",\"dest_url\":\"x.html\"}";
    let r = HttpRequest::from(&post("/a/b.html", Some("page_move"), Some("h"), body)).unwrap();
    let (_, dest, parent) = page_move_request(&r).unwrap();
    assert_eq!(dest.path, "/a/x.html");
    assert_eq!(parent.unwrap().path, "/p/q.html");

    let empty_dest = "{\"parent_url\":\"\",\"dest_url\":\"  \"}";
    let r = HttpRequest::from(&post("/a/b.html", Some("page_move"), Some("h"), empty_dest)).unwrap();
    assert!(page_move_request(&r).is_err());
    let no_parent = "{\"dest_url\":\"x.html\"}";
    let r = HttpRequest::from(&post("/a/b.html", Some("page_move"), Some("h"), no_parent)).unwrap();
    assert!(page_move_request(&r).is_err());
    let body = "{\"parent_url\":\"\",\"dest_url\":\"x.html\"}";
    let r = HttpRequest::from(&post("/a/b.html", Some("page_move"), None, body)).unwrap();
    assert!(page_move_request(&r).is_err());
}

#[test]
fn page_move_replies() {
    assert_eq!(page_move_reply(Ok(())), ok_with("{\"res\":\"moved\"}"));
    assert_eq!(page_move_reply(Err("Already moved".to_string())), ok_with("{\"Err\":\"Already moved\"}"));
}

#[test]
fn page_new_request_read() {
    let body = "{\"title\":\"T\",\"href\":\"c.html\"}";
    let r = HttpRequest::from(&post("/a/b.html", Some("page_new"), Some("h"), body)).unwrap();
    assert_eq!(page_new_request(&r), Ok(("T".to_string(), "c.html".to_string())));
    let r = HttpRequest::from(&post("/a/b.html", Some("page_new"), None, body)).unwrap();
    assert!(page_new_request(&r).is_err());
    let r = HttpRequest::from(&post("/a/b.html", Some("page_new"), Some("h"), "{\"title\":\"T\"}")).unwrap();
    assert!(page_new_request(&r).is_err());
    assert_eq!(page_new_reply(true), ok_with("{\"res\":\"post_handle page_new\"}"));
    assert_eq!(page_new_reply(false), ok_with("{\"res\":\"post_handle page_new failed\"}"));
}

#[test]
fn request_made_of_what_was_read() {
    let data = b"HEADBODY";
    let parsed = ParsedRequest {
        method: Some("POST".to_string()),
        path: Some("/a.html".to_string()),
        headers: vec![
            ("Host".to_string(), b"example.org".to_vec()),
            ("wc-request".to_string(), vec![0xff]),
            ("Host".to_string(), b"other.org".to_vec()),
        ],
        body_offset: Some(4),
    };
    let r = request_of_parsed(data, Some(parsed)).unwrap();
    assert_eq!(r.method(), "POST");
    assert_eq!(r.path(), "/a.html");
    // The first header of a name counts; one that is not UTF-8 is dropped.
    assert_eq!(r.host(), Some("example.org"));
    assert_eq!(r.wc_request(), None);
    assert_eq!(r.body().map(|b| b.as_slice()), Some(&b"BODY"[..]));
    // A GET keeps method and path only.
    let get = ParsedRequest {
        method: Some("GET".to_string()),
        path: Some("/".to_string()),
        headers: vec![("Host".to_string(), b"example.org".to_vec())],
        body_offset: Some(0),
    };
    let g = request_of_parsed(data, Some(get)).unwrap();
    assert_eq!(g.host(), None);
    assert!(g.body().is_none());
    // Without a path, or with nothing read, there is no request.
    let no_path = ParsedRequest { method: Some("GET".to_string()), path: None, headers: vec![], body_offset: None };
    assert!(request_of_parsed(data, Some(no_path)).is_err());
    assert!(request_of_parsed(data, None).is_err());
}
