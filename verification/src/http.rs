//! HTTP requests and responses: the request line and headers as `httparse`
//! reads them, and the responses the server writes.
use vstd::prelude::*;
use vstd::utf8::{valid_utf8, decode_utf8, encode_utf8};
use crate::strings::{decimal, push_decimal, str_contains, contains_text};
use crate::text_html::push_all;
use crate::regex_calls::{regex_find, regex_find_result};
use crate::json_value::{Json, JsonV, json_parse, json_parse_result, jv_get, jv_as_str};
use crate::url_parts::{UrlParts, UrlV, url_parse, url_parse_result, url_join, url_join_result};
use crate::strings::{trim, trim_spec};

verus! {

/// The most headers a request may carry.
pub const MAX_HEADERS: usize = 64;

/// What `httparse` read of a request, as plain values.
pub struct ParsedRequest {
    pub method: Option<String>,
    pub path: Option<String>,
    pub headers: Vec<(String, Vec<u8>)>,
    /// Where the body starts, when the head was complete.
    pub body_offset: Option<usize>,
}

pub struct ParsedRequestV {
    pub method: Option<Seq<char>>,
    pub path: Option<Seq<char>>,
    pub headers: Seq<(Seq<char>, Seq<u8>)>,
    pub body_offset: Option<usize>,
}

pub open spec fn opt_view(o: Option<String>) -> Option<Seq<char>> {
    match o {
        Some(s) => Some(s@),
        None => None,
    }
}

impl View for ParsedRequest {
    type V = ParsedRequestV;

    open spec fn view(&self) -> ParsedRequestV {
        ParsedRequestV {
            method: opt_view(self.method),
            path: opt_view(self.path),
            headers: self.headers@.map_values(|h: (String, Vec<u8>)| (h.0@, h.1@)),
            body_offset: self.body_offset,
        }
    }
}

/// What `httparse::Request::parse` gives for a buffer with room for
/// `max_headers` headers: `None` on a parse error.
pub uninterp spec fn httparse_result(data: Seq<u8>, max_headers: usize) -> Option<ParsedRequestV>;

/// Calls `httparse::Request::parse`. Trusted: the result is the named result,
/// and a complete head ends inside the buffer (the length it reports is the
/// number of bytes of the buffer that it read).
#[verifier::external_body]
pub(crate) fn http_parse(data: &[u8], max_headers: usize) -> (res: Option<ParsedRequest>)
    ensures
        match res {
            Some(p) => httparse_result(data@, max_headers) == Some(p@)
                && (p.body_offset matches Some(o) ==> o <= data@.len()),
            None => httparse_result(data@, max_headers) is None,
        },
{
    let mut headers = vec![httparse::EMPTY_HEADER; max_headers];
    let mut request = httparse::Request::new(&mut headers);
    let body_offset = match request.parse(data) {
        Ok(httparse::Status::Complete(l)) => Some(l),
        Ok(httparse::Status::Partial) => None,
        Err(_) => return None,
    };
    Some(ParsedRequest {
        method: request.method.map(|m| m.to_owned()),
        path: request.path.map(|p| p.to_owned()),
        headers: request.headers.iter().map(|h| (h.name.to_owned(), h.value.to_vec())).collect(),
        body_offset,
    })
}

/// Calls `String::from_utf8`. Trusted: as std documents, the bytes are
/// accepted exactly when they are valid UTF-8, and the text is what they
/// encode.
#[verifier::external_body]
pub(crate) fn string_from_utf8(bytes: &[u8]) -> (res: Option<String>)
    ensures
        res is Some <==> valid_utf8(bytes@),
        res matches Some(s) ==> s@ == decode_utf8(bytes@),
{
    String::from_utf8(bytes.to_vec()).ok()
}

/// The text of valid UTF-8 bytes.
pub open spec fn utf8_text(b: Seq<u8>) -> Option<Seq<char>> {
    if valid_utf8(b) { Some(decode_utf8(b)) } else { None }
}

/// The value of the first header named exactly `name`.
pub open spec fn head_value_spec(headers: Seq<(Seq<char>, Seq<u8>)>, name: Seq<char>) -> Option<Seq<u8>>
    decreases headers.len(),
{
    if headers.len() == 0 {
        None
    } else if headers[0].0 == name {
        Some(headers[0].1)
    } else {
        head_value_spec(headers.drop_first(), name)
    }
}

/// The value of the first header named exactly `name`.
pub fn head_value<'a>(request: &'a ParsedRequest, name: &str) -> (res: Option<&'a Vec<u8>>)
    ensures
        match res {
            Some(v) => head_value_spec(request@.headers, name@) == Some(v@),
            None => head_value_spec(request@.headers, name@) is None,
        },
{
    let ghost hs = request@.headers;
    let n = request.headers.len();
    let key = name.to_owned();
    assert(hs.subrange(0, n as int) =~= hs);
    for i in 0..n
        invariant
            n == request.headers@.len(),
            hs == request@.headers,
            hs.len() == n,
            key@ == name@,
            head_value_spec(hs, name@) == head_value_spec(hs.subrange(i as int, n as int), name@),
    {
        let h = &request.headers[i];
        assert(hs.subrange(i as int, n as int)[0] == (h.0@, h.1@));
        assert(hs.subrange(i as int, n as int).drop_first() =~= hs.subrange(i + 1, n as int));
        if h.0 == key {
            return Some(&h.1);
        }
    }
    None
}

/// A request as the server reads it.
pub struct HttpRequest {
    method: String,
    path: String,
    wc_request: Option<String>,
    host: Option<String>,
    body: Option<Vec<u8>>,
}

pub struct HttpRequestV {
    pub method: Seq<char>,
    pub path: Seq<char>,
    pub wc_request: Option<Seq<char>>,
    pub host: Option<Seq<char>>,
    pub body: Option<Seq<u8>>,
}

impl View for HttpRequest {
    type V = HttpRequestV;

    closed spec fn view(&self) -> HttpRequestV {
        HttpRequestV {
            method: self.method@,
            path: self.path@,
            wc_request: opt_view(self.wc_request),
            host: opt_view(self.host),
            body: match self.body {
                Some(b) => Some(b@),
                None => None,
            },
        }
    }
}

/// The text of a header, when it is present and valid UTF-8.
pub open spec fn head_text(p: ParsedRequestV, name: Seq<char>) -> Option<Seq<char>> {
    match head_value_spec(p.headers, name) {
        Some(v) => utf8_text(v),
        None => None,
    }
}

/// The request made of the bytes received and what was read of their head:
/// none when the head could not be read; method and path are needed; a
/// `GET` keeps nothing more; any other method also keeps the `wc-request`
/// and `Host` headers (when valid UTF-8) and, when the head was complete,
/// the bytes after it as body.
pub open spec fn request_of_parsed_spec(data: Seq<u8>, parsed: Option<ParsedRequestV>) -> Option<HttpRequestV> {
    match parsed {
        None => None,
        Some(p) => {
            if p.path is None || p.method is None {
                None
            } else if p.method.unwrap() == "GET"@ {
                Some(HttpRequestV { method: p.method.unwrap(), path: p.path.unwrap(), wc_request: None, host: None, body: None })
            } else {
                Some(HttpRequestV {
                    method: p.method.unwrap(),
                    path: p.path.unwrap(),
                    wc_request: head_text(p, "wc-request"@),
                    host: head_text(p, "Host"@),
                    body: match p.body_offset {
                        Some(o) => Some(data.subrange(o as int, data.len() as int)),
                        None => None,
                    },
                })
            }
        },
    }
}

/// The request read from the bytes received (see `request_of_parsed_spec`).
pub open spec fn request_spec(data: Seq<u8>) -> Option<HttpRequestV> {
    request_of_parsed_spec(data, httparse_result(data, MAX_HEADERS))
}

/// Makes the request of the bytes received and what was read of their head.
pub fn request_of_parsed(stream_data: &[u8], parsed: Option<ParsedRequest>) -> (res: Result<HttpRequest, ()>)
    requires
        parsed matches Some(p) ==> (p.body_offset matches Some(o) ==> o <= stream_data@.len()),
    ensures
        match res {
            Ok(r) => request_of_parsed_spec(stream_data@, match parsed {
                Some(p) => Some(p@),
                None => None,
            }) == Some(r@),
            Err(_) => request_of_parsed_spec(stream_data@, match parsed {
                Some(p) => Some(p@),
                None => None,
            }) is None,
        },
{
    let request = match parsed {
        Some(p) => p,
        None => return Err(()),
    };
    let path = match &request.path {
        Some(p) => p.clone(),
        None => return Err(()),
    };
    let method = match &request.method {
        Some(m) => m.clone(),
        None => return Err(()),
    };
    let mut http_request = HttpRequest { method, path, wc_request: None, host: None, body: None };
    let get = "GET".to_owned();
    if http_request.method == get {
        return Ok(http_request);
    }
    if let Some(v) = head_value(&request, "wc-request") {
        http_request.wc_request = string_from_utf8(v.as_slice());
    }
    if let Some(v) = head_value(&request, "Host") {
        http_request.host = string_from_utf8(v.as_slice());
    }
    if let Some(offset) = request.body_offset {
        let mut body: Vec<u8> = Vec::new();
        push_all(&mut body, &stream_data[offset..stream_data.len()]);
        http_request.body = Some(body);
    }
    Ok(http_request)
}

/// The URL of the requested page, made of its `Host` and its path.
pub open spec fn request_url_spec(r: HttpRequestV) -> Option<UrlV> {
    match r.host {
        Some(h) => url_parse_result("https://"@ + h + r.path),
        None => None,
    }
}

/// The text of the body, when there is one and it is valid UTF-8.
pub open spec fn body_text(r: HttpRequestV) -> Option<Seq<char>> {
    match r.body {
        Some(b) => utf8_text(b),
        None => None,
    }
}

impl HttpRequest {
    /// Reads a request from the bytes received.
    pub fn from(stream_data: &[u8]) -> (res: Result<HttpRequest, ()>)
        ensures
            match res {
                Ok(r) => request_spec(stream_data@) == Some(r@),
                Err(_) => request_spec(stream_data@) is None,
            },
    {
        let parsed = http_parse(stream_data, MAX_HEADERS);
        request_of_parsed(stream_data, parsed)
    }

    pub fn method(&self) -> (res: &str)
        ensures
            res@ == self@.method,
    {
        self.method.as_str()
    }

    pub fn path(&self) -> (res: &str)
        ensures
            res@ == self@.path,
    {
        self.path.as_str()
    }

    pub fn wc_request(&self) -> (res: Option<&str>)
        ensures
            match res {
                Some(s) => self@.wc_request == Some(s@),
                None => self@.wc_request is None,
            },
    {
        match &self.wc_request {
            Some(v) => Some(v.as_str()),
            None => None,
        }
    }

    pub fn host(&self) -> (res: Option<&str>)
        ensures
            match res {
                Some(s) => self@.host == Some(s@),
                None => self@.host is None,
            },
    {
        match &self.host {
            Some(v) => Some(v.as_str()),
            None => None,
        }
    }

    pub fn body(&self) -> (res: Option<&Vec<u8>>)
        ensures
            match res {
                Some(b) => self@.body == Some(b@),
                None => self@.body is None,
            },
    {
        match &self.body {
            Some(b) => Some(b),
            None => None,
        }
    }

    /// The body as text, when it is valid UTF-8.
    pub fn body_string(&self) -> (res: Option<String>)
        ensures
            match res {
                Some(s) => body_text(self@) == Some(s@),
                None => body_text(self@) is None,
            },
    {
        match &self.body {
            Some(b) => string_from_utf8(b.as_slice()),
            None => None,
        }
    }

    /// The body read as JSON.
    pub fn body_json(&self) -> (res: Option<Json>)
        ensures
            match res {
                Some(j) => body_text(self@) matches Some(t) && json_parse_result(t) == Some(j@),
                None => body_text(self@) is None || json_parse_result(body_text(self@).unwrap()) is None,
            },
    {
        let text = self.body_string()?;
        json_parse(text.as_str())
    }

    /// The URL of the requested page: `https://`, the `Host` header and the
    /// path; none without a `Host`.
    pub fn url(&self) -> (res: Option<UrlParts>)
        ensures
            match res {
                Some(u) => request_url_spec(self@) == Some(u@),
                None => request_url_spec(self@) is None,
            },
    {
        let host = match &self.host {
            Some(h) => h,
            None => return None,
        };
        let mut text = "https://".to_owned();
        text.append(host.as_str());
        text.append(self.path.as_str());
        url_parse(text.as_str())
    }

    /// Whether the path names a backup revision, such as `abc.html.003`.
    pub fn path_ends_with_rev(&self) -> (res: bool)
        ensures
            res == (regex_find_result(REV_SUFFIX_PATTERN@, encode_utf8(self@.path)) is Some),
    {
        regex_find(REV_SUFFIX_PATTERN, self.path.as_str().as_bytes()).is_some()
    }
}

/// The end of a backup revision's name: `html`, any character, digits.
pub const REV_SUFFIX_PATTERN: &'static str = r"html.[0-9]+$";

/// The response head and body: status line, `Content-Length` and the
/// contents.
pub open spec fn http_form_spec(status: Seq<char>, contents: Seq<u8>) -> Seq<u8> {
    encode_utf8("HTTP/1.1 "@ + status + "\r\nContent-Length: "@ + decimal(contents.len()) + "\r\n\r\n"@) + contents
}

/// A response with the given status and contents.
pub fn http_form(status: &str, contents: &Vec<u8>) -> (res: Vec<u8>)
    ensures
        res@ == http_form_spec(status@, contents@),
{
    let mut header = "HTTP/1.1 ".to_owned();
    header.append(status);
    header.append("\r\nContent-Length: ");
    push_decimal(&mut header, contents.len());
    header.append("\r\n\r\n");
    let mut res: Vec<u8> = Vec::new();
    push_all(&mut res, header.as_str().as_bytes());
    push_all(&mut res, contents.as_slice());
    res
}

/// `200 OK` with the contents.
pub fn http_ok(contents: &Vec<u8>) -> (res: Vec<u8>)
    ensures
        res@ == http_form_spec("200 OK"@, contents@),
{
    http_form("200 OK", contents)
}

/// An error response whose contents repeat the status.
pub fn http_err(status: &str) -> (res: Vec<u8>)
    ensures
        res@ == http_form_spec(status@, encode_utf8(status@)),
{
    let mut contents: Vec<u8> = Vec::new();
    push_all(&mut contents, status.as_bytes());
    http_form(status, &contents)
}

pub fn _http_400() -> (res: Vec<u8>)
    ensures
        res@ == http_form_spec("400 Bad Request."@, encode_utf8("400 Bad Request."@)),
{
    http_err("400 Bad Request.")
}

pub fn http_404() -> (res: Vec<u8>)
    ensures
        res@ == http_form_spec("404 Not Found."@, encode_utf8("404 Not Found."@)),
{
    http_err("404 Not Found.")
}

/// `200 OK` with `Hello`.
pub fn http_hello() -> (res: Vec<u8>)
    ensures
        res@ == http_form_spec("200 OK"@, encode_utf8("Hello"@)),
{
    let mut contents: Vec<u8> = Vec::new();
    push_all(&mut contents, "Hello".as_bytes());
    http_ok(&contents)
}

/// What a `POST` asks for, by its `wc-request` header.
#[derive(PartialEq, Eq, Structural, Debug, Clone, Copy)]
pub enum PostKind {
    /// No `wc-request` header: refused.
    Missing,
    JsonSave,
    PageNew,
    Href,
    PageMove,
    /// Any other request: answered `Hello`.
    Other,
}

/// How the server answers a request.
#[derive(PartialEq, Eq, Structural, Debug, Clone, Copy)]
pub enum Route {
    /// `404 Not Found.`
    NotFound,
    /// A `GET` of a file; `from_json` when the path names an HTML page, whose
    /// HTML is then made from its JSON document when it has one.
    Get { from_json: bool },
    /// A `POST` to a page.
    Post(PostKind),
    /// `Hello`.
    Hello,
}

pub open spec fn post_kind_spec(wc_request: Option<Seq<char>>) -> PostKind {
    match wc_request {
        None => PostKind::Missing,
        Some(w) => {
            if w == "json_save"@ {
                PostKind::JsonSave
            } else if w == "page_new"@ {
                PostKind::PageNew
            } else if w == "href"@ {
                PostKind::Href
            } else if w == "page_move"@ {
                PostKind::PageMove
            } else {
                PostKind::Other
            }
        },
    }
}

/// The answer to a request: a `GET` is served; any other request to a
/// backup revision is refused; a `POST` goes by its `wc-request`; anything
/// else gets `Hello`.
pub open spec fn route_spec(r: HttpRequestV) -> Route {
    if r.method == "GET"@ {
        Route::Get { from_json: contains_text(r.path, ".htm"@) }
    } else if regex_find_result(REV_SUFFIX_PATTERN@, encode_utf8(r.path)) is Some {
        Route::NotFound
    } else if r.method == "POST"@ {
        Route::Post(post_kind_spec(r.wc_request))
    } else {
        Route::Hello
    }
}

/// Which answer a request gets.
pub fn response_route(request: &HttpRequest) -> (res: Route)
    ensures
        res == route_spec(request@),
{
    let get = "GET".to_owned();
    if request.method == get {
        return Route::Get { from_json: str_contains(request.path.as_str(), ".htm") };
    }
    if request.path_ends_with_rev() {
        return Route::NotFound;
    }
    let post = "POST".to_owned();
    if request.method == post {
        return Route::Post(post_kind(request));
    }
    Route::Hello
}

/// Which `POST` a request is.
pub fn post_kind(request: &HttpRequest) -> (res: PostKind)
    ensures
        res == post_kind_spec(request@.wc_request),
{
    let w = match &request.wc_request {
        Some(w) => w,
        None => return PostKind::Missing,
    };
    if *w == "json_save".to_owned() {
        PostKind::JsonSave
    } else if *w == "page_new".to_owned() {
        PostKind::PageNew
    } else if *w == "href".to_owned() {
        PostKind::Href
    } else if *w == "page_move".to_owned() {
        PostKind::PageMove
    } else {
        PostKind::Other
    }
}

/// The JSON read from a request's body.
pub open spec fn body_json_spec(r: HttpRequestV) -> Option<JsonV> {
    match body_text(r) {
        Some(t) => json_parse_result(t),
        None => None,
    }
}

/// The text of a string field of the request's JSON body.
pub open spec fn body_field(r: HttpRequestV, key: Seq<char>) -> Option<Seq<char>> {
    match body_json_spec(r) {
        Some(j) => jv_as_str(jv_get(j, key)),
        None => None,
    }
}

/// The answer to an `href` request: `{"dest":"<href>"}` for the posted href.
pub open spec fn href_reply_spec(r: HttpRequestV) -> Option<Seq<u8>> {
    match body_field(r, "href"@) {
        Some(h) => Some(http_form_spec("200 OK"@, encode_utf8("{\"dest\":\""@ + h + "\"}"@))),
        None => None,
    }
}

/// Answers an `href` request with the posted href as destination.
pub fn handle_href_temp(request: &HttpRequest) -> (res: Result<Vec<u8>, ()>)
    ensures
        match res {
            Ok(v) => href_reply_spec(request@) == Some(v@),
            Err(_) => href_reply_spec(request@) is None,
        },
{
    let json_post = match request.body_json() {
        Some(j) => j,
        None => return Err(()),
    };
    let href = match json_post.get("href") {
        Some(h) => match h.as_str() {
            Some(s) => s,
            None => return Err(()),
        },
        None => return Err(()),
    };
    let mut text = "{\"dest\":\"".to_owned();
    text.append(href);
    text.append("\"}");
    let mut contents: Vec<u8> = Vec::new();
    push_all(&mut contents, text.as_str().as_bytes());
    Ok(http_ok(&contents))
}

/// Answers an `href` request.
pub fn handle_href(request: &HttpRequest) -> (res: Result<Vec<u8>, ()>)
    ensures
        match res {
            Ok(v) => href_reply_spec(request@) == Some(v@),
            Err(_) => href_reply_spec(request@) is None,
        },
{
    handle_href_temp(request)
}

/// The reply to saving a page's JSON: a fixed message, or the error.
pub open spec fn json_save_reply_spec(saved: Result<(), Seq<char>>) -> Seq<u8> {
    match saved {
        Ok(_) => http_form_spec("200 OK"@, encode_utf8("{\"res\":\"post_handle page_json_save\"}"@)),
        Err(e) => http_form_spec("200 OK"@, encode_utf8("{\"res\":\""@ + e + "\"}"@)),
    }
}

/// The reply to saving a page's JSON.
pub fn json_save_reply(saved: Result<usize, String>) -> (res: Vec<u8>)
    ensures
        res@ == json_save_reply_spec(match saved {
            Ok(_) => Ok(()),
            Err(e) => Err(e@),
        }),
{
    let text = match saved {
        Ok(_) => "{\"res\":\"post_handle page_json_save\"}".to_owned(),
        Err(e) => {
            let mut t = "{\"res\":\"".to_owned();
            t.append(e.as_str());
            t.append("\"}");
            t
        },
    };
    let mut contents: Vec<u8> = Vec::new();
    push_all(&mut contents, text.as_str().as_bytes());
    http_ok(&contents)
}

/// A string field of a JSON value, trimmed.
fn trimmed_field(j: &Json, key: &str) -> (res: Option<String>)
    ensures
        match res {
            Some(t) => jv_as_str(jv_get(j@, key@)) matches Some(v) && t@ == trim_spec(v),
            None => jv_as_str(jv_get(j@, key@)) is None,
        },
{
    match j.get(key) {
        Some(v) => match v.as_str() {
            Some(s) => Some(trim(s).to_owned()),
            None => None,
        },
        None => None,
    }
}

/// What a `page_move` request asks: the page's URL, the URL of the trimmed
/// `dest_url` read from it (which must not be empty), and the URL of the
/// trimmed `parent_url` read from it, none when that is empty. Refused when
/// a field or a URL is missing.
pub open spec fn page_move_request_spec(r: HttpRequestV) -> Option<(UrlV, UrlV, Option<UrlV>)> {
    match body_json_spec(r) {
        None => None,
        Some(j) => match (jv_as_str(jv_get(j, "parent_url"@)), jv_as_str(jv_get(j, "dest_url"@))) {
            (Some(p0), Some(d0)) => {
                let p = trim_spec(p0);
                let d = trim_spec(d0);
                if d.len() == 0 {
                    None
                } else {
                    match request_url_spec(r) {
                        None => None,
                        Some(pu) => {
                            let parent = if p.len() == 0 {
                                Some(None)
                            } else {
                                match url_join_result(pu.serialization, p) {
                                    Some(u) => Some(Some(u)),
                                    None => None,
                                }
                            };
                            match parent {
                                None => None,
                                Some(po) => match url_join_result(pu.serialization, d) {
                                    None => None,
                                    Some(du) => Some((pu, du, po)),
                                },
                            }
                        },
                    }
                }
            },
            _ => None,
        },
    }
}

/// Reads a `page_move` request: the page's URL, where it goes and under
/// which parent.
pub fn page_move_request(request: &HttpRequest) -> (res: Result<(UrlParts, UrlParts, Option<UrlParts>), ()>)
    ensures
        match res {
            Ok((pu, du, po)) => page_move_request_spec(request@) == Some((pu@, du@, match po {
                Some(u) => Some(u@),
                None => None::<UrlV>,
            })),
            Err(_) => page_move_request_spec(request@) is None,
        },
{
    let json_post = match request.body_json() {
        Some(j) => j,
        None => return Err(()),
    };
    let parent = match trimmed_field(&json_post, "parent_url") {
        Some(p) => p,
        None => return Err(()),
    };
    let dest = match trimmed_field(&json_post, "dest_url") {
        Some(d) => d,
        None => return Err(()),
    };
    if dest.unicode_len() == 0 {
        return Err(());
    }
    let page_url = match request.url() {
        Some(u) => u,
        None => return Err(()),
    };
    let parent_url = if parent.unicode_len() == 0 {
        None
    } else {
        match url_join(&page_url, parent.as_str()) {
            Some(u) => Some(u),
            None => return Err(()),
        }
    };
    let dest_url = match url_join(&page_url, dest.as_str()) {
        Some(u) => u,
        None => return Err(()),
    };
    Ok((page_url, dest_url, parent_url))
}

/// The reply to a page move: `{"res":"moved"}`, or the error.
pub open spec fn page_move_reply_spec(moved: Result<(), Seq<char>>) -> Seq<u8> {
    match moved {
        Ok(_) => http_form_spec("200 OK"@, encode_utf8("{\"res\":\"moved\"}"@)),
        Err(e) => http_form_spec("200 OK"@, encode_utf8("{\"Err\":\""@ + e + "\"}"@)),
    }
}

/// The reply to a page move.
pub fn page_move_reply(moved: Result<(), String>) -> (res: Vec<u8>)
    ensures
        res@ == page_move_reply_spec(match moved {
            Ok(_) => Ok(()),
            Err(e) => Err(e@),
        }),
{
    let text = match moved {
        Ok(_) => "{\"res\":\"moved\"}".to_owned(),
        Err(e) => {
            let mut t = "{\"Err\":\"".to_owned();
            t.append(e.as_str());
            t.append("\"}");
            t
        },
    };
    let mut contents: Vec<u8> = Vec::new();
    push_all(&mut contents, text.as_str().as_bytes());
    http_ok(&contents)
}

/// What a `page_new` request asks: the title and href of the new page, read
/// from the body; refused without them or without a page URL.
pub open spec fn page_new_request_spec(r: HttpRequestV) -> Option<(Seq<char>, Seq<char>)> {
    if request_url_spec(r) is None {
        None
    } else {
        match body_json_spec(r) {
            None => None,
            Some(j) => match (jv_as_str(jv_get(j, "title"@)), jv_as_str(jv_get(j, "href"@))) {
                (Some(t), Some(h)) => Some((t, h)),
                _ => None,
            },
        }
    }
}

/// Reads a `page_new` request: the title and href of the new page.
pub fn page_new_request(request: &HttpRequest) -> (res: Result<(String, String), ()>)
    ensures
        match res {
            Ok((t, h)) => page_new_request_spec(request@) == Some((t@, h@)),
            Err(_) => page_new_request_spec(request@) is None,
        },
{
    if request.url().is_none() {
        return Err(());
    }
    let json_post = match request.body_json() {
        Some(j) => j,
        None => return Err(()),
    };
    let title = match json_post.get("title") {
        Some(v) => match v.as_str() {
            Some(s) => s.to_owned(),
            None => return Err(()),
        },
        None => return Err(()),
    };
    let href = match json_post.get("href") {
        Some(v) => match v.as_str() {
            Some(s) => s.to_owned(),
            None => return Err(()),
        },
        None => return Err(()),
    };
    Ok((title, href))
}

/// The reply to making a new page: whether its file was saved.
pub open spec fn page_new_reply_spec(saved: bool) -> Seq<u8> {
    if saved {
        http_form_spec("200 OK"@, encode_utf8("{\"res\":\"post_handle page_new\"}"@))
    } else {
        http_form_spec("200 OK"@, encode_utf8("{\"res\":\"post_handle page_new failed\"}"@))
    }
}

/// The reply to making a new page.
pub fn page_new_reply(saved: bool) -> (res: Vec<u8>)
    ensures
        res@ == page_new_reply_spec(saved),
{
    let text = if saved {
        "{\"res\":\"post_handle page_new\"}"
    } else {
        "{\"res\":\"post_handle page_new failed\"}"
    };
    let mut contents: Vec<u8> = Vec::new();
    push_all(&mut contents, text.as_bytes());
    http_ok(&contents)
}

} // verus!
