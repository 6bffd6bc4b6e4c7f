//! URLs as the `url` crate parses and joins them, kept as plain values, and
//! the hrefs the pages use to point at each other.
use vstd::prelude::*;
use crate::page::Page;
use crate::strings::{starts_with, starts_with_spec, trim, trim_spec};

verus! {

/// The parts of a parsed URL that the pages use.
pub struct UrlParts {
    /// The whole URL as text (`Url::as_str`).
    pub serialization: String,
    /// `Url::host_str`.
    pub host: Option<String>,
    /// `Url::path`.
    pub path: String,
    /// `Url::fragment`.
    pub fragment: Option<String>,
    /// The last of `Url::path_segments`.
    pub last_segment: Option<String>,
}

pub struct UrlV {
    pub serialization: Seq<char>,
    pub host: Option<Seq<char>>,
    pub path: Seq<char>,
    pub fragment: Option<Seq<char>>,
    pub last_segment: Option<Seq<char>>,
}

pub open spec fn opt_str_view(o: Option<String>) -> Option<Seq<char>> {
    match o {
        Some(s) => Some(s@),
        None => None,
    }
}

impl View for UrlParts {
    type V = UrlV;

    open spec fn view(&self) -> UrlV {
        UrlV {
            serialization: self.serialization@,
            host: opt_str_view(self.host),
            path: self.path@,
            fragment: opt_str_view(self.fragment),
            last_segment: opt_str_view(self.last_segment),
        }
    }
}

impl UrlParts {
    /// A copy of the parts.
    pub fn copy(&self) -> (res: UrlParts)
        ensures
            res@ == self@,
    {
        UrlParts {
            serialization: self.serialization.clone(),
            host: match &self.host {
                Some(h) => Some(h.clone()),
                None => None,
            },
            path: self.path.clone(),
            fragment: match &self.fragment {
                Some(f) => Some(f.clone()),
                None => None,
            },
            last_segment: match &self.last_segment {
                Some(l) => Some(l.clone()),
                None => None,
            },
        }
    }
}

/// The `url` crate's URL type, carried through the conversion below.
#[verifier::external_type_specification]
#[verifier::external_body]
pub struct ExUrl(url::Url);

/// What `Url::parse` gives for a text.
pub uninterp spec fn url_parse_result(input: Seq<char>) -> Option<UrlV>;

/// What `Url::join` gives for the URL written `base` and an href.
pub uninterp spec fn url_join_result(base: Seq<char>, input: Seq<char>) -> Option<UrlV>;

/// What `Url::make_relative` gives from the URL written `base` to the URL
/// written `target`.
pub uninterp spec fn url_make_relative_result(base: Seq<char>, target: Seq<char>) -> Option<Seq<char>>;

/// Copies the parts of a `Url`. Nothing is promised of it here; the
/// functions below state their results.
#[verifier::external_body]
fn parts_of(u: &url::Url) -> UrlParts {
    UrlParts {
        serialization: u.as_str().to_owned(),
        host: u.host_str().map(|h| h.to_owned()),
        path: u.path().to_owned(),
        fragment: u.fragment().map(|f| f.to_owned()),
        last_segment: u.path_segments().and_then(|s| s.last()).map(|l| l.to_owned()),
    }
}

/// Calls `Url::parse`. Trusted: the result is the named result of the text.
#[verifier::external_body]
pub(crate) fn url_parse(input: &str) -> (res: Option<UrlParts>)
    ensures
        match res {
            Some(u) => url_parse_result(input@) == Some(u@),
            None => url_parse_result(input@) is None,
        },
{
    url::Url::parse(input).ok().map(|u| parts_of(&u))
}

/// Calls `Url::join` on the URL that `base` was read from (a URL reads back
/// the same from its text). Trusted: the result is the named result.
#[verifier::external_body]
pub(crate) fn url_join(base: &UrlParts, input: &str) -> (res: Option<UrlParts>)
    ensures
        match res {
            Some(u) => url_join_result(base@.serialization, input@) == Some(u@),
            None => url_join_result(base@.serialization, input@) is None,
        },
{
    let b = url::Url::parse(&base.serialization).ok()?;
    b.join(input).ok().map(|u| parts_of(&u))
}

/// Calls `Url::make_relative` on the URLs that `base` and `target` were read
/// from. Trusted: the result is the named result.
#[verifier::external_body]
pub(crate) fn url_make_relative(base: &UrlParts, target: &UrlParts) -> (res: Option<String>)
    ensures
        match res {
            Some(r) => url_make_relative_result(base@.serialization, target@.serialization) == Some(r@),
            None => url_make_relative_result(base@.serialization, target@.serialization) is None,
        },
{
    let b = url::Url::parse(&base.serialization).ok()?;
    let t = url::Url::parse(&target.serialization).ok()?;
    b.make_relative(&t)
}

/// The URL a page is served at on the local host.
pub open spec fn page_url_spec(page_path: Seq<char>) -> Option<UrlV> {
    url_parse_result("http://127.0.0.1"@ + page_path)
}

/// The URL of a page on the local host: `http://127.0.0.1` and its path.
pub fn page_url(page: &Page) -> (res: Result<UrlParts, String>)
    ensures
        match res {
            Ok(u) => page_url_spec(page@.1) == Some(u@),
            Err(e) => page_url_spec(page@.1) is None && e@ == "Failed to parse the page url"@,
        },
{
    let mut text = "http://127.0.0.1".to_owned();
    text.append(page.page_path());
    match url_parse(text.as_str()) {
        Some(u) => Ok(u),
        None => Err("Failed to parse the page url".to_owned()),
    }
}

/// An href written from a page at `org_base`, rewritten for a page at
/// `new_base`: relative when the URL crate can make it so, else absolute.
pub open spec fn href_url_spec(org_base: UrlV, href: Seq<char>, new_base: UrlV) -> Option<Seq<char>> {
    match url_join_result(org_base.serialization, href) {
        Some(target) => match url_make_relative_result(new_base.serialization, target.serialization) {
            Some(r) => Some(r),
            None => Some(target.serialization),
        },
        None => None,
    }
}

/// Rewrites an href of a page at `org_base` for a page at `new_base`.
pub fn href_url(org_base: &UrlParts, href: &str, new_base: &UrlParts) -> (res: Option<String>)
    ensures
        match res {
            Some(r) => href_url_spec(org_base@, href@, new_base@) == Some(r@),
            None => href_url_spec(org_base@, href@, new_base@) is None,
        },
{
    match url_join(org_base, href) {
        Some(target) => match url_make_relative(new_base, &target) {
            Some(r) => Some(r),
            None => Some(target.serialization),
        },
        None => None,
    }
}

/// `path` without the final `suffix`.
pub open spec fn strip_suffix_spec(path: Seq<char>, suffix: Seq<char>) -> Option<Seq<char>> {
    if suffix.len() <= path.len() && path.subrange(path.len() - suffix.len(), path.len() as int) == suffix {
        Some(path.subrange(0, path.len() - suffix.len()))
    } else {
        None
    }
}

/// An href followed by `#fragment` when there is one.
pub open spec fn with_fragment(href: Seq<char>, fragment: Option<Seq<char>>) -> Seq<char> {
    match fragment {
        Some(f) => href + "#"@ + f,
        None => href,
    }
}

/// Where an href of the page at `base` points, and whether it is the page's
/// child: another host keeps the whole URL; the page itself gives
/// `#fragment` (no answer without a fragment); a file in the page's
/// directory or below gives its path from there and is a child; any other
/// place gives its path from the root.
pub open spec fn href_on_spec(base: UrlV, org_href: Seq<char>) -> Option<(Seq<char>, bool)> {
    match url_join_result(base.serialization, org_href) {
        None => None,
        Some(org) => {
            if org.host != base.host {
                Some((org.serialization, false))
            } else if base.path == org.path {
                match org.fragment {
                    Some(f) => Some(("#"@ + f, false)),
                    None => None,
                }
            } else {
                match base.last_segment {
                    None => None,
                    Some(filename) => match strip_suffix_spec(base.path, filename) {
                        None => None,
                        Some(org_dir) => {
                            if starts_with_spec(org.path, org_dir) {
                                Some((with_fragment(org.path.subrange(org_dir.len() as int, org.path.len() as int), org.fragment), true))
                            } else {
                                Some((with_fragment(org.path, org.fragment), false))
                            }
                        },
                    },
                }
            }
        },
    }
}

fn opt_string_eq(a: &Option<String>, b: &Option<String>) -> (res: bool)
    ensures
        res == (opt_str_view(*a) == opt_str_view(*b)),
{
    match (a, b) {
        (Some(x), Some(y)) => *x == *y,
        (None, None) => true,
        _ => false,
    }
}

/// `s` followed by `#fragment` when there is one.
fn push_fragment(s: &mut String, fragment: &Option<String>)
    ensures
        final(s)@ == with_fragment(old(s)@, opt_str_view(*fragment)),
{
    if let Some(f) = fragment {
        s.append("#");
        s.append(f.as_str());
    }
}

/// Where an href of the page at `base_url` points, and whether it is a child.
pub fn href_on(base_url: &UrlParts, org_href: &str) -> (res: Option<(String, bool)>)
    ensures
        match res {
            Some((h, c)) => href_on_spec(base_url@, org_href@) == Some((h@, c)),
            None => href_on_spec(base_url@, org_href@) is None,
        },
{
    let org = url_join(base_url, org_href)?;
    if !opt_string_eq(&org.host, &base_url.host) {
        return Some((org.serialization, false));
    }
    if base_url.path == org.path {
        let fragment = match &org.fragment {
            Some(f) => f,
            None => return None,
        };
        let mut href = "#".to_owned();
        href.append(fragment.as_str());
        return Some((href, false));
    }
    let filename = match &base_url.last_segment {
        Some(f) => f,
        None => return None,
    };
    let base_path = base_url.path.as_str();
    let n = base_path.unicode_len();
    let m = filename.as_str().unicode_len();
    if m > n {
        return None;
    }
    let tail = base_path.substring_char(n - m, n);
    if tail.to_owned() != *filename {
        return None;
    }
    let org_dir = base_path.substring_char(0, n - m);
    if starts_with(org.path.as_str(), org_dir) {
        let k = org_dir.unicode_len();
        let p = org.path.as_str();
        let mut href = p.substring_char(k, p.unicode_len()).to_owned();
        push_fragment(&mut href, &org.fragment);
        return Some((href, true));
    }
    let mut href = org.path.clone();
    push_fragment(&mut href, &org.fragment);
    Some((href, false))
}

/// A new child page's title and href, trimmed: the title must not be empty,
/// the href must not be empty nor start with `#`.
pub open spec fn title_href_check_spec(title: Seq<char>, href: Seq<char>) -> Option<(Seq<char>, Seq<char>)> {
    let t = trim_spec(title);
    let h = trim_spec(href);
    if t.len() == 0 || starts_with_spec(h, "#"@) || h.len() == 0 {
        None
    } else {
        Some((t, h))
    }
}

/// Checks a new child page's title and href.
pub fn title_href_check<'a>(title: &'a str, href: &'a str) -> (res: Result<(&'a str, &'a str), ()>)
    ensures
        match res {
            Ok((t, h)) => title_href_check_spec(title@, href@) == Some((t@, h@)),
            Err(_) => title_href_check_spec(title@, href@) is None,
        },
{
    let title = trim(title);
    if title.unicode_len() == 0 {
        return Err(());
    }
    let href = trim(href);
    if starts_with(href, "#") {
        return Err(());
    }
    if href.unicode_len() == 0 {
        return Err(());
    }
    Ok((title, href))
}

} // verus!
