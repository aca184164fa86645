use vstd::prelude::*;

use crate::decimal::{decimal_text, push_decimal};
use crate::text::{lossy_text, push_char, utf8_lossy};

verus! {

// ---------------------------------------------------------------------------
// Target URLs
// ---------------------------------------------------------------------------

/// The URL of the `index`-th benchmark file on the test server:
/// `http://10.0.0.2/files/rand<index>.dat`.
pub open spec fn file_url_text(index: nat) -> Seq<char> {
    "http://10.0.0.2/files/rand"@ + decimal_text(index) + ".dat"@
}

/// Builds the URL of the `index`-th benchmark file.
pub fn file_url(index: usize) -> (res: String)
    ensures
        res@ == file_url_text(index as nat),
        res@ == "http://10.0.0.2/files/rand"@ + decimal_text(index as nat) + ".dat"@,
{
    let mut s = String::from_str("http://10.0.0.2/files/rand");
    push_decimal(&mut s, index);
    s.append(".dat");
    s
}

// ---------------------------------------------------------------------------
// Parsed URLs
// ---------------------------------------------------------------------------

/// The components of a parsed URL that a request is built from.
pub struct UrlParts {
    pub scheme: String,
    pub host: Option<String>,
    pub path: String,
    pub query: Option<String>,
}

/// The mathematical value of [`UrlParts`].
pub struct UrlView {
    pub scheme: Seq<char>,
    pub host: Option<Seq<char>>,
    pub path: Seq<char>,
    pub query: Option<Seq<char>>,
}

pub open spec fn opt_text(s: Option<String>) -> Option<Seq<char>> {
    match s {
        Some(t) => Some(t@),
        None => None,
    }
}

impl View for UrlParts {
    type V = UrlView;

    open spec fn view(&self) -> UrlView {
        UrlView {
            scheme: self.scheme@,
            host: opt_text(self.host),
            path: self.path@,
            query: opt_text(self.query),
        }
    }
}

pub open spec fn opt_url_view(u: Option<UrlParts>) -> Option<UrlView> {
    match u {
        Some(p) => Some(p@),
        None => None,
    }
}

/// What the WHATWG URL parser of the `url` crate makes of a text: `None`
/// where it rejects the text, else the scheme, host, path and query of the
/// parsed URL.
pub uninterp spec fn url_components(input: Seq<char>) -> Option<UrlView>;

/// Parses a URL.
///
/// Trusted: calls `url::Url::parse` and, on success, copies out
/// `Url::scheme`, `Url::host_str`, `Url::path` and `Url::query`. The
/// contract only names the outcome (`url_components`), which is determined
/// by the input text alone; the parsing rules themselves are not restated.
#[verifier::external_body]
fn parse_url(input: &str) -> (res: Option<UrlParts>)
    ensures
        opt_url_view(res) == url_components(input@),
{
    match url::Url::parse(input) {
        Ok(u) => Some(UrlParts {
            scheme: String::from(u.scheme()),
            host: u.host_str().map(String::from),
            path: String::from(u.path()),
            query: u.query().map(String::from),
        }),
        Err(_) => None,
    }
}

// ---------------------------------------------------------------------------
// HTTP/3 request headers
// ---------------------------------------------------------------------------

/// One header field, name and value as raw bytes.
#[derive(Debug, PartialEq, Eq)]
pub struct Header {
    pub name: Vec<u8>,
    pub value: Vec<u8>,
}

impl View for Header {
    type V = (Seq<u8>, Seq<u8>);

    open spec fn view(&self) -> (Seq<u8>, Seq<u8>) {
        (self.name@, self.value@)
    }
}

/// The request target: the path, followed by `?` and the query when the URL
/// has one.
pub open spec fn request_target(u: UrlView) -> Seq<char> {
    match u.query {
        Some(q) => u.path + seq!['?'] + q,
        None => u.path,
    }
}

/// The UTF-8 bytes of a text.
pub open spec fn utf8(s: Seq<char>) -> Seq<u8> {
    vstd::utf8::encode_utf8(s)
}

/// The header list of a GET request for `u` to the authority `host`:
/// `:method`, `:scheme`, `:authority`, `:path` and `user-agent`, in this order.
pub open spec fn get_request_headers(u: UrlView, host: Seq<char>) -> Seq<(Seq<u8>, Seq<u8>)> {
    seq![
        (utf8(":method"@), utf8("GET"@)),
        (utf8(":scheme"@), utf8(u.scheme)),
        (utf8(":authority"@), utf8(host)),
        (utf8(":path"@), utf8(request_target(u))),
        (utf8("user-agent"@), utf8("quiche"@)),
    ]
}

pub open spec fn header_views(hs: Seq<Header>) -> Seq<(Seq<u8>, Seq<u8>)> {
    hs.map_values(|h: Header| h@)
}

fn header(name: &str, value: &str) -> (h: Header)
    ensures
        h@ == (utf8(name@), utf8(value@)),
{
    Header { name: vstd::slice::slice_to_vec(name.as_bytes()), value: vstd::slice::slice_to_vec(value.as_bytes()) }
}

/// Builds the request target of a URL: its path, and `?query` after it when
/// there is a query.
pub fn request_path(url: &UrlParts) -> (res: String)
    ensures
        res@ == request_target(url@),
        url.query is None ==> res@ == url.path@,
        url.query matches Some(q) ==> res@ == url.path@ + seq!['?'] + q@,
{
    let mut path = url.path.clone();
    match &url.query {
        Some(q) => {
            push_char(&mut path, '?');
            path.append(q.as_str());
        },
        None => {},
    }
    path
}

/// Builds the headers of a GET request for `url`. The URL must have a host,
/// which becomes the `:authority`.
pub fn create_h3_request(url: &UrlParts) -> (req: Vec<Header>)
    requires
        url.host is Some,
    ensures
        header_views(req@) == get_request_headers(url@, url@.host->0),
        req@.len() == 5,
        req@[0]@ == (utf8(":method"@), utf8("GET"@)),
        req@[1]@ == (utf8(":scheme"@), utf8(url.scheme@)),
        req@[2]@ == (utf8(":authority"@), utf8(url.host->0@)),
        req@[3]@ == (utf8(":path"@), utf8(request_target(url@))),
        req@[4]@ == (utf8("user-agent"@), utf8("quiche"@)),
{
    let path = request_path(url);
    let host = url.host.as_ref().unwrap();
    let mut req: Vec<Header> = Vec::new();
    req.push(header(":method", "GET"));
    req.push(header(":scheme", url.scheme.as_str()));
    req.push(header(":authority", host.as_str()));
    req.push(header(":path", path.as_str()));
    req.push(header("user-agent", "quiche"));
    assert(header_views(req@) =~= get_request_headers(url@, url@.host->0));
    req
}

/// The outcome of building the request for a URL text: `None` where the URL
/// is rejected or has no host, else the GET request headers.
pub open spec fn request_for_url(u: Option<UrlView>) -> Option<Seq<(Seq<u8>, Seq<u8>)>> {
    match u {
        Some(v) => match v.host {
            Some(h) => Some(get_request_headers(v, h)),
            None => None,
        },
        None => None,
    }
}

/// Parses `url` and builds the GET request for it. Returns `None` where the
/// URL does not parse or has no host.
pub fn request_for(url: &str) -> (res: Option<Vec<Header>>)
    ensures
        match res {
            Some(r) => request_for_url(url_components(url@)) == Some(header_views(r@)),
            None => request_for_url(url_components(url@)) is None,
        },
{
    match parse_url(url) {
        Some(parts) => {
            if parts.host.is_some() {
                Some(create_h3_request(&parts))
            } else {
                None
            }
        },
        None => None,
    }
}

/// The GET request for the `index`-th benchmark file; `None` where its URL
/// is refused by the parser or carries no host.
pub fn file_request(index: usize) -> (res: Option<Vec<Header>>)
    ensures
        match res {
            Some(r) => request_for_url(url_components(file_url_text(index as nat))) == Some(header_views(r@)),
            None => request_for_url(url_components(file_url_text(index as nat))) is None,
        },
{
    let url = file_url(index);
    request_for(url.as_str())
}

} // verus!

verus! {

// ---------------------------------------------------------------------------
// Received headers
// ---------------------------------------------------------------------------

/// Each header as a pair of texts, its name and its value decoded as UTF-8
/// with invalid sequences replaced.
pub open spec fn header_texts(hs: Seq<(Seq<u8>, Seq<u8>)>) -> Seq<(Seq<char>, Seq<char>)> {
    hs.map_values(|h: (Seq<u8>, Seq<u8>)| (lossy_text(h.0), lossy_text(h.1)))
}

pub open spec fn text_pairs(v: Seq<(String, String)>) -> Seq<(Seq<char>, Seq<char>)> {
    v.map_values(|p: (String, String)| (p.0@, p.1@))
}

/// Turns header fields into (name, value) text pairs, in order. A name or
/// value that is valid UTF-8 becomes exactly the text it encodes.
pub fn hdrs_to_strings(hdrs: &[Header]) -> (res: Vec<(String, String)>)
    ensures
        text_pairs(res@) == header_texts(header_views(hdrs@)),
        res@.len() == hdrs@.len(),
        forall|i: int| 0 <= i < hdrs@.len() ==> (#[trigger] res@[i]).0@ == lossy_text(hdrs@[i].name@)
            && res@[i].1@ == lossy_text(hdrs@[i].value@),
        forall|i: int| 0 <= i < hdrs@.len() ==> (vstd::utf8::valid_utf8(hdrs@[i].name@)
            ==> (#[trigger] res@[i]).0@ == vstd::utf8::decode_utf8(hdrs@[i].name@)),
        forall|i: int| 0 <= i < hdrs@.len() ==> (vstd::utf8::valid_utf8(hdrs@[i].value@)
            ==> (#[trigger] res@[i]).1@ == vstd::utf8::decode_utf8(hdrs@[i].value@)),
{
    let mut res: Vec<(String, String)> = Vec::new();
    let mut i: usize = 0;
    while i < hdrs.len()
        invariant
            i <= hdrs@.len(),
            text_pairs(res@) =~= header_texts(header_views(hdrs@.take(i as int))),
            res@.len() == i,
            forall|j: int| 0 <= j < i ==> (#[trigger] res@[j]).0@ == lossy_text(hdrs@[j].name@)
                && res@[j].1@ == lossy_text(hdrs@[j].value@),
            forall|j: int| 0 <= j < i ==> (vstd::utf8::valid_utf8(hdrs@[j].name@)
                ==> (#[trigger] res@[j]).0@ == vstd::utf8::decode_utf8(hdrs@[j].name@)),
            forall|j: int| 0 <= j < i ==> (vstd::utf8::valid_utf8(hdrs@[j].value@)
                ==> (#[trigger] res@[j]).1@ == vstd::utf8::decode_utf8(hdrs@[j].value@)),
        decreases hdrs@.len() - i,
    {
        let h = &hdrs[i];
        let name = utf8_lossy(h.name.as_slice());
        let value = utf8_lossy(h.value.as_slice());
        let ghost before = res@;
        res.push((name, value));
        proof {
            let pre = hdrs@.take(i as int);
            assert(hdrs@.take(i + 1) =~= pre.push(hdrs@[i as int]));
            assert(header_views(pre.push(hdrs@[i as int])) =~= header_views(pre).push(hdrs@[i as int]@));
            assert(text_pairs(res@) =~= text_pairs(before).push((lossy_text(h.name@), lossy_text(h.value@))));
        }
        i = i + 1;
    }
    assert(hdrs@.take(hdrs@.len() as int) =~= hdrs@);
    res
}

/// The request target is the URL's path, extended only by a query when
/// there is one: it begins with the path, and the rest is empty without a
/// query and is `?` followed by the query with one.
pub proof fn law_request_target(u: UrlView)
    ensures
        request_target(u).len() >= u.path.len(),
        request_target(u).subrange(0, u.path.len() as int) == u.path,
        u.query is None ==> request_target(u).len() == u.path.len(),
        u.query matches Some(q) ==> request_target(u).len() == u.path.len() + 1 + q.len()
            && request_target(u)[u.path.len() as int] == '?'
            && request_target(u).subrange(u.path.len() as int + 1, request_target(u).len() as int) == q,
{
    match u.query {
        Some(q) => {
            assert(request_target(u).subrange(0, u.path.len() as int) =~= u.path);
            assert(request_target(u).subrange(u.path.len() as int + 1, request_target(u).len() as int) =~= q);
        },
        None => {
            assert(request_target(u).subrange(0, u.path.len() as int) =~= u.path);
        },
    }
}

/// A GET request names, in this order, the method `GET`, the URL's scheme,
/// its host as the authority, its request target as the path, and the
/// client's user agent; each value is the UTF-8 encoding of its text.
pub proof fn law_request_headers(u: UrlView, host: Seq<char>)
    ensures
        get_request_headers(u, host).len() == 5,
        get_request_headers(u, host)[0] == (utf8(":method"@), utf8("GET"@)),
        get_request_headers(u, host)[1] == (utf8(":scheme"@), utf8(u.scheme)),
        get_request_headers(u, host)[2] == (utf8(":authority"@), utf8(host)),
        get_request_headers(u, host)[3] == (utf8(":path"@), utf8(request_target(u))),
        get_request_headers(u, host)[4] == (utf8("user-agent"@), utf8("quiche"@)),
{
}

} // verus!
