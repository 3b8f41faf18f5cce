//! The request model that conditions read and rewriters transform.
use vstd::prelude::*;
use vstd::string::*;
use vstd::utf8::*;

use crate::document_root::DocumentRoot;

verus! {

/// The components of a request URI, as text.
#[derive(Debug)]
pub struct Uri {
    pub scheme: Option<String>,
    pub authority: Option<String>,
    pub path: String,
    pub query: Option<String>,
}

/// The mathematical value of a [`Uri`].
pub struct UriView {
    pub scheme: Option<Seq<char>>,
    pub authority: Option<Seq<char>>,
    pub path: Seq<char>,
    pub query: Option<Seq<char>>,
}

pub open spec fn opt_text(o: Option<String>) -> Option<Seq<char>> {
    match o {
        Some(s) => Some(s@),
        None => None,
    }
}

impl View for Uri {
    type V = UriView;

    open spec fn view(&self) -> UriView {
        UriView {
            scheme: opt_text(self.scheme),
            authority: opt_text(self.authority),
            path: self.path@,
            query: opt_text(self.query),
        }
    }
}

/// One header line: its name and its raw value bytes.
#[derive(Debug)]
pub struct Header {
    pub name: String,
    pub value: Vec<u8>,
}

pub struct HeaderView {
    pub name: Seq<char>,
    pub value: Seq<u8>,
}

impl View for Header {
    type V = HeaderView;

    open spec fn view(&self) -> HeaderView {
        HeaderView { name: self.name@, value: self.value@ }
    }
}

/// Everything of a request but its body: method, URI, headers in order, and
/// the document root that existence checks resolve paths against.
#[derive(Debug)]
pub struct Parts {
    pub method: String,
    pub uri: Uri,
    pub headers: Vec<Header>,
    pub document_root: Option<DocumentRoot>,
}

pub struct PartsView {
    pub method: Seq<char>,
    pub uri: UriView,
    pub headers: Seq<HeaderView>,
    pub document_root: Option<Seq<char>>,
}

impl View for Parts {
    type V = PartsView;

    open spec fn view(&self) -> PartsView {
        PartsView {
            method: self.method@,
            uri: self.uri@,
            headers: self.headers@.map_values(|h: Header| h@),
            document_root: match self.document_root {
                Some(d) => Some(d.spec_path()),
                None => None,
            },
        }
    }
}

/// A request: its parts and an opaque body that is never inspected.
#[derive(Debug)]
pub struct Request<B> {
    pub parts: Parts,
    pub body: B,
}

#[verifier::external_type_specification]
#[verifier::external_body]
pub struct ExInvalidUri(http::uri::InvalidUri);

/// What the http crate's URI parser makes of `text`, or `None` where it
/// rejects it.
pub uninterp spec fn uri_parse(text: Seq<char>) -> Option<UriView>;

/// The position of the first `c` in `s`, if any.
pub open spec fn first_index_of(s: Seq<char>, c: char) -> Option<int> {
    if exists|i: int| 0 <= i < s.len() && s[i] == c {
        Some(choose|i: int| 0 <= i < s.len() && s[i] == c && forall|j: int| 0 <= j < i ==> s[j] != c)
    } else {
        None
    }
}

/// A URI in origin form (`/path?query`) without a fragment.
pub open spec fn is_origin_form(text: Seq<char>) -> bool {
    &&& text.len() > 0
    &&& text[0] == '/'
    &&& forall|i: int| 0 <= i < text.len() ==> text[i] != '#'
}

/// How an origin-form text splits into path and query at its first `?`.
pub open spec fn origin_form_parts(text: Seq<char>) -> UriView {
    match first_index_of(text, '?') {
        Some(k) => UriView {
            scheme: None,
            authority: None,
            path: text.subrange(0, k),
            query: Some(text.subrange(k + 1, text.len() as int)),
        },
        None => UriView { scheme: None, authority: None, path: text, query: None },
    }
}

/// Relies on `http::Uri`'s `FromStr`: the components of the parsed URI. Text
/// that starts with `/` is read as path and query, split at the first `?`
/// (and cut at a `#`).
#[verifier::external_body]
fn parse_uri(text: &str) -> (r: Result<Uri, http::uri::InvalidUri>)
    ensures
        match r {
            Ok(u) => uri_parse(text@) == Some(u@),
            Err(_) => uri_parse(text@) is None,
        },
        r matches Ok(u) ==> (is_origin_form(text@) ==> u@ == origin_form_parts(text@)),
{
    match text.parse::<http::Uri>() {
        Ok(u) => Ok(Uri {
            scheme: u.scheme_str().map(String::from),
            authority: u.authority().map(http::uri::Authority::as_str).map(String::from),
            path: u.path().to_string(),
            query: u.query().map(String::from),
        }),
        Err(e) => Err(e),
    }
}

/// The text form of a URI: `scheme://authority`, the path, then `?query`.
pub open spec fn uri_text(u: UriView) -> Seq<char> {
    let head = match u.scheme {
        Some(s) => s + seq![':', '/', '/'],
        None => Seq::empty(),
    };
    let auth = match u.authority {
        Some(a) => a,
        None => Seq::empty(),
    };
    let tail = match u.query {
        Some(q) => seq!['?'] + q,
        None => Seq::empty(),
    };
    head + auth + u.path + tail
}

impl Uri {
    /// Parses `text` with the http crate's URI grammar.
    pub fn parse(text: &str) -> (r: Option<Uri>)
        ensures
            match r {
                Some(u) => uri_parse(text@) == Some(u@),
                None => uri_parse(text@) is None,
            },
            r matches Some(u) ==> (is_origin_form(text@) ==> u@ == origin_form_parts(text@)),
    {
        match parse_uri(text) {
            Ok(u) => Some(u),
            Err(_) => None,
        }
    }

    /// The URI as text.
    pub fn to_text(&self) -> (r: String)
        ensures
            r@ == uri_text(self@),
    {
        let mut out = String::new();
        match &self.scheme {
            Some(s) => {
                out.append(s.as_str());
                out.append("://");
                proof {
                    reveal_strlit("://");
                }
            },
            None => {},
        }
        match &self.authority {
            Some(a) => out.append(a.as_str()),
            None => {},
        }
        out.append(self.path.as_str());
        match &self.query {
            Some(q) => {
                out.append("?");
                out.append(q.as_str());
                proof {
                    reveal_strlit("?");
                }
            },
            None => {},
        }
        proof {
            assert(out@ =~= uri_text(self@));
        }
        out
    }
}

/// ASCII lower case of `c`; other characters are left as they are.
pub open spec fn ascii_lower(c: char) -> char {
    if 'A' <= c && c <= 'Z' {
        (((c as u8) + 32) as u8) as char
    } else {
        c
    }
}

/// Header names are compared without regard to ASCII case.
pub open spec fn names_match(a: Seq<char>, b: Seq<char>) -> bool {
    &&& a.len() == b.len()
    &&& forall|i: int| 0 <= i < a.len() ==> ascii_lower(a[i]) == ascii_lower(b[i])
}

/// `i` is the first header named `name`.
pub open spec fn is_first_header(headers: Seq<HeaderView>, name: Seq<char>, i: int) -> bool {
    &&& 0 <= i < headers.len()
    &&& names_match(headers[i].name, name)
    &&& forall|j: int| 0 <= j < i ==> !names_match(#[trigger] headers[j].name, name)
}

/// The position of the first header named `name`, if any.
pub open spec fn header_position(headers: Seq<HeaderView>, name: Seq<char>) -> Option<int> {
    if exists|i: int| 0 <= i < headers.len() && names_match(headers[i].name, name) {
        Some(choose|i: int| is_first_header(headers, name, i))
    } else {
        None
    }
}

/// A byte that may stand in header text: visible ASCII, space or tab.
pub open spec fn is_text_byte(b: u8) -> bool {
    b == 9 || (32 <= b && b < 127)
}

/// The text of a header value, if all of its bytes are visible ASCII.
pub open spec fn header_text(value: Seq<u8>) -> Option<Seq<char>> {
    if forall|i: int| 0 <= i < value.len() ==> is_text_byte(value[i]) {
        Some(value.map_values(|b: u8| b as char))
    } else {
        None
    }
}

/// A byte that a header value may hold: anything but control bytes, tab
/// excepted, and DEL.
pub open spec fn is_value_byte(b: u8) -> bool {
    b == 9 || (32 <= b && b != 127)
}

/// Text that can become a header value: each of its UTF-8 bytes is allowed.
pub open spec fn is_value_text(text: Seq<char>) -> bool {
    forall|i: int| 0 <= i < encode_utf8(text).len() ==> is_value_byte(#[trigger] encode_utf8(text)[i])
}

pub open spec fn first_header_with_text(headers: Seq<HeaderView>, name: Seq<char>) -> Option<(int, Seq<char>)> {
    match header_position(headers, name) {
        Some(i) => match header_text(headers[i].value) {
            Some(t) => Some((i, t)),
            None => None,
        },
        None => None,
    }
}

fn ascii_lower_char(c: char) -> (r: char)
    ensures
        r == ascii_lower(c),
{
    if 'A' <= c && c <= 'Z' {
        (((c as u8) + 32) as u8) as char
    } else {
        c
    }
}

/// Compares two header names without regard to ASCII case.
pub fn header_names_match(a: &str, b: &str) -> (r: bool)
    ensures
        r == names_match(a@, b@),
{
    let n = a.unicode_len();
    if n != b.unicode_len() {
        return false;
    }
    let mut i: usize = 0;
    while i < n
        invariant
            n == a@.len(),
            n == b@.len(),
            0 <= i <= n,
            forall|j: int| 0 <= j < i ==> ascii_lower(a@[j]) == ascii_lower(b@[j]),
        decreases n - i,
    {
        if ascii_lower_char(a.get_char(i)) != ascii_lower_char(b.get_char(i)) {
            return false;
        }
        i += 1;
    }
    true
}

/// The position of the first header named `name`.
pub fn find_header(headers: &Vec<Header>, name: &str) -> (r: Option<usize>)
    ensures
        r matches Some(i) ==> header_position(headers@.map_values(|h: Header| h@), name@) == Some(i as int)
            && is_first_header(headers@.map_values(|h: Header| h@), name@, i as int),
        r is None ==> header_position(headers@.map_values(|h: Header| h@), name@) is None,
{
    let ghost hs = headers@.map_values(|h: Header| h@);
    let mut i: usize = 0;
    while i < headers.len()
        invariant
            hs == headers@.map_values(|h: Header| h@),
            0 <= i <= headers.len(),
            forall|j: int| 0 <= j < i ==> !names_match(#[trigger] hs[j].name, name@),
        decreases headers.len() - i,
    {
        if header_names_match(headers[i].name.as_str(), name) {
            proof {
                assert(is_first_header(hs, name@, i as int));
                let k = choose|k: int| is_first_header(hs, name@, k);
                assert(k == i) by {
                    if k < i {
                    } else if k > i {
                        assert(!names_match(hs[i as int].name, name@));
                    }
                }
            }
            return Some(i);
        }
        i += 1;
    }
    None
}

/// The first `n` headers of `headers` without those after position `i` that
/// are named `name`.
pub open spec fn without_later(headers: Seq<HeaderView>, i: int, name: Seq<char>, n: int) -> Seq<HeaderView>
    decreases n,
{
    if n <= 0 {
        Seq::empty()
    } else {
        let prev = without_later(headers, i, name, n - 1);
        if n - 1 > i && names_match(headers[n - 1].name, name) {
            prev
        } else {
            prev.push(headers[n - 1])
        }
    }
}

/// Removes the headers after position `i` that are named `name`.
pub fn remove_later_headers(headers: Vec<Header>, i: usize, name: &str) -> (r: Vec<Header>)
    ensures
        r@.map_values(|h: Header| h@) == without_later(
            headers@.map_values(|h: Header| h@),
            i as int,
            name@,
            headers@.len() as int,
        ),
{
    let ghost hs = headers@.map_values(|h: Header| h@);
    let ghost n = headers@.len() as int;
    let len = headers.len();
    assert(n == len as int);
    let mut rest = headers;
    let mut out: Vec<Header> = Vec::new();
    let mut j: usize = 0;
    while rest.len() > 0
        invariant
            hs.len() == n,
            n <= usize::MAX,
            j + rest@.len() == n,
            forall|k: int| 0 <= k < rest@.len() ==> #[trigger] rest@[k]@ == hs[j + k],
            out@.map_values(|h: Header| h@) == without_later(hs, i as int, name@, j as int),
        decreases rest.len(),
    {
        let h = rest.remove(0);
        let ghost hv = h@;
        assert(hv == hs[j as int]);
        let drop = j > i && header_names_match(h.name.as_str(), name);
        let ghost before = out@.map_values(|x: Header| x@);
        if !drop {
            out.push(h);
            proof {
                assert(out@.map_values(|x: Header| x@) =~= before.push(hv));
            }
        }
        proof {
            assert forall|k: int| 0 <= k < rest@.len() implies #[trigger] rest@[k]@ == hs[j + 1 + k] by {
            }
        }
        j += 1;
    }
    out
}

/// Relies on `String::from_utf8_lossy`: bytes below 128 decode one for one
/// into the characters of the same code.
#[verifier::external_body]
fn ascii_to_string(bytes: &[u8]) -> (r: String)
    requires
        forall|i: int| 0 <= i < bytes@.len() ==> bytes@[i] < 128,
    ensures
        r@ == bytes@.map_values(|b: u8| b as char),
{
    String::from_utf8_lossy(bytes).into_owned()
}

/// The text of a header value, where all of its bytes are visible ASCII.
pub fn value_text(value: &Vec<u8>) -> (r: Option<String>)
    ensures
        match r {
            Some(t) => header_text(value@) == Some(t@),
            None => header_text(value@) is None,
        },
{
    let mut i: usize = 0;
    while i < value.len()
        invariant
            0 <= i <= value.len(),
            forall|j: int| 0 <= j < i ==> is_text_byte(value@[j]),
        decreases value.len() - i,
    {
        let b = value[i];
        if !(b == 9 || (32 <= b && b < 127)) {
            return None;
        }
        i += 1;
    }
    Some(ascii_to_string(value.as_slice()))
}

/// The UTF-8 bytes of `text`, where each of them may stand in a header
/// value.
pub fn value_bytes(text: &str) -> (r: Option<Vec<u8>>)
    ensures
        match r {
            Some(v) => is_value_text(text@) && v@ == encode_utf8(text@),
            None => !is_value_text(text@),
        },
{
    let bytes = text.as_bytes();
    let mut out: Vec<u8> = Vec::new();
    let mut i: usize = 0;
    while i < bytes.len()
        invariant
            bytes@ == encode_utf8(text@),
            0 <= i <= bytes@.len(),
            out@ == bytes@.subrange(0, i as int),
            forall|j: int| 0 <= j < i ==> is_value_byte(bytes@[j]),
        decreases bytes.len() - i,
    {
        let b = bytes[i];
        if !(b == 9 || (32 <= b && b != 127)) {
            return None;
        }
        out.push(b);
        i += 1;
    }
    proof {
        assert(out@ =~= bytes@);
    }
    Some(out)
}

impl<B> Request<B> {
    /// A request with `method`, `uri` and `body`, no headers and no document
    /// root.
    pub fn new(method: &str, uri: Uri, body: B) -> (r: Request<B>)
        ensures
            r.parts@ == (PartsView {
                method: method@,
                uri: uri@,
                headers: Seq::empty(),
                document_root: None,
            }),
            r.body == body,
    {
        let r = Request {
            parts: Parts {
                method: method.to_string(),
                uri,
                headers: Vec::new(),
                document_root: None,
            },
            body,
        };
        proof {
            assert(r.parts@.headers =~= Seq::<HeaderView>::empty());
        }
        r
    }

    /// The request path.
    pub fn path(&self) -> (r: &str)
        ensures
            r@ == self.parts.uri.path@,
    {
        self.parts.uri.path.as_str()
    }

    /// The request method.
    pub fn method(&self) -> (r: &str)
        ensures
            r@ == self.parts.method@,
    {
        self.parts.method.as_str()
    }

    /// The query, if the URI has one.
    pub fn query(&self) -> (r: Option<&str>)
        ensures
            match r {
                Some(q) => self.parts.uri@.query == Some(q@),
                None => self.parts.uri@.query is None,
            },
    {
        match &self.parts.uri.query {
            Some(q) => Some(q.as_str()),
            None => None,
        }
    }

    /// The text of the first header named `name` (in any ASCII case), where
    /// there is one and its value is text.
    pub fn header(&self, name: &str) -> (r: Option<String>)
        ensures
            match r {
                Some(t) => first_header_with_text(self.parts@.headers, name@) matches Some(
                    (_, u),
                ) && u == t@,
                None => first_header_with_text(self.parts@.headers, name@) is None,
            },
    {
        match find_header(&self.parts.headers, name) {
            Some(i) => value_text(&self.parts.headers[i].value),
            None => None,
        }
    }

    /// Appends a header with `name` and the UTF-8 bytes of `value`.
    pub fn add_header(&mut self, name: &str, value: &str)
        ensures
            final(self).parts@ == (PartsView {
                headers: old(self).parts@.headers.push(
                    HeaderView { name: name@, value: encode_utf8(value@) },
                ),
                ..old(self).parts@
            }),
            final(self).body == old(self).body,
    {
        let bytes = value.as_bytes();
        let mut v: Vec<u8> = Vec::new();
        let mut i: usize = 0;
        while i < bytes.len()
            invariant
                bytes@ == encode_utf8(value@),
                0 <= i <= bytes@.len(),
                v@ == bytes@.subrange(0, i as int),
            decreases bytes.len() - i,
        {
            v.push(bytes[i]);
            i += 1;
        }
        proof {
            assert(v@ =~= bytes@);
        }
        let ghost before = self.parts@;
        self.parts.headers.push(Header { name: name.to_string(), value: v });
        proof {
            assert(self.parts@.headers =~= before.headers.push(
                HeaderView { name: name@, value: encode_utf8(value@) },
            ));
        }
    }
}

} // verus!
