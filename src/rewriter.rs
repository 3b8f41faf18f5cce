//! Rewriters: transforms of a request that keep its body.
use vstd::prelude::*;
use vstd::utf8::*;

use crate::condition::Condition;
use crate::conditional_rewriter::ConditionalRewriter;
use crate::pattern::{regex_compiles, regex_search, replaced_first, Pattern};
use crate::request::{
    first_header_with_text, find_header, first_index_of, is_value_text, uri_parse, uri_text, value_bytes,
    value_text, is_origin_form, origin_form_parts, remove_later_headers, without_later, Header,
    HeaderView, Parts, PartsView, Request, Uri, UriView,
};

verus! {

/// The failure of a rewrite: the rewritten text is no valid URI, method or
/// header value.
#[derive(Debug)]
pub struct RewriteError(String);

impl RewriteError {
    pub closed spec fn spec_message(&self) -> Seq<char> {
        self.0@
    }

    /// An error with `message`.
    pub fn new(message: &str) -> (r: RewriteError)
        ensures
            r.spec_message() == message@,
    {
        RewriteError(message.to_string())
    }

    /// The message of this error.
    pub fn message(&self) -> (r: &str)
        ensures
            r@ == self.spec_message(),
    {
        self.0.as_str()
    }

    /// The error as a line of text: `Rewrite error: ` and the message.
    pub fn to_text(&self) -> (r: String)
        ensures
            r@ == seq!['R', 'e', 'w', 'r', 'i', 't', 'e', ' ', 'e', 'r', 'r', 'o', 'r', ':', ' ']
                + self.spec_message(),
    {
        let mut out = "Rewrite error: ".to_string();
        proof {
            reveal_strlit("Rewrite error: ");
        }
        out.append(self.0.as_str());
        out
    }
}

impl Clone for RewriteError {
    fn clone(&self) -> (r: RewriteError)
        ensures
            r.spec_message() == self.spec_message(),
    {
        RewriteError(self.0.clone())
    }
}

impl PartialEq for RewriteError {
    fn eq(&self, other: &RewriteError) -> (r: bool) {
        self.0 == other.0
    }
}

impl vstd::std_specs::cmp::PartialEqSpecImpl for RewriteError {
    open spec fn obeys_eq_spec() -> bool {
        true
    }

    open spec fn eq_spec(&self, other: &RewriteError) -> bool {
        self.spec_message() == other.spec_message()
    }
}

/// The parts of a rewrite's result, without the body.
pub open spec fn parts_of<B>(r: Result<Request<B>, RewriteError>) -> Result<Parts, RewriteError> {
    match r {
        Ok(q) => Ok(q.parts),
        Err(e) => Err(e),
    }
}

/// A transform of a request. The body is handed back untouched.
pub trait Rewriter {
    /// What a caller must know of the parts before asking; only closures
    /// ask for anything.
    spec fn accepts(&self, parts: Parts) -> bool;

    /// `r` is a result that `rewrite` may give for a request with `parts`.
    spec fn admits(&self, parts: Parts, r: Result<Parts, RewriteError>) -> bool;

    /// Rewrites `request`, or fails with a [`RewriteError`].
    fn rewrite<B>(&self, request: Request<B>) -> (r: Result<Request<B>, RewriteError>)
        requires
            self.accepts(request.parts),
        ensures
            self.admits(request.parts, parts_of(r)),
            r matches Ok(q) ==> q.body == request.body,
    ;
}

/// How a rewritten URI text was parsed: as `uri_parse` says, and split at the
/// first `?` where it is in origin form.
pub open spec fn parsed_as(text: Seq<char>, u: UriView) -> bool {
    &&& uri_parse(text) == Some(u)
    &&& is_origin_form(text) ==> u == origin_form_parts(text)
}

/// The outcome of replacing the URI of `parts` by the parse of `text`.
pub open spec fn reparsed(parts: Parts, text: Seq<char>, r: Result<Parts, RewriteError>) -> bool {
    match uri_parse(text) {
        Some(_) => r matches Ok(q) && parsed_as(text, q.uri@) && q@ == (PartsView { uri: q.uri@, ..parts@ }),
        None => r is Err,
    }
}

/// `uri` with its path replaced by `path`.
pub open spec fn with_path(uri: UriView, path: Seq<char>) -> UriView {
    UriView { path, ..uri }
}

/// Replaces the first match of a regular expression in the path; the rest of
/// the URI is kept, and the whole is parsed again.
pub struct PathRewriter {
    pattern: Pattern,
    replacement: String,
}

impl PathRewriter {
    pub closed spec fn pattern(&self) -> Seq<char> {
        self.pattern.source()
    }

    pub closed spec fn replacement(&self) -> Seq<char> {
        self.replacement@
    }

    /// The path after replacement.
    pub open spec fn new_path(&self, parts: Parts) -> Seq<char> {
        replaced_first(self.pattern(), parts.uri.path@, self.replacement())
    }

    /// A path rewriter; fails when `pattern` is not a valid regular expression.
    pub fn new(pattern: &str, replacement: &str) -> (r: Result<PathRewriter, regex::Error>)
        ensures
            r is Ok <==> regex_compiles(pattern@),
            r matches Ok(w) ==> w.pattern() == pattern@ && w.replacement() == replacement@,
    {
        match Pattern::new(pattern) {
            Ok(p) => Ok(PathRewriter { pattern: p, replacement: replacement.to_string() }),
            Err(e) => Err(e),
        }
    }
}

impl Rewriter for PathRewriter {
    open spec fn accepts(&self, parts: Parts) -> bool {
        true
    }

    open spec fn admits(&self, parts: Parts, r: Result<Parts, RewriteError>) -> bool {
        if self.new_path(parts) == parts.uri.path@ {
            r == Ok::<Parts, RewriteError>(parts)
        } else {
            reparsed(parts, uri_text(with_path(parts.uri@, self.new_path(parts))), r)
        }
    }

    fn rewrite<B>(&self, request: Request<B>) -> (r: Result<Request<B>, RewriteError>) {
        let Request { parts, body } = request;
        let new_path = self.pattern.replace_first(parts.uri.path.as_str(), self.replacement.as_str());
        if new_path == parts.uri.path {
            return Ok(Request { parts, body });
        }
        let Parts { method, uri, headers, document_root } = parts;
        let Uri { scheme, authority, path: _, query } = uri;
        let candidate = Uri { scheme, authority, path: new_path, query };
        let text = candidate.to_text();
        match Uri::parse(text.as_str()) {
            Some(u) => Ok(Request { parts: Parts { method, uri: u, headers, document_root }, body }),
            None => Err(RewriteError::new("Invalid URI after path rewrite")),
        }
    }
}

/// A character that may stand in a method name (an HTTP token character).
pub open spec fn is_method_char(c: char) -> bool {
    ||| ('0' <= c && c <= '9')
    ||| ('A' <= c && c <= 'Z')
    ||| ('a' <= c && c <= 'z')
    ||| c == '!' || c == '#' || c == '$' || c == '%' || c == '&' || c == '\''
    ||| c == '*' || c == '+' || c == '-' || c == '.' || c == '^' || c == '_'
    ||| c == '`' || c == '|' || c == '~'
}

/// A valid method name: one or more token characters.
pub open spec fn is_method_token(s: Seq<char>) -> bool {
    &&& s.len() > 0
    &&& forall|i: int| 0 <= i < s.len() ==> is_method_char(s[i])
}

/// Relies on `http::Method::from_bytes`: it accepts exactly the non-empty
/// strings of token characters, and the method keeps the given spelling.
#[verifier::external_body]
fn checked_method(method: &str) -> (r: Option<String>)
    ensures
        r is Some <==> is_method_token(method@),
        r matches Some(m) ==> m@ == method@,
{
    match http::Method::from_bytes(method.as_bytes()) {
        Ok(m) => Some(m.as_str().to_string()),
        Err(_) => None,
    }
}

/// Sets the method to a fixed, validated name.
pub struct MethodRewriter {
    method: String,
}

impl MethodRewriter {
    pub closed spec fn method(&self) -> Seq<char> {
        self.method@
    }

    /// A rewriter to `method`; fails when `method` is not a valid method name.
    pub fn new(method: &str) -> (r: Result<MethodRewriter, RewriteError>)
        ensures
            r is Ok <==> is_method_token(method@),
            r matches Ok(w) ==> w.method() == method@,
    {
        match checked_method(method) {
            Some(m) => Ok(MethodRewriter { method: m }),
            None => Err(RewriteError::new("Invalid method specified for MethodRewriter")),
        }
    }
}

impl Rewriter for MethodRewriter {
    open spec fn accepts(&self, parts: Parts) -> bool {
        true
    }

    open spec fn admits(&self, parts: Parts, r: Result<Parts, RewriteError>) -> bool {
        r matches Ok(q) && q@ == (PartsView { method: self.method(), ..parts@ })
    }

    fn rewrite<B>(&self, request: Request<B>) -> (r: Result<Request<B>, RewriteError>) {
        let Request { parts, body } = request;
        let Parts { method: _, uri, headers, document_root } = parts;
        Ok(Request { parts: Parts { method: self.method.clone(), uri, headers, document_root }, body })
    }
}

/// A valid header name: one to 65535 token characters.
pub open spec fn is_header_name(s: Seq<char>) -> bool {
    &&& s.len() <= 65535
    &&& is_method_token(s)
}

/// Relies on `http::HeaderName::from_bytes`: it accepts exactly the names of
/// one to 65535 bytes, each a token character.
#[verifier::external_body]
fn valid_header_name(name: &str) -> (r: bool)
    ensures
        r == is_header_name(name@),
{
    http::HeaderName::from_bytes(name.as_bytes()).is_ok()
}

/// Why a header rewriter could not be built.
#[derive(Debug)]
pub enum HeaderRewriterError {
    /// The header name is not a valid one.
    InvalidName,
    /// The pattern is not a valid regular expression.
    InvalidPattern(regex::Error),
}

/// Replaces the first match of a regular expression in the text of the first
/// header of a name, and drops the later headers of that name; requests
/// without such a header, or whose value is no text or does not match, pass
/// unchanged.
pub struct HeaderRewriter {
    name: String,
    pattern: Pattern,
    replacement: String,
}

impl HeaderRewriter {
    pub closed spec fn name(&self) -> Seq<char> {
        self.name@
    }

    pub closed spec fn pattern(&self) -> Seq<char> {
        self.pattern.source()
    }

    pub closed spec fn replacement(&self) -> Seq<char> {
        self.replacement@
    }

    /// A header rewriter; fails when `name` is not a valid header name, or
    /// else when `pattern` is not a valid regular expression.
    pub fn new(name: &str, pattern: &str, replacement: &str) -> (r: Result<HeaderRewriter, HeaderRewriterError>)
        ensures
            r is Ok <==> is_header_name(name@) && regex_compiles(pattern@),
            r matches Ok(w) ==> w.name() == name@ && w.pattern() == pattern@ && w.replacement()
                == replacement@,
            r matches Err(e) ==> (e is InvalidName <==> !is_header_name(name@)),
    {
        if !valid_header_name(name) {
            return Err(HeaderRewriterError::InvalidName);
        }
        match Pattern::new(pattern) {
            Ok(p) => Ok(
                HeaderRewriter { name: name.to_string(), pattern: p, replacement: replacement.to_string() },
            ),
            Err(e) => Err(HeaderRewriterError::InvalidPattern(e)),
        }
    }
}

impl Rewriter for HeaderRewriter {
    open spec fn accepts(&self, parts: Parts) -> bool {
        true
    }

    open spec fn admits(&self, parts: Parts, r: Result<Parts, RewriteError>) -> bool {
        match first_header_with_text(parts@.headers, self.name()) {
            None => r == Ok::<Parts, RewriteError>(parts),
            Some((i, text)) => {
                let value = replaced_first(self.pattern(), text, self.replacement());
                if value == text {
                    r == Ok::<Parts, RewriteError>(parts)
                } else if !is_value_text(value) {
                    r is Err
                } else {
                    r matches Ok(q) && q@ == (PartsView {
                        headers: without_later(
                            parts@.headers.update(
                                i,
                                HeaderView { name: parts@.headers[i].name, value: encode_utf8(value) },
                            ),
                            i,
                            self.name(),
                            parts@.headers.len() as int,
                        ),
                        ..parts@
                    })
                }
            },
        }
    }

    fn rewrite<B>(&self, request: Request<B>) -> (r: Result<Request<B>, RewriteError>) {
        let Request { parts, body } = request;
        let i = match find_header(&parts.headers, self.name.as_str()) {
            Some(i) => i,
            None => return Ok(Request { parts, body }),
        };
        let text = match value_text(&parts.headers[i].value) {
            Some(t) => t,
            None => return Ok(Request { parts, body }),
        };
        let value = self.pattern.replace_first(text.as_str(), self.replacement.as_str());
        if value == text {
            return Ok(Request { parts, body });
        }
        match value_bytes(value.as_str()) {
            Some(bytes) => {
                let ghost before = parts@;
                let Parts { method, uri, headers, document_root } = parts;
                let mut headers = headers;
                headers[i].value = bytes;
                proof {
                    assert(headers@.map_values(|h: Header| h@) =~= before.headers.update(
                        i as int,
                        HeaderView { name: before.headers[i as int].name, value: encode_utf8(value@) },
                    ));
                }
                let headers = remove_later_headers(headers, i, self.name.as_str());
                Ok(Request { parts: Parts { method, uri, headers, document_root }, body })
            },
            None => Err(RewriteError::new("Invalid header value")),
        }
    }
}

/// Replaces the first match of a regular expression in the whole URI text
/// (scheme, authority, path and query), which is then parsed again.
pub struct HrefRewriter {
    pattern: Pattern,
    replacement: String,
}

impl HrefRewriter {
    pub closed spec fn pattern(&self) -> Seq<char> {
        self.pattern.source()
    }

    pub closed spec fn replacement(&self) -> Seq<char> {
        self.replacement@
    }

    /// The URI text after replacement.
    pub open spec fn new_text(&self, parts: Parts) -> Seq<char> {
        replaced_first(self.pattern(), uri_text(parts.uri@), self.replacement())
    }

    /// A URI rewriter; fails when `pattern` is not a valid regular expression.
    pub fn new(pattern: &str, replacement: &str) -> (r: Result<HrefRewriter, regex::Error>)
        ensures
            r is Ok <==> regex_compiles(pattern@),
            r matches Ok(w) ==> w.pattern() == pattern@ && w.replacement() == replacement@,
    {
        match Pattern::new(pattern) {
            Ok(p) => Ok(HrefRewriter { pattern: p, replacement: replacement.to_string() }),
            Err(e) => Err(e),
        }
    }
}

impl Rewriter for HrefRewriter {
    open spec fn accepts(&self, parts: Parts) -> bool {
        true
    }

    open spec fn admits(&self, parts: Parts, r: Result<Parts, RewriteError>) -> bool {
        if self.new_text(parts) == uri_text(parts.uri@) {
            r == Ok::<Parts, RewriteError>(parts)
        } else {
            reparsed(parts, self.new_text(parts), r)
        }
    }

    fn rewrite<B>(&self, request: Request<B>) -> (r: Result<Request<B>, RewriteError>) {
        let Request { parts, body } = request;
        let text = parts.uri.to_text();
        let new_text = self.pattern.replace_first(text.as_str(), self.replacement.as_str());
        if new_text == text {
            return Ok(Request { parts, body });
        }
        match Uri::parse(new_text.as_str()) {
            Some(u) => {
                let Parts { method, uri: _, headers, document_root } = parts;
                Ok(Request { parts: Parts { method, uri: u, headers, document_root }, body })
            },
            None => Err(RewriteError::new("Invalid URI after rewrite")),
        }
    }
}

/// Applies `first`, then `second` to its result; an error of `first` is
/// returned as it is and `second` is not run.
pub struct SequenceRewriter<R1, R2> {
    pub first: R1,
    pub second: R2,
}

impl<R1: Rewriter, R2: Rewriter> SequenceRewriter<R1, R2> {
    /// `first`, then `second`.
    pub fn new(first: R1, second: R2) -> (r: SequenceRewriter<R1, R2>)
        ensures
            r.first == first,
            r.second == second,
    {
        SequenceRewriter { first, second }
    }
}

impl<R1: Rewriter, R2: Rewriter> Rewriter for SequenceRewriter<R1, R2> {
    open spec fn accepts(&self, parts: Parts) -> bool {
        &&& self.first.accepts(parts)
        &&& forall|mid: Parts| #[trigger]
            self.first.admits(parts, Ok(mid)) ==> self.second.accepts(mid)
    }

    open spec fn admits(&self, parts: Parts, r: Result<Parts, RewriteError>) -> bool {
        exists|mid: Result<Parts, RewriteError>|
            #[trigger] self.first.admits(parts, mid) && match mid {
                Ok(p) => self.second.admits(p, r),
                Err(e) => r == Err::<Parts, RewriteError>(e),
            }
    }

    fn rewrite<B>(&self, request: Request<B>) -> (r: Result<Request<B>, RewriteError>) {
        match self.first.rewrite(request) {
            Ok(mid) => self.second.rewrite(mid),
            Err(e) => Err(e),
        }
    }
}

/// A closure from a body-less request to a result acts as a rewriter; the
/// body is taken off before the call and put back after.
impl<F: Fn(Request<()>) -> Result<Request<()>, RewriteError>> Rewriter for F {
    open spec fn accepts(&self, parts: Parts) -> bool {
        call_requires(*self, (Request { parts, body: () },))
    }

    open spec fn admits(&self, parts: Parts, r: Result<Parts, RewriteError>) -> bool {
        exists|res: Result<Request<()>, RewriteError>|
            call_ensures(*self, (Request { parts, body: () },), res) && r == parts_of(res)
    }

    fn rewrite<B>(&self, request: Request<B>) -> (r: Result<Request<B>, RewriteError>) {
        let Request { parts, body } = request;
        let ghost before = parts;
        let res = self(Request { parts, body: () });
        proof {
            assert(call_ensures(*self, (Request { parts: before, body: () },), res));
        }
        match res {
            Ok(q) => {
                let r = Ok(Request { parts: q.parts, body });
                assert(parts_of(r) == parts_of(res));
                r
            },
            Err(e) => {
                let r = Err(e);
                assert(parts_of::<B>(r) == parts_of(res));
                r
            },
        }
    }
}

/// Chaining and gating rewriters, for every rewriter.
pub trait RewriterExt: Rewriter + Sized {
    /// `self`, then `other`.
    fn then<R: Rewriter>(self, other: R) -> (r: SequenceRewriter<Self, R>)
        ensures
            r.first == self,
            r.second == other,
    {
        SequenceRewriter::new(self, other)
    }

    /// `self`, applied only where `condition` holds.
    fn when<C: Condition>(self, condition: C) -> (r: ConditionalRewriter<Self, C>)
        ensures
            r.rewriter == self,
            r.condition == condition,
    {
        ConditionalRewriter::new(self, condition)
    }
}

impl<T: Rewriter> RewriterExt for T {}

/// A sequence feeds the result of `first` to `second`: where `first` gives
/// `Ok(mid)` and nothing else, the results of the sequence are those of
/// `second` on `mid`.
pub proof fn sequence_composes<R1: Rewriter, R2: Rewriter>(first: R1, second: R2, parts: Parts, mid: Parts)
    requires
        forall|m: Result<Parts, RewriteError>|
            first.admits(parts, m) <==> m == Ok::<Parts, RewriteError>(mid),
    ensures
        forall|r: Result<Parts, RewriteError>|
            (SequenceRewriter { first, second }).admits(parts, r) <==> second.admits(mid, r),
{
    assert forall|r: Result<Parts, RewriteError>| second.admits(mid, r) implies (SequenceRewriter {
        first,
        second,
    }).admits(parts, r) by {
        let m = Ok::<Parts, RewriteError>(mid);
        let sr = SequenceRewriter { first, second };
        assert(sr.first == first && sr.second == second);
        assert(sr.first.admits(parts, m) && match m {
            Ok(p) => second.admits(p, r),
            Err(e) => r == Err::<Parts, RewriteError>(e),
        });
    }
}

/// Where `first` fails, the sequence fails with the same error and
/// `second` plays no part.
pub proof fn sequence_stops_at_error<R1: Rewriter, R2: Rewriter>(
    first: R1,
    second: R2,
    parts: Parts,
    e: RewriteError,
)
    requires
        forall|m: Result<Parts, RewriteError>|
            first.admits(parts, m) <==> m == Err::<Parts, RewriteError>(e),
    ensures
        forall|r: Result<Parts, RewriteError>|
            (SequenceRewriter { first, second }).admits(parts, r) <==> r == Err::<Parts, RewriteError>(e),
{
    assert forall|r: Result<Parts, RewriteError>| r == Err::<Parts, RewriteError>(e) implies (SequenceRewriter {
        first,
        second,
    }).admits(parts, r) by {
        let m = Err::<Parts, RewriteError>(e);
        let sr = SequenceRewriter { first, second };
        assert(sr.first == first && sr.second == second);
        assert(sr.first.admits(parts, m) && match m {
            Ok(p) => second.admits(p, r),
            Err(e2) => r == Err::<Parts, RewriteError>(e2),
        });
    }
}

/// A path rewriter whose pattern is not found in the path hands the parts
/// back unchanged; so a rewrite whose result no longer matches is a no-op
/// when applied again.
pub proof fn path_rewrite_without_match_is_identity(
    w: PathRewriter,
    parts: Parts,
    r: Result<Parts, RewriteError>,
)
    requires
        !regex_search(w.pattern(), parts.uri.path@),
        w.admits(parts, r),
    ensures
        r == Ok::<Parts, RewriteError>(parts),
{
}

/// No `c` in `s`.
pub open spec fn lacks(s: Seq<char>, c: char) -> bool {
    forall|i: int| 0 <= i < s.len() ==> s[i] != c
}

/// A path rewrite changes only the path. For a request in origin form whose
/// rewritten path starts with `/` and holds neither `?` nor `#`, the method,
/// headers and document root stay, the path becomes the rewritten one, and
/// the query comes back as it was.
pub proof fn path_rewrite_keeps_query(w: PathRewriter, parts: Parts, q: Parts)
    requires
        w.admits(parts, Ok(q)),
        parts.uri.scheme is None,
        parts.uri.authority is None,
        parts@.uri.query matches Some(t) ==> lacks(t, '#'),
        w.new_path(parts).len() > 0,
        w.new_path(parts)[0] == '/',
        lacks(w.new_path(parts), '?'),
        lacks(w.new_path(parts), '#'),
    ensures
        q@.method == parts@.method,
        q@.headers == parts@.headers,
        q@.document_root == parts@.document_root,
        q@.uri.path == w.new_path(parts),
        q@.uri.query == parts@.uri.query,
{
    let np = w.new_path(parts);
    if np != parts.uri.path@ {
        let u = with_path(parts.uri@, np);
        let text = uri_text(u);
        match parts@.uri.query {
            Some(t) => {
                assert(text =~= np + (seq!['?'] + t));
                assert(text[np.len() as int] == '?');
                let k = choose|i: int|
                    0 <= i < text.len() && text[i] == '?' && forall|j: int| 0 <= j < i ==> text[j] != '?';
                assert(0 <= k < text.len() && text[k] == '?' && forall|j: int| 0 <= j < k ==> text[j] != '?') by {
                    lemma_first_index_exists(text, '?', np.len() as int);
                }
                if k < np.len() {
                    assert(text[k] == np[k]);
                } else if k > np.len() {
                    assert(text[np.len() as int] == '?');
                }
                assert(k == np.len());
                assert(first_index_of(text, '?') == Some(k));
                assert(text.subrange(0, k) =~= np);
                assert(text.subrange(k + 1, text.len() as int) =~= t);
            },
            None => {
                assert(text =~= np);
                assert(first_index_of(text, '?') is None);
            },
        }
        assert(is_origin_form(text));
    }
}

/// Where `c` stands at `i` in `s`, a first `c` exists.
proof fn lemma_first_index_exists(s: Seq<char>, c: char, i: int)
    requires
        0 <= i < s.len(),
        s[i] == c,
    ensures
        exists|k: int| 0 <= k < s.len() && s[k] == c && forall|j: int| 0 <= j < k ==> s[j] != c,
    decreases i,
{
    if exists|j: int| 0 <= j < i && s[j] == c {
        let j = choose|j: int| 0 <= j < i && s[j] == c;
        lemma_first_index_exists(s, c, j);
    }
}

} // verus!
