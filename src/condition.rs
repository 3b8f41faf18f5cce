//! Conditions: predicates over the parts of a request.
use vstd::prelude::*;

use crate::pattern::{regex_compiles, regex_search, Pattern};
use crate::request::{first_header_with_text, find_header, value_text, Parts, Request};

verus! {

/// A predicate over a request's parts (never its body).
pub trait Condition {
    /// What a caller must know of the parts before asking; only closures
    /// ask for anything.
    spec fn accepts(&self, parts: Parts) -> bool;

    /// `r` is a result that `matches` may give for a request with `parts`.
    /// Conditions that read the filesystem may give either result.
    spec fn admits(&self, parts: Parts, r: bool) -> bool;

    /// Whether the request satisfies this condition.
    fn matches<B>(&self, request: &Request<B>) -> (r: bool)
        requires
            self.accepts(request.parts),
        ensures
            self.admits(request.parts, r),
    ;
}

/// Matches when a regular expression is found anywhere in the request path.
pub struct PathCondition {
    pattern: Pattern,
}

impl PathCondition {
    pub closed spec fn pattern(&self) -> Seq<char> {
        self.pattern.source()
    }

    /// A condition that searches the path for `pattern`; fails when `pattern`
    /// is not a valid regular expression.
    pub fn new(pattern: &str) -> (r: Result<PathCondition, regex::Error>)
        ensures
            r is Ok <==> regex_compiles(pattern@),
            r matches Ok(c) ==> c.pattern() == pattern@,
    {
        match Pattern::new(pattern) {
            Ok(p) => Ok(PathCondition { pattern: p }),
            Err(e) => Err(e),
        }
    }
}

impl Condition for PathCondition {
    open spec fn accepts(&self, parts: Parts) -> bool {
        true
    }

    open spec fn admits(&self, parts: Parts, r: bool) -> bool {
        r == regex_search(self.pattern(), parts.uri.path@)
    }

    fn matches<B>(&self, request: &Request<B>) -> (r: bool) {
        self.pattern.is_match(request.parts.uri.path.as_str())
    }
}

/// Matches when a regular expression is found anywhere in the method name.
pub struct MethodCondition {
    method: Pattern,
}

impl MethodCondition {
    pub closed spec fn pattern(&self) -> Seq<char> {
        self.method.source()
    }

    /// A condition that searches the method for `method`, read as a regular
    /// expression; fails when it is not a valid one.
    pub fn new(method: &str) -> (r: Result<MethodCondition, regex::Error>)
        ensures
            r is Ok <==> regex_compiles(method@),
            r matches Ok(c) ==> c.pattern() == method@,
    {
        match Pattern::new(method) {
            Ok(p) => Ok(MethodCondition { method: p }),
            Err(e) => Err(e),
        }
    }
}

impl Condition for MethodCondition {
    open spec fn accepts(&self, parts: Parts) -> bool {
        true
    }

    open spec fn admits(&self, parts: Parts, r: bool) -> bool {
        r == regex_search(self.pattern(), parts.method@)
    }

    fn matches<B>(&self, request: &Request<B>) -> (r: bool) {
        self.method.is_match(request.parts.method.as_str())
    }
}

/// Matches when the first header of a name (in any ASCII case) holds text in
/// which a regular expression is found.
pub struct HeaderCondition {
    name: String,
    pattern: Pattern,
}

/// Whether the first header named `name` has text in which `pattern` is found.
pub open spec fn header_matches(parts: Parts, name: Seq<char>, pattern: Seq<char>) -> bool {
    match first_header_with_text(parts@.headers, name) {
        Some((_, text)) => regex_search(pattern, text),
        None => false,
    }
}

impl HeaderCondition {
    pub closed spec fn name(&self) -> Seq<char> {
        self.name@
    }

    pub closed spec fn pattern(&self) -> Seq<char> {
        self.pattern.source()
    }

    /// A condition on header `name`; fails when `pattern` is not a valid
    /// regular expression.
    pub fn new(name: &str, pattern: &str) -> (r: Result<HeaderCondition, regex::Error>)
        ensures
            r is Ok <==> regex_compiles(pattern@),
            r matches Ok(c) ==> c.name() == name@ && c.pattern() == pattern@,
    {
        match Pattern::new(pattern) {
            Ok(p) => Ok(HeaderCondition { name: name.to_string(), pattern: p }),
            Err(e) => Err(e),
        }
    }
}

impl Condition for HeaderCondition {
    open spec fn accepts(&self, parts: Parts) -> bool {
        true
    }

    open spec fn admits(&self, parts: Parts, r: bool) -> bool {
        r == header_matches(parts, self.name(), self.pattern())
    }

    fn matches<B>(&self, request: &Request<B>) -> (r: bool) {
        match find_header(&request.parts.headers, self.name.as_str()) {
            Some(i) => match value_text(&request.parts.headers[i].value) {
                Some(text) => self.pattern.is_match(text.as_str()),
                None => false,
            },
            None => false,
        }
    }
}

/// The request path without its leading `/`, if it has one.
pub open spec fn relative_path(path: Seq<char>) -> Seq<char> {
    if path.len() > 0 && path[0] == '/' {
        path.subrange(1, path.len() as int)
    } else {
        path
    }
}

/// `rest` placed under directory `root`, with one `/` between them (none is
/// added where `root` already ends in `/`). Unlike `std::path::Path::join`,
/// a `rest` that itself starts with `/` (a request path such as `//etc`)
/// stays under the root instead of replacing it, and an empty root yields
/// `/` followed by `rest`.
pub open spec fn joined_path(root: Seq<char>, rest: Seq<char>) -> Seq<char> {
    if root.len() > 0 && root[root.len() - 1] == '/' {
        root + rest
    } else {
        root + seq!['/'] + rest
    }
}

/// The file that the existence conditions look for: the request path under
/// the document root, or nothing when no document root is set.
pub open spec fn existence_target_spec(parts: Parts) -> Option<Seq<char>> {
    match parts@.document_root {
        Some(root) => Some(joined_path(root, relative_path(parts.uri.path@))),
        None => None,
    }
}

/// The path of the file that the existence conditions look for.
pub fn existence_target(parts: &Parts) -> (r: Option<String>)
    ensures
        match r {
            Some(p) => existence_target_spec(*parts) == Some(p@),
            None => existence_target_spec(*parts) is None,
        },
{
    match &parts.document_root {
        Some(root) => {
            let path = parts.uri.path.as_str();
            let n = path.unicode_len();
            let rest = if n > 0 && path.get_char(0) == '/' {
                path.substring_char(1, n)
            } else {
                path
            };
            let root_text = root.path();
            let m = root_text.unicode_len();
            let mut out = root_text.to_string();
            if !(m > 0 && root_text.get_char(m - 1) == '/') {
                out.append("/");
                proof {
                    reveal_strlit("/");
                }
            }
            out.append(rest);
            proof {
                assert(out@ =~= joined_path(root_text@, relative_path(path@)));
            }
            Some(out)
        },
        None => None,
    }
}

/// The answer of an existence condition, given whether the disk reports a
/// file at the target path (`found`): without a document root it is `false`;
/// with one it is whether `found` is what the condition looks for
/// (`want_present`: `true` for existence, `false` for non-existence).
pub open spec fn existence_answer_spec(parts: Parts, found: bool, want_present: bool) -> bool {
    existence_target_spec(parts) is Some && found == want_present
}

/// Decides an existence condition from the disk's answer `found`.
pub fn existence_answer(parts: &Parts, found: bool, want_present: bool) -> (r: bool)
    ensures
        r == existence_answer_spec(*parts, found, want_present),
{
    match &parts.document_root {
        Some(_) => found == want_present,
        None => false,
    }
}

/// Relies on `std::path::Path::exists`: whether a file or directory is at
/// `path` now. Nothing is promised of the answer, which the disk decides.
#[verifier::external_body]
fn file_exists(path: &str) -> (r: bool) {
    std::path::Path::new(path).exists()
}

/// Matches when the request path names an existing file or directory under
/// the request's document root. Without a document root it never matches.
pub struct ExistenceCondition;

impl ExistenceCondition {
    pub fn new() -> (r: ExistenceCondition) {
        ExistenceCondition
    }
}

impl Condition for ExistenceCondition {
    open spec fn accepts(&self, parts: Parts) -> bool {
        true
    }

    /// `r` is the answer for some report of the disk.
    open spec fn admits(&self, parts: Parts, r: bool) -> bool {
        exists|found: bool| r == existence_answer_spec(parts, found, true)
    }

    fn matches<B>(&self, request: &Request<B>) -> (r: bool) {
        match existence_target(&request.parts) {
            Some(path) => existence_answer(&request.parts, file_exists(path.as_str()), true),
            None => existence_answer(&request.parts, false, true),
        }
    }
}

/// Matches when the request path names nothing under the request's document
/// root. Without a document root it does not match either.
pub struct NonExistenceCondition;

impl NonExistenceCondition {
    pub fn new() -> (r: NonExistenceCondition) {
        NonExistenceCondition
    }
}

impl Condition for NonExistenceCondition {
    open spec fn accepts(&self, parts: Parts) -> bool {
        true
    }

    /// `r` is the answer for some report of the disk.
    open spec fn admits(&self, parts: Parts, r: bool) -> bool {
        exists|found: bool| r == existence_answer_spec(parts, found, false)
    }

    fn matches<B>(&self, request: &Request<B>) -> (r: bool) {
        match existence_target(&request.parts) {
            Some(path) => existence_answer(&request.parts, file_exists(path.as_str()), false),
            None => existence_answer(&request.parts, false, false),
        }
    }
}

/// Two conditions joined by AND or OR.
pub enum GroupCondition<A, B> {
    And(Box<A>, Box<B>),
    Or(Box<A>, Box<B>),
}

impl<A: Condition, B: Condition> GroupCondition<A, B> {
    /// Matches when both `a` and `b` match.
    pub fn and(a: Box<A>, b: Box<B>) -> (r: Box<GroupCondition<A, B>>)
        ensures
            *r == GroupCondition::And(a, b),
    {
        Box::new(GroupCondition::And(a, b))
    }

    /// Matches when `a` or `b` matches.
    pub fn or(a: Box<A>, b: Box<B>) -> (r: Box<GroupCondition<A, B>>)
        ensures
            *r == GroupCondition::Or(a, b),
    {
        Box::new(GroupCondition::Or(a, b))
    }
}

impl<A: Condition, B: Condition> Condition for GroupCondition<A, B> {
    open spec fn accepts(&self, parts: Parts) -> bool {
        match self {
            GroupCondition::And(a, b) => a.accepts(parts) && b.accepts(parts),
            GroupCondition::Or(a, b) => a.accepts(parts) && b.accepts(parts),
        }
    }

    /// Both children are asked, first `a` then `b`, and their answers joined:
    /// AND is `true` where both may answer `true` and `false` where either
    /// may answer `false`; OR the other way round.
    open spec fn admits(&self, parts: Parts, r: bool) -> bool {
        match self {
            GroupCondition::And(a, b) => if r {
                a.admits(parts, true) && b.admits(parts, true)
            } else {
                a.admits(parts, false) || b.admits(parts, false)
            },
            GroupCondition::Or(a, b) => if r {
                a.admits(parts, true) || b.admits(parts, true)
            } else {
                a.admits(parts, false) && b.admits(parts, false)
            },
        }
    }

    fn matches<Body>(&self, request: &Request<Body>) -> (r: bool) {
        match self {
            GroupCondition::And(a, b) => {
                let x = a.matches(request);
                let y = b.matches(request);
                x && y
            },
            GroupCondition::Or(a, b) => {
                let x = a.matches(request);
                let y = b.matches(request);
                x || y
            },
        }
    }
}

/// Joining conditions with `and` / `or`, for every condition.
pub trait ConditionExt: Condition + Sized {
    /// The condition that matches when both `self` and `other` match.
    fn and<C: Condition>(self, other: C) -> (r: GroupCondition<Self, C>)
        ensures
            r == GroupCondition::And(Box::new(self), Box::new(other)),
    {
        GroupCondition::And(Box::new(self), Box::new(other))
    }

    /// The condition that matches when `self` or `other` matches.
    fn or<C: Condition>(self, other: C) -> (r: GroupCondition<Self, C>)
        ensures
            r == GroupCondition::Or(Box::new(self), Box::new(other)),
    {
        GroupCondition::Or(Box::new(self), Box::new(other))
    }
}

impl<T: Condition> ConditionExt for T {}

/// A closure over a request's parts acts as a condition; it never sees the
/// body.
impl<F: Fn(&Parts) -> bool> Condition for F {
    open spec fn accepts(&self, parts: Parts) -> bool {
        call_requires(*self, (&parts,))
    }

    open spec fn admits(&self, parts: Parts, r: bool) -> bool {
        call_ensures(*self, (&parts,), r)
    }

    fn matches<B>(&self, request: &Request<B>) -> (r: bool) {
        self(&request.parts)
    }
}

/// A path condition answers exactly whether its pattern is found anywhere
/// in the request path.
pub proof fn path_condition_is_search(c: PathCondition, parts: Parts, r: bool)
    requires
        c.admits(parts, r),
    ensures
        r == regex_search(c.pattern(), parts.uri.path@),
{
}

/// AND of two conditions that each give one answer on `parts` gives
/// exactly the conjunction of those answers.
pub proof fn and_is_conjunction<A: Condition, B: Condition>(a: A, b: B, parts: Parts, x: bool, y: bool)
    requires
        forall|v: bool| a.admits(parts, v) <==> v == x,
        forall|v: bool| b.admits(parts, v) <==> v == y,
    ensures
        forall|r: bool|
            GroupCondition::And(Box::new(a), Box::new(b)).admits(parts, r) <==> r == (x && y),
{
}

/// OR of two conditions that each give one answer on `parts` gives exactly
/// the disjunction of those answers.
pub proof fn or_is_disjunction<A: Condition, B: Condition>(a: A, b: B, parts: Parts, x: bool, y: bool)
    requires
        forall|v: bool| a.admits(parts, v) <==> v == x,
        forall|v: bool| b.admits(parts, v) <==> v == y,
    ensures
        forall|r: bool|
            GroupCondition::Or(Box::new(a), Box::new(b)).admits(parts, r) <==> r == (x || y),
{
}

/// Without a document root neither existence condition matches, whatever
/// the path: non-existence is not the negation of existence there.
pub proof fn existence_needs_document_root(parts: Parts, found: bool, missing: bool)
    requires
        parts@.document_root is None,
        ExistenceCondition.admits(parts, found),
        NonExistenceCondition.admits(parts, missing),
    ensures
        !found,
        !missing,
{
}

/// With a document root, on one report of the disk, non-existence answers
/// the negation of existence.
pub proof fn non_existence_negates_existence(parts: Parts, found: bool)
    requires
        parts@.document_root is Some,
    ensures
        existence_answer_spec(parts, found, false) == !existence_answer_spec(parts, found, true),
{
}

} // verus!
