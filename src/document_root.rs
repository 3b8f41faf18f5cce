//! The directory that existence conditions resolve request paths against.
use vstd::prelude::*;

use crate::request::Request;

verus! {

/// A document root: the directory, as an absolute path, under which request
/// paths are looked up by the existence conditions.
#[derive(Debug)]
pub struct DocumentRoot(String);

impl DocumentRoot {
    pub closed spec fn spec_path(&self) -> Seq<char> {
        self.0@
    }

    /// A document root at `path`.
    pub fn new(path: &str) -> (r: DocumentRoot)
        ensures
            r.spec_path() == path@,
    {
        DocumentRoot(path.to_string())
    }

    /// The directory of this document root.
    pub fn path(&self) -> (r: &str)
        ensures
            r@ == self.spec_path(),
    {
        self.0.as_str()
    }
}

impl Clone for DocumentRoot {
    fn clone(&self) -> (r: DocumentRoot)
        ensures
            r.spec_path() == self.spec_path(),
    {
        DocumentRoot(self.0.clone())
    }
}

/// Storing and reading the document root of a request.
pub trait DocumentRootExt {
    spec fn spec_document_root(&self) -> Option<Seq<char>>;

    /// `self` and `other` agree in everything but their document roots.
    spec fn agrees_apart_from_root(&self, other: &Self) -> bool;

    /// The document root stored in the request, if any.
    fn document_root(&self) -> (r: Option<&DocumentRoot>)
        ensures
            match r {
                Some(d) => self.spec_document_root() == Some(d.spec_path()),
                None => self.spec_document_root() is None,
            },
    ;

    /// Stores `root` as the document root of the request.
    fn set_document_root(&mut self, root: DocumentRoot)
        ensures
            final(self).spec_document_root() == Some(root.spec_path()),
            final(self).agrees_apart_from_root(old(self)),
    ;
}

impl<B> DocumentRootExt for Request<B> {
    open spec fn spec_document_root(&self) -> Option<Seq<char>> {
        self.parts@.document_root
    }

    open spec fn agrees_apart_from_root(&self, other: &Self) -> bool {
        &&& self.parts@.method == other.parts@.method
        &&& self.parts@.uri == other.parts@.uri
        &&& self.parts@.headers == other.parts@.headers
        &&& self.body == other.body
    }

    fn document_root(&self) -> (r: Option<&DocumentRoot>) {
        match &self.parts.document_root {
            Some(d) => Some(d),
            None => None,
        }
    }

    fn set_document_root(&mut self, root: DocumentRoot) {
        self.parts.document_root = Some(root);
    }
}

} // verus!
