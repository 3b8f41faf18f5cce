use http_rewriter::{DocumentRoot, DocumentRootExt, Request, Uri};
use std::path::{Path, PathBuf};

#[test]
fn test_document_root() {
    let root1 = DocumentRoot::new("/var/www/html");
    assert_eq!(Path::new(root1.path()), Path::new("/var/www/html"));

    let buf = PathBuf::from("/srv/static");
    let root2 = DocumentRoot::new(buf.to_str().unwrap());
    assert_eq!(Path::new(root2.path()), Path::new("/srv/static"));

    let root3 = DocumentRoot::new(Path::new("/home/user/public").to_str().unwrap());
    assert_eq!(Path::new(root3.path()), Path::new("/home/user/public"));

    let root4 = DocumentRoot::new("/opt/app/static");
    assert_eq!(Path::new(root4.path()), Path::new("/opt/app/static"));
}

#[test]
fn test_request_extension() {
    let mut request = Request::new("GET", Uri::parse("/test").unwrap(), ());

    assert!(request.document_root().is_none());
    request.set_document_root(DocumentRoot::new("/var/www"));
    assert_eq!(Path::new(request.document_root().unwrap().path()), Path::new("/var/www"));
}

#[test]
fn document_root_clone_keeps_path() {
    let root = DocumentRoot::new("/srv/www");
    let copy = root.clone();
    assert_eq!(copy.path(), "/srv/www");
}
