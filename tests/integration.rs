use bytes::Bytes;
use http_rewriter::{
    Condition, ConditionExt, DocumentRoot, DocumentRootExt, ExistenceCondition, MethodCondition,
    MethodRewriter, NonExistenceCondition, Parts, PathCondition, PathRewriter, Request,
    RewriteError, Rewriter, RewriterExt, Uri,
};

fn request(method: &str, uri: &str) -> Request<Bytes> {
    Request::new(method, Uri::parse(uri).unwrap(), Bytes::new())
}

#[test]
fn test_fluent_api() {
    let rewriter = PathRewriter::new("^/api/(.*)", "/v2/$1")
        .unwrap()
        .when(MethodCondition::new("GET").expect("Method::GET is always valid"));

    let result = rewriter.rewrite(request("GET", "/api/users")).unwrap();
    assert_eq!(result.path(), "/v2/users");

    let result = rewriter.rewrite(request("POST", "/api/users")).unwrap();
    assert_eq!(result.path(), "/api/users");
}

#[test]
fn test_chained_rewriters() {
    let rewriter = PathRewriter::new("^/old/(.*)", "/new/$1")
        .unwrap()
        .then(MethodRewriter::new("POST").unwrap())
        .then(|mut request: Request<()>| -> Result<Request<()>, RewriteError> {
            request.add_header("X-Rewritten", "true");
            Ok(request)
        });

    let result = rewriter.rewrite(request("GET", "/old/path")).unwrap();
    assert_eq!(result.path(), "/new/path");
    assert_eq!(result.method(), "POST");
    assert_eq!(result.header("x-rewritten").unwrap(), "true");
}

#[test]
fn test_complex_conditions() {
    let method_condition = MethodCondition::new("GET")
        .expect("Method::GET is always valid")
        .or(MethodCondition::new("POST").expect("Method::POST is always valid"));
    let path_condition = PathCondition::new("^/api/.*").unwrap();
    let combined = method_condition.and(path_condition);

    assert!(combined.matches(&request("GET", "/api/users")));
    assert!(combined.matches(&request("POST", "/api/users")));
    assert!(!combined.matches(&request("DELETE", "/api/users")));
    assert!(!combined.matches(&request("GET", "/home")));
}

#[test]
fn test_closure_condition_preserves_body() {
    let is_api_path = |parts: &Parts| -> bool { parts.uri.path.starts_with("/api/") };

    let rewriter = PathRewriter::new("^/api/v1/(.*)$", "/api/v2/$1")
        .unwrap()
        .when(is_api_path);

    let original_body = Bytes::from("request body content");
    let request = Request::new("POST", Uri::parse("/api/v1/users").unwrap(), original_body.clone());

    assert!(is_api_path.matches(&request));

    let result = rewriter.rewrite(request).unwrap();
    assert_eq!(result.path(), "/api/v2/users");
    assert_eq!(&result.body, &original_body);
    assert_eq!(result.body.as_ref(), b"request body content");
}

#[test]
fn test_existence_conditions_with_document_root() {
    // The filesystem root always holds a directory named by the path "/".
    let exists_cond = ExistenceCondition::new();

    let mut request1 = request("GET", "/");
    assert!(!exists_cond.matches(&request1));

    request1.set_document_root(DocumentRoot::new("/"));
    assert!(exists_cond.matches(&request1));

    let not_exists_cond = NonExistenceCondition::new();
    assert!(!not_exists_cond.matches(&request1));

    let mut request2 = request("GET", "/does_not_exist_lang_handler_test.txt");
    request2.set_document_root(DocumentRoot::new("/"));
    assert!(not_exists_cond.matches(&request2));
}
