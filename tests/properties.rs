use http_rewriter::condition::{existence_answer, existence_target};
use http_rewriter::{
    AnyCondition, AnyRewriter, Condition, ConditionConfig, ConditionExt, ConditionOperation,
    ConditionType, ConditionalRewriter, ConditionalRewriterConfig, ConfigError, DocumentRoot,
    DocumentRootExt, ExistenceCondition, GroupCondition, HeaderCondition, HeaderRewriter,
    HeaderRewriterError,
    HrefRewriter, MethodCondition, MethodRewriter, NonExistenceCondition, PathCondition,
    PathRewriter, Pattern, Request, RewriteError, Rewriter, RewriterConfig, RewriterType,
    SequenceRewriter, Uri,
};

fn request(method: &str, uri: &str) -> Request<Vec<u8>> {
    Request::new(method, Uri::parse(uri).unwrap(), b"payload".to_vec())
}

fn args(items: &[&str]) -> Option<Vec<String>> {
    Some(items.iter().map(|s| s.to_string()).collect())
}

#[test]
fn path_rewrite_keeps_query_and_rest() {
    let rewriter = PathRewriter::new("^/api/(.*)", "/v2/$1").unwrap();
    let mut req = request("GET", "/api/users?x=1");
    req.add_header("Accept", "text/html");
    req.set_document_root(DocumentRoot::new("/srv"));
    let result = rewriter.rewrite(req).unwrap();
    assert_eq!(result.path(), "/v2/users");
    assert_eq!(result.query(), Some("x=1"));
    assert_eq!(result.method(), "GET");
    assert_eq!(result.header("accept").unwrap(), "text/html");
    assert_eq!(result.document_root().unwrap().path(), "/srv");
    assert_eq!(result.body, b"payload".to_vec());
}

#[test]
fn path_rewrite_keeps_scheme_and_authority() {
    let rewriter = PathRewriter::new("^/a", "/b").unwrap();
    let result = rewriter.rewrite(request("GET", "http://example.com/a?q=1")).unwrap();
    assert_eq!(result.path(), "/b");
    assert_eq!(result.query(), Some("q=1"));
    assert_eq!(result.parts.uri.authority.as_deref(), Some("example.com"));
    assert_eq!(result.parts.uri.scheme.as_deref(), Some("http"));
}

#[test]
fn path_rewrite_to_invalid_uri_fails() {
    let rewriter = PathRewriter::new("^/a", "/a b").unwrap();
    let err = rewriter.rewrite(request("GET", "/a")).unwrap_err();
    assert_eq!(err.message(), "Invalid URI after path rewrite");
    assert_eq!(err.to_text(), "Rewrite error: Invalid URI after path rewrite");
}

#[test]
fn path_condition_searches_unanchored() {
    let cond = PathCondition::new("api").unwrap();
    assert!(cond.matches(&request("GET", "/v1/api/users")));
    assert!(!cond.matches(&request("GET", "/v1/users")));
    let anchored = PathCondition::new("^/api$").unwrap();
    assert!(anchored.matches(&request("GET", "/api")));
    assert!(!anchored.matches(&request("GET", "/api/x")));
}

#[test]
fn invalid_patterns_are_refused() {
    assert!(PathCondition::new("[unclosed").is_err());
    assert!(MethodCondition::new("(").is_err());
    assert!(HeaderCondition::new("Accept", "*x").is_err());
    assert!(PathRewriter::new("[", "x").is_err());
    assert!(matches!(
        HeaderRewriter::new("X", "(", "x"),
        Err(HeaderRewriterError::InvalidPattern(_))
    ));
    assert!(HrefRewriter::new("[", "x").is_err());
    assert!(Pattern::new("[").is_err());
    assert_eq!(Pattern::new("a+").unwrap().as_str(), "a+");
}

#[test]
fn group_and_or_combine_answers() {
    let yes = || PathCondition::new("^/").unwrap();
    let no = || PathCondition::new("^/nothing").unwrap();
    let req = request("GET", "/x");
    assert!(GroupCondition::and(Box::new(yes()), Box::new(yes())).matches(&req));
    assert!(!GroupCondition::and(Box::new(yes()), Box::new(no())).matches(&req));
    assert!(GroupCondition::or(Box::new(no()), Box::new(yes())).matches(&req));
    assert!(!GroupCondition::or(Box::new(no()), Box::new(no())).matches(&req));
}

#[test]
fn conditional_passes_unmatched_requests_unchanged() {
    let rewriter = ConditionalRewriter::new(
        PathRewriter::new("^/a", "/b").unwrap(),
        MethodCondition::new("POST").unwrap(),
    );
    let result = rewriter.rewrite(request("GET", "/a?k=v")).unwrap();
    assert_eq!(result.path(), "/a");
    assert_eq!(result.query(), Some("k=v"));
    let result = rewriter.rewrite(request("POST", "/a")).unwrap();
    assert_eq!(result.path(), "/b");
}

#[test]
fn sequence_stops_at_first_error() {
    let failing = |_: Request<()>| -> Result<Request<()>, RewriteError> {
        Err(RewriteError::new("first failed"))
    };
    let second = MethodRewriter::new("PUT").unwrap();
    let seq = SequenceRewriter::new(failing, second);
    let err = seq.rewrite(request("GET", "/")).unwrap_err();
    assert_eq!(err, RewriteError::new("first failed"));
}

#[test]
fn sequence_feeds_second_with_first_result() {
    let seq = SequenceRewriter::new(
        PathRewriter::new("^/a", "/b").unwrap(),
        PathRewriter::new("^/b", "/c").unwrap(),
    );
    assert_eq!(seq.rewrite(request("GET", "/a")).unwrap().path(), "/c");
}

#[test]
fn single_pass_path_rewrite() {
    let rewriter = PathRewriter::new("^/old/", "/new/").unwrap();
    let once = rewriter.rewrite(request("GET", "/old/old/x")).unwrap();
    assert_eq!(once.path(), "/new/old/x");
    let twice = rewriter.rewrite(once).unwrap();
    assert_eq!(twice.path(), "/new/old/x");
}

#[test]
fn scenario_api_version_rewrite() {
    let rewriter = PathRewriter::new("^/api/(.*)", "/v2/$1").unwrap();
    let result = rewriter.rewrite(request("GET", "/api/users?x=1")).unwrap();
    assert_eq!(result.path(), "/v2/users");
    assert_eq!(result.query(), Some("x=1"));
}

#[test]
fn scenario_header_rewrite() {
    let rewriter = HeaderRewriter::new("X-Version", ".*", "2.0").unwrap();
    let mut req = request("GET", "/");
    req.add_header("X-Version", "1.0");
    let result = rewriter.rewrite(req).unwrap();
    assert_eq!(result.header("x-version").unwrap(), "2.0");

    let plain = request("GET", "/");
    let result = rewriter.rewrite(plain).unwrap();
    assert!(result.header("x-version").is_none());
    assert_eq!(result.parts.headers.len(), 0);
}

#[test]
fn header_rewrite_touches_only_first_match() {
    let rewriter = HeaderRewriter::new("x-tag", "a", "b").unwrap();
    let mut req = request("GET", "/");
    req.add_header("Other", "a");
    req.add_header("X-Tag", "aaa");
    let result = rewriter.rewrite(req).unwrap();
    assert_eq!(result.header("x-tag").unwrap(), "baa");
    assert_eq!(result.header("other").unwrap(), "a");
}

#[test]
fn header_rewrite_to_invalid_value_fails() {
    let rewriter = HeaderRewriter::new("X-A", "v", "\n").unwrap();
    let mut req = request("GET", "/");
    req.add_header("X-A", "v");
    let err = rewriter.rewrite(req).unwrap_err();
    assert_eq!(err.message(), "Invalid header value");
}

#[test]
fn header_condition_needs_text_value() {
    let cond = HeaderCondition::new("Accept", "json").unwrap();
    let mut req = request("GET", "/");
    assert!(!cond.matches(&req));
    req.add_header("ACCEPT", "application/json");
    assert!(cond.matches(&req));
    let mut binary = request("GET", "/");
    binary.add_header("Accept", "jsön");
    assert!(!HeaderCondition::new("Accept", "j").unwrap().matches(&binary));
}

#[test]
fn scenario_method_and_path() {
    let cond = MethodCondition::new("POST")
        .unwrap()
        .and(PathCondition::new("^/api/.*").unwrap());
    assert!(cond.matches(&request("POST", "/api/x")));
    assert!(!cond.matches(&request("GET", "/api/x")));
    assert!(!cond.matches(&request("POST", "/home")));
}

#[test]
fn scenario_existence_without_root() {
    let exists = ExistenceCondition::new();
    let missing = NonExistenceCondition::new();
    for path in ["/", "/a.txt", "/missing.txt"] {
        let req = request("GET", path);
        assert!(!exists.matches(&req));
        assert!(!missing.matches(&req));
    }
}

#[test]
fn scenario_existence_with_root() {
    let exists = ExistenceCondition::new();
    let mut present = request("GET", "/");
    present.set_document_root(DocumentRoot::new("/"));
    assert!(exists.matches(&present));
    let mut absent = request("GET", "/missing-file-of-this-test.txt");
    absent.set_document_root(DocumentRoot::new("/"));
    assert!(!exists.matches(&absent));
}

#[test]
fn method_rewriter_validates_token() {
    assert!(MethodRewriter::new("").is_err());
    assert!(MethodRewriter::new("GE T").is_err());
    let err = MethodRewriter::new("B@D").err().unwrap();
    assert_eq!(err.message(), "Invalid method specified for MethodRewriter");
    let result = MethodRewriter::new("PATCH").unwrap().rewrite(request("GET", "/")).unwrap();
    assert_eq!(result.method(), "PATCH");
}

#[test]
fn href_rewrite_reparses_whole_uri() {
    let rewriter = HrefRewriter::new("^http://old\\.example", "https://new.example").unwrap();
    let result = rewriter.rewrite(request("GET", "http://old.example/p?q=1")).unwrap();
    assert_eq!(result.parts.uri.scheme.as_deref(), Some("https"));
    assert_eq!(result.parts.uri.authority.as_deref(), Some("new.example"));
    assert_eq!(result.path(), "/p");
    assert_eq!(result.query(), Some("q=1"));
    assert_eq!(result.parts.uri.to_text(), "https://new.example/p?q=1");

    let broken = HrefRewriter::new("^/", " ").unwrap();
    let err = broken.rewrite(request("GET", "/x")).unwrap_err();
    assert_eq!(err.message(), "Invalid URI after rewrite");
}

#[test]
fn uri_parse_splits_at_first_question_mark() {
    let u = Uri::parse("/a?b?c").unwrap();
    assert_eq!(u.path, "/a");
    assert_eq!(u.query.as_deref(), Some("b?c"));
    assert!(Uri::parse("/a b").is_none());
}

#[test]
fn condition_config_builds_and_checks() {
    let ok = ConditionConfig { condition: ConditionType::Path, args: args(&["^/api"]) };
    assert!(AnyCondition::from_config(&ok).unwrap().matches(&request("GET", "/api/x")));
    let count = ConditionConfig { condition: ConditionType::Header, args: args(&["X"]) };
    assert!(matches!(AnyCondition::from_config(&count), Err(ConfigError::ArgumentCount)));
    let bad = ConditionConfig { condition: ConditionType::Method, args: args(&["("]) };
    assert!(matches!(AnyCondition::from_config(&bad), Err(ConfigError::InvalidPattern(_))));
    let none = ConditionConfig { condition: ConditionType::Exists, args: None };
    assert!(AnyCondition::from_config(&none).is_ok());
    let extra = ConditionConfig { condition: ConditionType::NotExists, args: args(&["x"]) };
    assert!(matches!(AnyCondition::from_config(&extra), Err(ConfigError::ArgumentCount)));
}

#[test]
fn condition_configs_join_with_operation() {
    let configs = vec![
        ConditionConfig { condition: ConditionType::Method, args: args(&["POST"]) },
        ConditionConfig { condition: ConditionType::Path, args: args(&["^/api"]) },
    ];
    let and = AnyCondition::join_configs(ConditionOperation::And, &configs).unwrap();
    assert!(and.matches(&request("POST", "/api")));
    assert!(!and.matches(&request("GET", "/api")));
    let or = AnyCondition::join_configs(ConditionOperation::Or, &configs).unwrap();
    assert!(or.matches(&request("GET", "/api")));
    assert!(!or.matches(&request("GET", "/home")));
    assert!(matches!(
        AnyCondition::join_configs(ConditionOperation::And, &vec![]),
        Err(ConfigError::Empty)
    ));
    assert_eq!(ConditionOperation::default(), ConditionOperation::And);
}

#[test]
fn rewriter_config_builds_and_checks() {
    let path = RewriterConfig { rewriter_type: RewriterType::Path, args: args(&["^/a", "/b"]) };
    let w = AnyRewriter::from_config(&path).unwrap();
    assert_eq!(w.rewrite(request("GET", "/a")).unwrap().path(), "/b");
    let method = RewriterConfig { rewriter_type: RewriterType::Method, args: args(&["B@D"]) };
    assert!(matches!(AnyRewriter::from_config(&method), Err(ConfigError::InvalidMethod(_))));
    let header = RewriterConfig { rewriter_type: RewriterType::Header, args: args(&["X", "a"]) };
    assert!(matches!(AnyRewriter::from_config(&header), Err(ConfigError::ArgumentCount)));
    let href = RewriterConfig { rewriter_type: RewriterType::Href, args: args(&["[", "x"]) };
    assert!(matches!(AnyRewriter::from_config(&href), Err(ConfigError::InvalidPattern(_))));
    assert!(matches!(AnyRewriter::chain_configs(&vec![]), Err(ConfigError::Empty)));
}

#[test]
fn rules_chain_and_gate() {
    let rules = vec![
        ConditionalRewriterConfig {
            operation: None,
            conditions: Some(vec![ConditionConfig {
                condition: ConditionType::Method,
                args: args(&["POST"]),
            }]),
            rewriters: vec![RewriterConfig {
                rewriter_type: RewriterType::Path,
                args: args(&["^/form/", "/submit/"]),
            }],
        },
        ConditionalRewriterConfig {
            operation: Some(ConditionOperation::Or),
            conditions: None,
            rewriters: vec![
                RewriterConfig { rewriter_type: RewriterType::Method, args: args(&["PUT"]) },
                RewriterConfig {
                    rewriter_type: RewriterType::Header,
                    args: args(&["X-Seen", ".*", "yes"]),
                },
            ],
        },
    ];
    let w = AnyRewriter::from_rules(&rules).unwrap();

    let mut post = request("POST", "/form/contact");
    post.add_header("X-Seen", "no");
    let result = w.rewrite(post).unwrap();
    assert_eq!(result.path(), "/submit/contact");
    assert_eq!(result.method(), "PUT");
    assert_eq!(result.header("x-seen").unwrap(), "yes");

    let result = w.rewrite(request("GET", "/form/contact")).unwrap();
    assert_eq!(result.path(), "/form/contact");
    assert_eq!(result.method(), "PUT");

    assert!(matches!(AnyRewriter::from_rules(&vec![]), Err(ConfigError::Empty)));
    let no_rewriters = vec![ConditionalRewriterConfig {
        operation: None,
        conditions: None,
        rewriters: vec![],
    }];
    assert!(matches!(AnyRewriter::from_rules(&no_rewriters), Err(ConfigError::Empty)));
}

#[test]
fn header_rewrite_drops_later_values_of_the_name() {
    let rewriter = HeaderRewriter::new("X-Tag", "one", "uno").unwrap();
    let mut req = request("GET", "/");
    req.add_header("X-Tag", "one");
    req.add_header("Keep", "k");
    req.add_header("x-tag", "two");
    let result = rewriter.rewrite(req).unwrap();
    assert_eq!(result.parts.headers.len(), 2);
    assert_eq!(result.header("x-tag").unwrap(), "uno");
    assert_eq!(result.parts.headers[1].name, "Keep");
}

#[test]
fn header_rewriter_refuses_invalid_names() {
    assert!(matches!(HeaderRewriter::new("", ".*", "x"), Err(HeaderRewriterError::InvalidName)));
    assert!(matches!(
        HeaderRewriter::new("Bad Name", ".*", "x"),
        Err(HeaderRewriterError::InvalidName)
    ));
    assert!(matches!(
        HeaderRewriter::new("Bad:Name", "(", "x"),
        Err(HeaderRewriterError::InvalidName)
    ));
    assert!(HeaderRewriter::new("X-Good_Name", ".*", "x").is_ok());
    let config = RewriterConfig {
        rewriter_type: RewriterType::Header,
        args: args(&["bad name", ".*", "x"]),
    };
    assert!(matches!(AnyRewriter::from_config(&config), Err(ConfigError::InvalidHeaderName)));
}

#[test]
fn non_existence_negates_existence_under_a_root() {
    let exists = ExistenceCondition::new();
    let missing = NonExistenceCondition::new();
    for path in ["/", "/no-such-file-for-this-test.txt"] {
        let mut req = request("GET", path);
        req.set_document_root(DocumentRoot::new("/"));
        assert_eq!(missing.matches(&req), !exists.matches(&req));
    }
}

#[test]
fn existence_answer_decides_from_the_disk_report() {
    let mut req = request("GET", "/a.txt");
    assert!(!existence_answer(&req.parts, true, true));
    assert!(!existence_answer(&req.parts, false, false));
    req.set_document_root(DocumentRoot::new("/tmp/root"));
    assert!(existence_answer(&req.parts, true, true));
    assert!(!existence_answer(&req.parts, false, true));
    assert!(existence_answer(&req.parts, false, false));
    assert!(!existence_answer(&req.parts, true, false));
    assert_eq!(existence_target(&req.parts).as_deref(), Some("/tmp/root/a.txt"));
}

#[test]
fn set_document_root_keeps_the_rest() {
    let mut req = request("POST", "/p?q=1");
    req.add_header("A", "b");
    req.set_document_root(DocumentRoot::new("/srv"));
    assert_eq!(req.method(), "POST");
    assert_eq!(req.path(), "/p");
    assert_eq!(req.query(), Some("q=1"));
    assert_eq!(req.header("a").unwrap(), "b");
    assert_eq!(req.body, b"payload".to_vec());
}
