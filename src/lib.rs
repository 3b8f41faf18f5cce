//! A composable rule engine that inspects and transforms HTTP requests.
//!
//! Conditions decide whether a rule applies (by path, method, header or the
//! presence of a file under a document root); rewriters transform a request
//! (its path, method, a header value or the whole URI). Both compose into
//! owned trees: conditions by AND / OR, rewriters by sequencing and by gating
//! on a condition.
pub mod condition;
pub mod conditional_rewriter;
pub mod config;
pub mod document_root;
pub mod pattern;
pub mod request;
pub mod rewriter;

pub use condition::{
    Condition, ConditionExt, ExistenceCondition, GroupCondition, HeaderCondition, MethodCondition,
    NonExistenceCondition, PathCondition,
};
pub use conditional_rewriter::ConditionalRewriter;
pub use config::{
    AnyCondition, AnyRewriter, ConditionConfig, ConditionOperation, ConditionType,
    ConditionalRewriterConfig, ConfigError, RewriterConfig, RewriterType,
};
pub use document_root::{DocumentRoot, DocumentRootExt};
pub use pattern::Pattern;
pub use request::{Header, HeaderView, Parts, PartsView, Request, Uri, UriView};
pub use rewriter::{
    HeaderRewriter, HeaderRewriterError, HrefRewriter, MethodRewriter, PathRewriter, RewriteError,
    Rewriter, RewriterExt, SequenceRewriter,
};
