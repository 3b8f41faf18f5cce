//! Rule trees built from plain configuration records: a record names a kind
//! of condition or rewriter and its text arguments.
use vstd::prelude::*;

use crate::condition::{
    Condition, ExistenceCondition, HeaderCondition, MethodCondition, NonExistenceCondition,
    PathCondition,
};
use crate::pattern::regex_compiles;
use crate::request::{Parts, Request};
use crate::rewriter::{
    is_header_name, is_method_token, parts_of, HeaderRewriter, HeaderRewriterError, HrefRewriter,
    MethodRewriter, PathRewriter,
    RewriteError, Rewriter,
};

verus! {

/// How the conditions of a record are joined.
#[derive(Clone, Copy, Debug, PartialEq, Eq, Structural)]
pub enum ConditionOperation {
    And,
    Or,
}

impl Default for ConditionOperation {
    fn default() -> (r: ConditionOperation)
        ensures
            r == ConditionOperation::And,
    {
        ConditionOperation::And
    }
}

/// The kinds of condition a record can name.
#[derive(Clone, Copy, Debug, PartialEq, Eq, Structural)]
pub enum ConditionType {
    Path,
    Header,
    Method,
    Exists,
    NotExists,
}

/// A condition record: `path {pattern}`, `header {name, pattern}`,
/// `method {pattern}`, `exists {}` or `not_exists {}`.
#[derive(Debug)]
pub struct ConditionConfig {
    pub condition: ConditionType,
    pub args: Option<Vec<String>>,
}

/// The kinds of rewriter a record can name.
#[derive(Clone, Copy, Debug, PartialEq, Eq, Structural)]
pub enum RewriterType {
    Path,
    Header,
    Method,
    Href,
}

/// A rewriter record: `path {pattern, replacement}`,
/// `header {name, pattern, replacement}`, `method {method}` or
/// `href {pattern, replacement}`.
#[derive(Debug)]
pub struct RewriterConfig {
    pub rewriter_type: RewriterType,
    pub args: Option<Vec<String>>,
}

/// A rule: its rewriters run in sequence, gated by its conditions joined
/// with `operation` (AND where none is given); without conditions the
/// rewriters always run.
#[derive(Debug)]
pub struct ConditionalRewriterConfig {
    pub operation: Option<ConditionOperation>,
    pub conditions: Option<Vec<ConditionConfig>>,
    pub rewriters: Vec<RewriterConfig>,
}

/// Why a configuration could not be built.
#[derive(Debug)]
pub enum ConfigError {
    /// A record has the wrong number of arguments for its kind.
    ArgumentCount,
    /// A pattern argument is not a valid regular expression.
    InvalidPattern(regex::Error),
    /// A method argument is not a valid method name.
    InvalidMethod(RewriteError),
    /// A header name argument of a rewriter is not a valid header name.
    InvalidHeaderName,
    /// A list that needs at least one entry is empty.
    Empty,
}

/// The arguments of a record; none given counts as an empty list.
pub open spec fn args_of(args: Option<Vec<String>>) -> Seq<Seq<char>> {
    match args {
        Some(v) => v@.map_values(|s: String| s@),
        None => Seq::empty(),
    }
}

/// How many arguments a condition kind takes.
pub open spec fn condition_arity(t: ConditionType) -> nat {
    match t {
        ConditionType::Path => 1,
        ConditionType::Header => 2,
        ConditionType::Method => 1,
        ConditionType::Exists => 0,
        ConditionType::NotExists => 0,
    }
}

/// The pattern argument of a condition record, where its kind has one.
pub open spec fn condition_pattern(cfg: ConditionConfig) -> Option<Seq<char>> {
    match cfg.condition {
        ConditionType::Path => Some(args_of(cfg.args)[0]),
        ConditionType::Header => Some(args_of(cfg.args)[1]),
        ConditionType::Method => Some(args_of(cfg.args)[0]),
        _ => None,
    }
}

/// A condition record that can be built.
pub open spec fn condition_config_valid(cfg: ConditionConfig) -> bool {
    &&& args_of(cfg.args).len() == condition_arity(cfg.condition)
    &&& condition_pattern(cfg) matches Some(p) ==> regex_compiles(p)
}

/// A condition tree: the leaf conditions and their AND / OR joins.
pub enum AnyCondition {
    Path(PathCondition),
    Header(HeaderCondition),
    Method(MethodCondition),
    Exists(ExistenceCondition),
    NotExists(NonExistenceCondition),
    And(Box<AnyCondition>, Box<AnyCondition>),
    Or(Box<AnyCondition>, Box<AnyCondition>),
}

/// `c` is the leaf that `cfg` describes.
pub open spec fn condition_built_from(c: AnyCondition, cfg: ConditionConfig) -> bool {
    let a = args_of(cfg.args);
    match cfg.condition {
        ConditionType::Path => c matches AnyCondition::Path(p) && p.pattern() == a[0],
        ConditionType::Header => c matches AnyCondition::Header(h) && h.name() == a[0] && h.pattern()
            == a[1],
        ConditionType::Method => c matches AnyCondition::Method(m) && m.pattern() == a[0],
        ConditionType::Exists => c is Exists,
        ConditionType::NotExists => c is NotExists,
    }
}

/// `c` is the records `cfgs`, in order, joined from the left by `op`.
pub open spec fn conditions_joined(op: ConditionOperation, cfgs: Seq<ConditionConfig>, c: AnyCondition) -> bool
    decreases cfgs.len(),
{
    if cfgs.len() <= 1 {
        cfgs.len() == 1 && condition_built_from(c, cfgs[0])
    } else {
        match (op, c) {
            (ConditionOperation::And, AnyCondition::And(l, r)) => conditions_joined(
                op,
                cfgs.drop_last(),
                *l,
            ) && condition_built_from(*r, cfgs.last()),
            (ConditionOperation::Or, AnyCondition::Or(l, r)) => conditions_joined(
                op,
                cfgs.drop_last(),
                *l,
            ) && condition_built_from(*r, cfgs.last()),
            _ => false,
        }
    }
}

/// The results that a condition tree may give for `parts`.
pub open spec fn any_condition_admits(c: AnyCondition, parts: Parts, r: bool) -> bool
    decreases c,
{
    match c {
        AnyCondition::Path(p) => p.admits(parts, r),
        AnyCondition::Header(h) => h.admits(parts, r),
        AnyCondition::Method(m) => m.admits(parts, r),
        AnyCondition::Exists(e) => e.admits(parts, r),
        AnyCondition::NotExists(n) => n.admits(parts, r),
        AnyCondition::And(a, b) => if r {
            any_condition_admits(*a, parts, true) && any_condition_admits(*b, parts, true)
        } else {
            any_condition_admits(*a, parts, false) || any_condition_admits(*b, parts, false)
        },
        AnyCondition::Or(a, b) => if r {
            any_condition_admits(*a, parts, true) || any_condition_admits(*b, parts, true)
        } else {
            any_condition_admits(*a, parts, false) && any_condition_admits(*b, parts, false)
        },
    }
}

fn any_condition_matches<B>(c: &AnyCondition, request: &Request<B>) -> (r: bool)
    ensures
        any_condition_admits(*c, request.parts, r),
    decreases c,
{
    match c {
        AnyCondition::Path(p) => p.matches(request),
        AnyCondition::Header(h) => h.matches(request),
        AnyCondition::Method(m) => m.matches(request),
        AnyCondition::Exists(e) => e.matches(request),
        AnyCondition::NotExists(n) => n.matches(request),
        AnyCondition::And(a, b) => {
            let x = any_condition_matches(a, request);
            let y = any_condition_matches(b, request);
            x && y
        },
        AnyCondition::Or(a, b) => {
            let x = any_condition_matches(a, request);
            let y = any_condition_matches(b, request);
            x || y
        },
    }
}

impl Condition for AnyCondition {
    open spec fn accepts(&self, parts: Parts) -> bool {
        true
    }

    open spec fn admits(&self, parts: Parts, r: bool) -> bool {
        any_condition_admits(*self, parts, r)
    }

    fn matches<B>(&self, request: &Request<B>) -> (r: bool) {
        any_condition_matches(self, request)
    }
}

/// How many arguments a rewriter kind takes.
pub open spec fn rewriter_arity(t: RewriterType) -> nat {
    match t {
        RewriterType::Path => 2,
        RewriterType::Header => 3,
        RewriterType::Method => 1,
        RewriterType::Href => 2,
    }
}

/// A rewriter record that can be built: the right number of arguments, a
/// valid pattern, or a valid method name.
pub open spec fn rewriter_config_valid(cfg: RewriterConfig) -> bool {
    let a = args_of(cfg.args);
    &&& a.len() == rewriter_arity(cfg.rewriter_type)
    &&& match cfg.rewriter_type {
        RewriterType::Path => regex_compiles(a[0]),
        RewriterType::Header => is_header_name(a[0]) && regex_compiles(a[1]),
        RewriterType::Method => is_method_token(a[0]),
        RewriterType::Href => regex_compiles(a[0]),
    }
}

/// A rewriter tree: the leaf rewriters, sequences, and rewriters gated by a
/// condition tree.
pub enum AnyRewriter {
    Path(PathRewriter),
    Header(HeaderRewriter),
    Method(MethodRewriter),
    Href(HrefRewriter),
    Sequence(Box<AnyRewriter>, Box<AnyRewriter>),
    Conditional(Box<AnyRewriter>, AnyCondition),
}

/// `w` is the leaf that `cfg` describes.
pub open spec fn rewriter_built_from(w: AnyRewriter, cfg: RewriterConfig) -> bool {
    let a = args_of(cfg.args);
    match cfg.rewriter_type {
        RewriterType::Path => w matches AnyRewriter::Path(p) && p.pattern() == a[0] && p.replacement()
            == a[1],
        RewriterType::Header => w matches AnyRewriter::Header(h) && h.name() == a[0] && h.pattern()
            == a[1] && h.replacement() == a[2],
        RewriterType::Method => w matches AnyRewriter::Method(m) && m.method() == a[0],
        RewriterType::Href => w matches AnyRewriter::Href(h) && h.pattern() == a[0] && h.replacement()
            == a[1],
    }
}

/// `w` runs the records `cfgs` in order: a sequence that nests to the left.
pub open spec fn rewriters_chained(cfgs: Seq<RewriterConfig>, w: AnyRewriter) -> bool
    decreases cfgs.len(),
{
    if cfgs.len() <= 1 {
        cfgs.len() == 1 && rewriter_built_from(w, cfgs[0])
    } else {
        match w {
            AnyRewriter::Sequence(l, r) => rewriters_chained(cfgs.drop_last(), *l)
                && rewriter_built_from(*r, cfgs.last()),
            _ => false,
        }
    }
}

/// The conditions of a rule record; none given counts as an empty list.
pub open spec fn conditions_of(rule: ConditionalRewriterConfig) -> Seq<ConditionConfig> {
    match rule.conditions {
        Some(v) => v@,
        None => Seq::empty(),
    }
}

/// The operation of a rule record; AND where none is given.
pub open spec fn operation_of(rule: ConditionalRewriterConfig) -> ConditionOperation {
    match rule.operation {
        Some(op) => op,
        None => ConditionOperation::And,
    }
}

/// A rule record that can be built: at least one rewriter, and every record
/// in it valid.
pub open spec fn rule_config_valid(rule: ConditionalRewriterConfig) -> bool {
    &&& rule.rewriters.len() > 0
    &&& forall|i: int|
        0 <= i < rule.rewriters.len() ==> rewriter_config_valid(#[trigger] rule.rewriters@[i])
    &&& forall|i: int|
        0 <= i < conditions_of(rule).len() ==> condition_config_valid(
            #[trigger] conditions_of(rule)[i],
        )
}

/// `w` is the rule: its rewriters chained, gated by its conditions joined
/// with its operation where it has any.
pub open spec fn rule_built_from(w: AnyRewriter, rule: ConditionalRewriterConfig) -> bool {
    if conditions_of(rule).len() == 0 {
        rewriters_chained(rule.rewriters@, w)
    } else {
        w matches AnyRewriter::Conditional(inner, c) && rewriters_chained(rule.rewriters@, *inner)
            && conditions_joined(operation_of(rule), conditions_of(rule), c)
    }
}

/// `w` runs the rules `rules` in order.
pub open spec fn rules_chained(rules: Seq<ConditionalRewriterConfig>, w: AnyRewriter) -> bool
    decreases rules.len(),
{
    if rules.len() <= 1 {
        rules.len() == 1 && rule_built_from(w, rules[0])
    } else {
        match w {
            AnyRewriter::Sequence(l, r) => rules_chained(rules.drop_last(), *l) && rule_built_from(
                *r,
                rules.last(),
            ),
            _ => false,
        }
    }
}

/// The results that a rewriter tree may give, as a relation between the
/// parts it is handed and its result.
pub open spec fn rewriter_relation(w: AnyRewriter) -> spec_fn(Parts, Result<Parts, RewriteError>) -> bool
    decreases w,
{
    match w {
        AnyRewriter::Path(p) => |parts: Parts, r: Result<Parts, RewriteError>| p.admits(parts, r),
        AnyRewriter::Header(h) => |parts: Parts, r: Result<Parts, RewriteError>| h.admits(parts, r),
        AnyRewriter::Method(m) => |parts: Parts, r: Result<Parts, RewriteError>| m.admits(parts, r),
        AnyRewriter::Href(h) => |parts: Parts, r: Result<Parts, RewriteError>| h.admits(parts, r),
        AnyRewriter::Sequence(a, b) => {
            let first = rewriter_relation(*a);
            let second = rewriter_relation(*b);
            |parts: Parts, r: Result<Parts, RewriteError>|
                exists|mid: Result<Parts, RewriteError>|
                    #[trigger] first(parts, mid) && match mid {
                        Ok(p) => second(p, r),
                        Err(e) => r == Err::<Parts, RewriteError>(e),
                    }
        },
        AnyRewriter::Conditional(inner, c) => {
            let gated = rewriter_relation(*inner);
            |parts: Parts, r: Result<Parts, RewriteError>|
                {
                    ||| any_condition_admits(c, parts, true) && gated(parts, r)
                    ||| any_condition_admits(c, parts, false) && r == Ok::<Parts, RewriteError>(parts)
                }
        },
    }
}

/// The results that a rewriter tree may give for `parts`.
pub open spec fn any_rewriter_admits(w: AnyRewriter, parts: Parts, r: Result<Parts, RewriteError>) -> bool {
    rewriter_relation(w)(parts, r)
}

fn any_rewriter_rewrite<B>(w: &AnyRewriter, request: Request<B>) -> (r: Result<Request<B>, RewriteError>)
    ensures
        any_rewriter_admits(*w, request.parts, parts_of(r)),
        r matches Ok(q) ==> q.body == request.body,
    decreases w,
{
    match w {
        AnyRewriter::Path(p) => p.rewrite(request),
        AnyRewriter::Header(h) => h.rewrite(request),
        AnyRewriter::Method(m) => m.rewrite(request),
        AnyRewriter::Href(h) => h.rewrite(request),
        AnyRewriter::Sequence(a, b) => {
            let mid = any_rewriter_rewrite(a, request);
            match mid {
                Ok(q) => any_rewriter_rewrite(b, q),
                Err(e) => Err(e),
            }
        },
        AnyRewriter::Conditional(inner, c) => {
            if any_condition_matches(c, &request) {
                any_rewriter_rewrite(inner, request)
            } else {
                Ok(request)
            }
        },
    }
}

impl Rewriter for AnyRewriter {
    open spec fn accepts(&self, parts: Parts) -> bool {
        true
    }

    open spec fn admits(&self, parts: Parts, r: Result<Parts, RewriteError>) -> bool {
        any_rewriter_admits(*self, parts, r)
    }

    fn rewrite<B>(&self, request: Request<B>) -> (r: Result<Request<B>, RewriteError>) {
        any_rewriter_rewrite(self, request)
    }
}

fn text_arg(args: &Option<Vec<String>>, i: usize) -> (r: &str)
    requires
        i < args_of(*args).len(),
    ensures
        r@ == args_of(*args)[i as int],
{
    match args {
        Some(v) => v[i].as_str(),
        None => {
            assert(false);
            ""
        },
    }
}

fn arg_count(args: &Option<Vec<String>>) -> (r: usize)
    ensures
        r == args_of(*args).len(),
{
    match args {
        Some(v) => v.len(),
        None => 0,
    }
}

impl AnyCondition {
    /// Builds the condition that `config` describes.
    pub fn from_config(config: &ConditionConfig) -> (r: Result<AnyCondition, ConfigError>)
        ensures
            r is Ok <==> condition_config_valid(*config),
            r matches Ok(c) ==> condition_built_from(c, *config),
            r matches Err(e) ==> (e is ArgumentCount <==> args_of(config.args).len()
                != condition_arity(config.condition)),
            r matches Err(e) ==> (e is InvalidPattern <==> args_of(config.args).len()
                == condition_arity(config.condition)),
    {
        let n = arg_count(&config.args);
        match config.condition {
            ConditionType::Path => {
                if n != 1 {
                    return Err(ConfigError::ArgumentCount);
                }
                match PathCondition::new(text_arg(&config.args, 0)) {
                    Ok(c) => Ok(AnyCondition::Path(c)),
                    Err(e) => Err(ConfigError::InvalidPattern(e)),
                }
            },
            ConditionType::Header => {
                if n != 2 {
                    return Err(ConfigError::ArgumentCount);
                }
                match HeaderCondition::new(text_arg(&config.args, 0), text_arg(&config.args, 1)) {
                    Ok(c) => Ok(AnyCondition::Header(c)),
                    Err(e) => Err(ConfigError::InvalidPattern(e)),
                }
            },
            ConditionType::Method => {
                if n != 1 {
                    return Err(ConfigError::ArgumentCount);
                }
                match MethodCondition::new(text_arg(&config.args, 0)) {
                    Ok(c) => Ok(AnyCondition::Method(c)),
                    Err(e) => Err(ConfigError::InvalidPattern(e)),
                }
            },
            ConditionType::Exists => {
                if n != 0 {
                    return Err(ConfigError::ArgumentCount);
                }
                Ok(AnyCondition::Exists(ExistenceCondition::new()))
            },
            ConditionType::NotExists => {
                if n != 0 {
                    return Err(ConfigError::ArgumentCount);
                }
                Ok(AnyCondition::NotExists(NonExistenceCondition::new()))
            },
        }
    }

    /// Builds the conditions of `configs` and joins them, in order, with
    /// `operation`; fails when the list is empty or a record cannot be built.
    pub fn join_configs(operation: ConditionOperation, configs: &Vec<ConditionConfig>) -> (r: Result<
        AnyCondition,
        ConfigError,
    >)
        ensures
            r is Ok <==> configs.len() > 0 && forall|i: int|
                0 <= i < configs.len() ==> condition_config_valid(#[trigger] configs@[i]),
            r matches Ok(c) ==> conditions_joined(operation, configs@, c),
            r matches Err(e) ==> (e is Empty <==> configs.len() == 0),
    {
        if configs.len() == 0 {
            return Err(ConfigError::Empty);
        }
        let mut acc = match AnyCondition::from_config(&configs[0]) {
            Ok(c) => c,
            Err(e) => return Err(e),
        };
        proof {
            assert(configs@.subrange(0, 1)[0] == configs@[0]);
        }
        let mut i: usize = 1;
        while i < configs.len()
            invariant
                1 <= i <= configs.len(),
                forall|j: int| 0 <= j < i ==> condition_config_valid(#[trigger] configs@[j]),
                conditions_joined(operation, configs@.subrange(0, i as int), acc),
            decreases configs.len() - i,
        {
            let next = match AnyCondition::from_config(&configs[i]) {
                Ok(c) => c,
                Err(e) => return Err(e),
            };
            let ghost prev = acc;
            acc = match operation {
                ConditionOperation::And => AnyCondition::And(Box::new(acc), Box::new(next)),
                ConditionOperation::Or => AnyCondition::Or(Box::new(acc), Box::new(next)),
            };
            proof {
                let s = configs@.subrange(0, i + 1);
                assert(s.drop_last() =~= configs@.subrange(0, i as int));
                assert(s.last() == configs@[i as int]);
            }
            i += 1;
        }
        proof {
            assert(configs@.subrange(0, configs.len() as int) =~= configs@);
        }
        Ok(acc)
    }
}

impl AnyRewriter {
    /// Builds the rewriter that `config` describes.
    pub fn from_config(config: &RewriterConfig) -> (r: Result<AnyRewriter, ConfigError>)
        ensures
            r is Ok <==> rewriter_config_valid(*config),
            r matches Ok(w) ==> rewriter_built_from(w, *config),
            r matches Err(e) ==> (e is ArgumentCount <==> args_of(config.args).len()
                != rewriter_arity(config.rewriter_type)),
            r matches Err(e) ==> !(e is Empty),
            r matches Err(e) ==> (e is InvalidHeaderName <==> config.rewriter_type is Header
                && args_of(config.args).len() == 3 && !is_header_name(args_of(config.args)[0])),
    {
        let n = arg_count(&config.args);
        match config.rewriter_type {
            RewriterType::Path => {
                if n != 2 {
                    return Err(ConfigError::ArgumentCount);
                }
                match PathRewriter::new(text_arg(&config.args, 0), text_arg(&config.args, 1)) {
                    Ok(w) => Ok(AnyRewriter::Path(w)),
                    Err(e) => Err(ConfigError::InvalidPattern(e)),
                }
            },
            RewriterType::Header => {
                if n != 3 {
                    return Err(ConfigError::ArgumentCount);
                }
                match HeaderRewriter::new(
                    text_arg(&config.args, 0),
                    text_arg(&config.args, 1),
                    text_arg(&config.args, 2),
                ) {
                    Ok(w) => Ok(AnyRewriter::Header(w)),
                    Err(HeaderRewriterError::InvalidName) => Err(ConfigError::InvalidHeaderName),
                    Err(HeaderRewriterError::InvalidPattern(e)) => Err(ConfigError::InvalidPattern(e)),
                }
            },
            RewriterType::Method => {
                if n != 1 {
                    return Err(ConfigError::ArgumentCount);
                }
                match MethodRewriter::new(text_arg(&config.args, 0)) {
                    Ok(w) => Ok(AnyRewriter::Method(w)),
                    Err(e) => Err(ConfigError::InvalidMethod(e)),
                }
            },
            RewriterType::Href => {
                if n != 2 {
                    return Err(ConfigError::ArgumentCount);
                }
                match HrefRewriter::new(text_arg(&config.args, 0), text_arg(&config.args, 1)) {
                    Ok(w) => Ok(AnyRewriter::Href(w)),
                    Err(e) => Err(ConfigError::InvalidPattern(e)),
                }
            },
        }
    }

    /// Builds the rewriters of `configs` and chains them in order; fails when
    /// the list is empty or a record cannot be built.
    pub fn chain_configs(configs: &Vec<RewriterConfig>) -> (r: Result<AnyRewriter, ConfigError>)
        ensures
            r is Ok <==> configs.len() > 0 && forall|i: int|
                0 <= i < configs.len() ==> rewriter_config_valid(#[trigger] configs@[i]),
            r matches Ok(w) ==> rewriters_chained(configs@, w),
            r matches Err(e) ==> (e is Empty <==> configs.len() == 0),
    {
        if configs.len() == 0 {
            return Err(ConfigError::Empty);
        }
        let mut acc = match AnyRewriter::from_config(&configs[0]) {
            Ok(w) => w,
            Err(e) => return Err(e),
        };
        proof {
            assert(configs@.subrange(0, 1)[0] == configs@[0]);
        }
        let mut i: usize = 1;
        while i < configs.len()
            invariant
                1 <= i <= configs.len(),
                forall|j: int| 0 <= j < i ==> rewriter_config_valid(#[trigger] configs@[j]),
                rewriters_chained(configs@.subrange(0, i as int), acc),
            decreases configs.len() - i,
        {
            let next = match AnyRewriter::from_config(&configs[i]) {
                Ok(w) => w,
                Err(e) => return Err(e),
            };
            acc = AnyRewriter::Sequence(Box::new(acc), Box::new(next));
            proof {
                let s = configs@.subrange(0, i + 1);
                assert(s.drop_last() =~= configs@.subrange(0, i as int));
                assert(s.last() == configs@[i as int]);
            }
            i += 1;
        }
        proof {
            assert(configs@.subrange(0, configs.len() as int) =~= configs@);
        }
        Ok(acc)
    }

    /// Builds one rule: its rewriters chained, gated by its conditions
    /// joined with its operation (AND where none is given); a rule without
    /// conditions is not gated.
    pub fn from_rule(rule: &ConditionalRewriterConfig) -> (r: Result<AnyRewriter, ConfigError>)
        ensures
            r is Ok <==> rule_config_valid(*rule),
            r matches Ok(w) ==> rule_built_from(w, *rule),
            r matches Err(e) ==> (e is Empty <==> rule.rewriters.len() == 0),
    {
        let chain = match AnyRewriter::chain_configs(&rule.rewriters) {
            Ok(w) => w,
            Err(e) => return Err(e),
        };
        let op = match rule.operation {
            Some(op) => op,
            None => ConditionOperation::And,
        };
        match &rule.conditions {
            None => Ok(chain),
            Some(conditions) => {
                assert(conditions_of(*rule) == conditions@);
                if conditions.len() == 0 {
                    return Ok(chain);
                }
                match AnyCondition::join_configs(op, conditions) {
                    Ok(c) => Ok(AnyRewriter::Conditional(Box::new(chain), c)),
                    Err(e) => Err(e),
                }
            },
        }
    }

    /// Builds a list of rules, run one after another; fails when the list is
    /// empty or a rule cannot be built.
    pub fn from_rules(rules: &Vec<ConditionalRewriterConfig>) -> (r: Result<AnyRewriter, ConfigError>)
        ensures
            r is Ok <==> rules.len() > 0 && forall|i: int|
                0 <= i < rules.len() ==> rule_config_valid(#[trigger] rules@[i]),
            r matches Ok(w) ==> rules_chained(rules@, w),
    {
        if rules.len() == 0 {
            return Err(ConfigError::Empty);
        }
        let mut acc = match AnyRewriter::from_rule(&rules[0]) {
            Ok(w) => w,
            Err(e) => return Err(e),
        };
        proof {
            assert(rules@.subrange(0, 1)[0] == rules@[0]);
        }
        let mut i: usize = 1;
        while i < rules.len()
            invariant
                1 <= i <= rules.len(),
                forall|j: int| 0 <= j < i ==> rule_config_valid(#[trigger] rules@[j]),
                rules_chained(rules@.subrange(0, i as int), acc),
            decreases rules.len() - i,
        {
            let next = match AnyRewriter::from_rule(&rules[i]) {
                Ok(w) => w,
                Err(e) => return Err(e),
            };
            acc = AnyRewriter::Sequence(Box::new(acc), Box::new(next));
            proof {
                let s = rules@.subrange(0, i + 1);
                assert(s.drop_last() =~= rules@.subrange(0, i as int));
                assert(s.last() == rules@[i as int]);
            }
            i += 1;
        }
        proof {
            assert(rules@.subrange(0, rules.len() as int) =~= rules@);
        }
        Ok(acc)
    }
}

} // verus!
