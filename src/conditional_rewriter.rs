//! A rewriter that applies only where a condition holds.
use vstd::prelude::*;

use crate::condition::Condition;
use crate::request::{Parts, Request};
use crate::rewriter::{parts_of, RewriteError, Rewriter};

verus! {

/// Applies `rewriter` to requests that satisfy `condition`, judged before
/// the rewrite; other requests pass unchanged.
pub struct ConditionalRewriter<R, C> {
    pub rewriter: R,
    pub condition: C,
}

impl<R: Rewriter, C: Condition> ConditionalRewriter<R, C> {
    /// `rewriter`, gated by `condition`.
    pub fn new(rewriter: R, condition: C) -> (r: ConditionalRewriter<R, C>)
        ensures
            r.rewriter == rewriter,
            r.condition == condition,
    {
        ConditionalRewriter { rewriter, condition }
    }
}

impl<R: Rewriter, C: Condition> Rewriter for ConditionalRewriter<R, C> {
    open spec fn accepts(&self, parts: Parts) -> bool {
        self.condition.accepts(parts) && self.rewriter.accepts(parts)
    }

    /// The condition is asked once; where it answers `true` the result is
    /// the rewriter's, where it answers `false` the parts come back as they
    /// were.
    open spec fn admits(&self, parts: Parts, r: Result<Parts, RewriteError>) -> bool {
        ||| self.condition.admits(parts, true) && self.rewriter.admits(parts, r)
        ||| self.condition.admits(parts, false) && r == Ok::<Parts, RewriteError>(parts)
    }

    fn rewrite<B>(&self, request: Request<B>) -> (r: Result<Request<B>, RewriteError>) {
        let c = self.condition.matches(&request);
        if c {
            self.rewriter.rewrite(request)
        } else {
            Ok(request)
        }
    }
}

/// Gating on a condition that gives one answer on `parts`: on `false` the
/// parts come back unchanged, on `true` the result is the rewriter's.
pub proof fn conditional_is_gate<R: Rewriter, C: Condition>(
    rewriter: R,
    condition: C,
    parts: Parts,
    answer: bool,
)
    requires
        forall|v: bool| condition.admits(parts, v) <==> v == answer,
    ensures
        forall|r: Result<Parts, RewriteError>|
            (ConditionalRewriter { rewriter, condition }).admits(parts, r) <==> if answer {
                rewriter.admits(parts, r)
            } else {
                r == Ok::<Parts, RewriteError>(parts)
            },
{
}

} // verus!
