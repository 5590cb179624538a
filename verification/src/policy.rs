//! Redirect-following strategies and the per-hop decision they induce.
//!
//! An override applied to a pooled client persists on that client until a
//! later fetch overrides it again: there is no implicit reset after a fetch.

use vstd::prelude::*;

verus! {

/// A redirect-following strategy: never follow, or follow at most `max` hops.
#[derive(Debug, Clone, Copy, PartialEq, Eq, Structural)]
pub enum RedirectPolicy {
    NoFollow,
    Limited { max: usize },
}

/// What to do with one redirect response, given the current policy and the
/// number of hops already taken.
#[derive(Debug, Clone, Copy, PartialEq, Eq, Structural)]
pub enum HopDecision {
    /// Hand the redirect response itself to the caller, as the final response.
    ReturnAsIs,
    /// Re-issue the request to the redirect target.
    Follow,
    /// The configured hop ceiling is crossed: fail with an error.
    LimitExceeded,
}

/// The per-hop redirect decision: a policy of `NoFollow` always returns the
/// redirect response as-is; `Limited { max }` follows while fewer than `max`
/// hops were taken and fails once the ceiling is crossed.
pub open spec fn spec_decide(p: RedirectPolicy, hops: nat) -> HopDecision {
    match p {
        RedirectPolicy::NoFollow => HopDecision::ReturnAsIs,
        RedirectPolicy::Limited { max } => if hops < max {
            HopDecision::Follow
        } else {
            HopDecision::LimitExceeded
        },
    }
}

impl RedirectPolicy {
    /// Decides what one redirect response gets: returned as-is, followed, or
    /// refused because the hop ceiling is crossed.
    pub fn decide(&self, hops: usize) -> (d: HopDecision)
        ensures
            d == spec_decide(*self, hops as nat),
    {
        match self {
            RedirectPolicy::NoFollow => HopDecision::ReturnAsIs,
            RedirectPolicy::Limited { max } => {
                if hops < *max {
                    HopDecision::Follow
                } else {
                    HopDecision::LimitExceeded
                }
            },
        }
    }
}

impl Default for RedirectPolicy {
    /// The default strategy: follow a bounded number of hops, as common HTTP
    /// clients do.
    fn default() -> (p: RedirectPolicy)
        ensures
            p == (RedirectPolicy::Limited { max: 10 }),
    {
        RedirectPolicy::Limited { max: 10 }
    }
}

/// A response status in the redirection range.
pub open spec fn spec_is_redirect_status(status: u16) -> bool {
    300 <= status <= 399
}

/// Whether a status code lies in the redirection range (300 to 399).
pub fn is_redirect_status(status: u16) -> (r: bool)
    ensures
        r == spec_is_redirect_status(status),
{
    300 <= status && status <= 399
}

/// A policy of `NoFollow` returns every redirect response as-is, whatever the
/// hop count.
pub proof fn lemma_no_follow_returns_as_is(hops: nat)
    ensures
        spec_decide(RedirectPolicy::NoFollow, hops) == HopDecision::ReturnAsIs,
{
}

/// A ceiling of zero hops refuses the very first redirect.
pub proof fn lemma_zero_ceiling_always_exceeded(hops: nat)
    ensures
        spec_decide(RedirectPolicy::Limited { max: 0 }, hops) == HopDecision::LimitExceeded,
{
}

} // verus!
