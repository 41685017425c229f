//! The token lifecycle: owning the current pair and its refresh deadline.

use vstd::prelude::*;

use crate::session::TokenPair;

verus! {

/// Default safety margin, in seconds, subtracted from a token's validity
/// so that a refresh happens before the server considers it expired.
pub const DEFAULT_REFRESH_MARGIN_SECS: u64 = 10;

/// The deadline derived when a pair is stored: receipt time plus the
/// pair's validity, minus the safety margin.
pub open spec fn spec_refresh_deadline(now: u64, expires_in: u64, margin: u64) -> int {
    now + expires_in - margin
}

/// Owns the current token pair and the instant by which it must be
/// refreshed. There is at most one pair at a time; `set_tokens` replaces
/// it as a whole and recomputes the deadline, never partially.
#[derive(Debug, Clone)]
pub struct TokenLifecycle {
    /// The current pair; empty strings until the first grant completes.
    pub tokens: TokenPair,
    /// Absolute time, in seconds, at which a refresh becomes due.
    pub refresh_by: u64,
    /// Safety margin in seconds; strictly positive and smaller than any
    /// validity the server reports.
    pub margin: u64,
}

impl TokenLifecycle {
    /// The margin is strictly positive, so the deadline always falls
    /// before the server-side expiry.
    pub open spec fn wf(self) -> bool {
        self.margin > 0
    }

    /// A fresh lifecycle: no usable tokens yet, and a refresh due at once.
    pub fn new() -> (r: TokenLifecycle)
        ensures
            r.wf(),
            r.tokens.access_token@ == Seq::<char>::empty(),
            r.tokens.refresh_token@ == Seq::<char>::empty(),
            r.tokens.expires_in == 0,
            r.refresh_by == 0,
            r.margin == DEFAULT_REFRESH_MARGIN_SECS,
    {
        TokenLifecycle {
            tokens: TokenPair { access_token: String::new(), refresh_token: String::new(), expires_in: 0 },
            refresh_by: 0,
            margin: DEFAULT_REFRESH_MARGIN_SECS,
        }
    }

    /// A fresh lifecycle with a caller-chosen safety margin.
    pub fn with_margin(margin: u64) -> (r: TokenLifecycle)
        requires
            margin > 0,
        ensures
            r.wf(),
            r.tokens.access_token@ == Seq::<char>::empty(),
            r.tokens.refresh_token@ == Seq::<char>::empty(),
            r.tokens.expires_in == 0,
            r.refresh_by == 0,
            r.margin == margin,
    {
        TokenLifecycle {
            tokens: TokenPair { access_token: String::new(), refresh_token: String::new(), expires_in: 0 },
            refresh_by: 0,
            margin,
        }
    }

    /// Store a pair received at `now` and recompute the refresh deadline.
    /// The pair replaces the previous one as a whole.
    pub fn set_tokens(&mut self, pair: TokenPair, now: u64)
        requires
            old(self).margin <= pair.expires_in,
            now + pair.expires_in - old(self).margin <= u64::MAX,
        ensures
            final(self).tokens == pair,
            final(self).refresh_by == spec_refresh_deadline(now, pair.expires_in, old(self).margin),
            final(self).margin == old(self).margin,
    {
        let deadline: u64 = now + (pair.expires_in - self.margin);
        self.tokens = pair;
        self.refresh_by = deadline;
    }

    /// Whether a refresh is due at `now`: a no-op is owed strictly before
    /// the deadline, and exactly one refresh call at or after it.
    pub fn needs_refresh(&self, now: u64) -> (r: bool)
        ensures
            r == (now >= self.refresh_by),
    {
        now >= self.refresh_by
    }
}

/// The refresh deadline is a function of the receipt time, the pair's
/// validity and the margin alone: deriving it twice from the same inputs
/// gives the same deadline, whatever else the two lifecycles held.
pub proof fn lemma_deadline_deterministic(
    a: TokenLifecycle,
    b: TokenLifecycle,
    now: u64,
    expires_in: u64,
)
    requires
        a.margin == b.margin,
        a.refresh_by == spec_refresh_deadline(now, expires_in, a.margin),
        b.refresh_by == spec_refresh_deadline(now, expires_in, b.margin),
    ensures
        a.refresh_by == b.refresh_by,
{
}

} // verus!
