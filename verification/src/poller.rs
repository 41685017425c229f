//! The token poller: asking the token endpoint whether the grant has
//! been approved, at the provider's cadence, until tokens arrive, a
//! terminal failure is reported, or the grant expires.

use vstd::prelude::*;

use crate::error::AuthError;
use crate::session::DeviceGrantSession;
use crate::session::TokenPair;

verus! {

/// The provider's code for "grant not yet approved, keep polling".
pub open spec fn spec_pending_code() -> Seq<char> {
    "authorization_pending"@
}

/// A token-endpoint response, reduced to the values the poller decides
/// on. The transport parses bodies and hands these in.
#[derive(Debug)]
pub enum TokenResponse {
    /// HTTP 200 with a well-formed token body.
    Granted(TokenPair),
    /// HTTP 400 with a well-formed error body carrying the provider's
    /// error code.
    Denied { error_code: String },
    /// Any other status.
    Other { status: u16, url: String },
}

/// The poller's states.
#[derive(Clone, Copy, Debug, PartialEq, Eq, Structural)]
pub enum PollState {
    Polling,
    Succeeded,
    FailedFatal,
    TimedOut,
}

/// What one iteration decides.
#[derive(Debug)]
pub enum PollVerdict {
    /// The grant was approved: these tokens are to be stored.
    Accepted(TokenPair),
    /// Still pending: sleep exactly this many seconds, then poll again.
    Pending { sleep_secs: u64 },
    /// A terminal failure.
    Failed(AuthError),
}

/// The transition one response causes from the polling state: a grant
/// succeeds with exactly the granted pair; a denial with the pending code
/// stays polling and asks for a sleep of exactly the grant's interval;
/// any other denial, and any other status, is fatal.
pub open spec fn spec_response_transition(interval: u64, resp: TokenResponse) -> (
    PollState,
    PollVerdict,
) {
    match resp {
        TokenResponse::Granted(pair) => (PollState::Succeeded, PollVerdict::Accepted(pair)),
        TokenResponse::Denied { error_code } => if error_code@ == spec_pending_code() {
            (PollState::Polling, PollVerdict::Pending { sleep_secs: interval })
        } else {
            (
                PollState::FailedFatal,
                PollVerdict::Failed(
                    AuthError::Http { status: Some(400u16), message: error_code },
                ),
            )
        },
        TokenResponse::Other { status, url } => (
            PollState::FailedFatal,
            PollVerdict::Failed(AuthError::UnexpectedStatus(status, url)),
        ),
    }
}

/// The whole polling loop, mathematically: starting at `now`, each
/// iteration first times out if the deadline has passed, otherwise
/// consumes the next response; a pending response advances the clock by
/// the interval. A run that exhausts its responses is still polling.
pub open spec fn spec_poll_loop(
    interval: u64,
    deadline: u64,
    now: int,
    resps: Seq<TokenResponse>,
) -> PollState
    decreases resps.len(),
{
    if now >= deadline {
        PollState::TimedOut
    } else if resps.len() == 0 {
        PollState::Polling
    } else {
        let stepped = spec_response_transition(interval, resps.first()).0;
        if stepped is Polling {
            spec_poll_loop(interval, deadline, now + interval, resps.drop_first())
        } else {
            stepped
        }
    }
}

/// A denial carrying the pending code.
pub open spec fn is_pending_denial(resp: TokenResponse) -> bool {
    resp matches TokenResponse::Denied { error_code } && error_code@ == spec_pending_code()
}

/// Every response in the sequence is a denial carrying the pending code.
pub open spec fn all_pending(resps: Seq<TokenResponse>) -> bool {
    forall|i: int| 0 <= i < resps.len() ==> is_pending_denial(#[trigger] resps[i])
}

/// The poller: entered immediately after the approval step succeeds, and
/// driven by the transport one response at a time.
#[derive(Debug)]
pub struct TokenPoller {
    /// Where the poller stands.
    pub state: PollState,
    /// Absolute time, in seconds, at which the grant expires.
    pub deadline: u64,
    /// Seconds to sleep between polls, exactly as the grant reported.
    pub interval: u64,
}

impl TokenPoller {
    /// Start polling a grant at `now`: the deadline is the grant's
    /// expiry window from now, and the cadence is the grant's interval.
    pub fn start(now: u64, session: &DeviceGrantSession) -> (r: TokenPoller)
        requires
            now + session.expires_in <= u64::MAX,
        ensures
            r.state is Polling,
            r.deadline == now + session.expires_in,
            r.interval == session.interval,
    {
        TokenPoller {
            state: PollState::Polling,
            deadline: now + session.expires_in,
            interval: session.interval,
        }
    }

    /// The check at the top of each iteration: once `now` reaches the
    /// deadline the flow has timed out and reports exactly that.
    pub fn check_expiry(&mut self, now: u64) -> (r: Option<AuthError>)
        requires
            old(self).state is Polling,
        ensures
            final(self).deadline == old(self).deadline,
            final(self).interval == old(self).interval,
            now < old(self).deadline ==> final(self).state is Polling && r is None,
            now >= old(self).deadline ==> final(self).state is TimedOut && r == Some(
                AuthError::Timeout,
            ),
    {
        if now < self.deadline {
            None
        } else {
            self.state = PollState::TimedOut;
            Some(AuthError::Timeout)
        }
    }

    /// Consume one token-endpoint response, exactly as the protocol
    /// prescribes: 200 succeeds, 400 with the pending code keeps polling
    /// and asks for a sleep of the grant's interval, anything else is
    /// fatal.
    pub fn on_response(&mut self, resp: TokenResponse) -> (r: PollVerdict)
        requires
            old(self).state is Polling,
        ensures
            final(self).deadline == old(self).deadline,
            final(self).interval == old(self).interval,
            (final(self).state, r) == spec_response_transition(old(self).interval, resp),
    {
        match resp {
            TokenResponse::Granted(pair) => {
                self.state = PollState::Succeeded;
                PollVerdict::Accepted(pair)
            },
            TokenResponse::Denied { error_code } => {
                if crate::redirect::str_eq(error_code.as_str(), "authorization_pending") {
                    PollVerdict::Pending { sleep_secs: self.interval }
                } else {
                    self.state = PollState::FailedFatal;
                    PollVerdict::Failed(
                        AuthError::Http { status: Some(400), message: error_code },
                    )
                }
            },
            TokenResponse::Other { status, url } => {
                self.state = PollState::FailedFatal;
                PollVerdict::Failed(AuthError::UnexpectedStatus(status, url))
            },
        }
    }
}

/// A run of pending denials, each answered while the grant is still
/// valid, keeps the poller polling — every denial asking for a sleep of
/// exactly the grant's interval — and a grant that follows them ends the
/// run succeeded.
pub proof fn lemma_pending_run_succeeds(
    interval: u64,
    deadline: u64,
    now: int,
    pendings: Seq<TokenResponse>,
    pair: TokenPair,
)
    requires
        all_pending(pendings),
        deadline - now > pendings.len() * interval,
    ensures
        forall|i: int|
            0 <= i < pendings.len() ==> spec_response_transition(interval, #[trigger] pendings[i])
                == (PollState::Polling, PollVerdict::Pending { sleep_secs: interval }),
        spec_poll_loop(
            interval,
            deadline,
            now,
            pendings.push(TokenResponse::Granted(pair)),
        ) is Succeeded,
    decreases pendings.len(),
{
    let run = pendings.push(TokenResponse::Granted(pair));
    if pendings.len() == 0 {
        assert(run.first() == TokenResponse::Granted(pair));
    } else {
        let rest = pendings.drop_first();
        assert(all_pending(rest)) by {
            assert(forall|i: int| 0 <= i < rest.len() ==> rest[i] == pendings[i + 1]);
        }
        assert(deadline - (now + interval) > rest.len() * interval) by (nonlinear_arith)
            requires
                deadline - now > pendings.len() * interval,
                rest.len() == pendings.len() - 1,
                pendings.len() >= 1,
                interval >= 0,
        ;
        lemma_pending_run_succeeds(interval, deadline, now + interval, rest, pair);
        assert(run.first() == pendings[0]);
        assert(run.drop_first() =~= rest.push(TokenResponse::Granted(pair)));
        assert(forall|i: int|
            0 <= i < pendings.len() ==> spec_response_transition(interval, #[trigger] pendings[i])
                == (PollState::Polling, PollVerdict::Pending { sleep_secs: interval })) by {
            assert(forall|i: int| 1 <= i < pendings.len() ==> pendings[i] == rest[i - 1]);
        }
    }
}

/// A denial with any code other than the pending one ends the run at
/// once, fatally: the responses that would have followed are never
/// consumed.
pub proof fn lemma_fatal_denial_stops(
    interval: u64,
    deadline: u64,
    now: int,
    resp: TokenResponse,
    rest: Seq<TokenResponse>,
)
    requires
        now < deadline,
        resp matches TokenResponse::Denied { error_code } && error_code@ != spec_pending_code(),
    ensures
        spec_poll_loop(interval, deadline, now, seq![resp] + rest) is FailedFatal,
{
    assert((seq![resp] + rest).first() == resp);
}

/// With only pending denials the grant is never issued: as soon as enough
/// of them have been consumed for the clock to reach the grant's expiry,
/// the run ends timed out.
pub proof fn lemma_only_pending_times_out(
    interval: u64,
    deadline: u64,
    now: int,
    resps: Seq<TokenResponse>,
)
    requires
        all_pending(resps),
        interval >= 1,
        resps.len() >= deadline - now,
    ensures
        spec_poll_loop(interval, deadline, now, resps) is TimedOut,
    decreases resps.len(),
{
    if now >= deadline {
    } else {
        let rest = resps.drop_first();
        assert(all_pending(rest)) by {
            assert(forall|i: int| 0 <= i < rest.len() ==> rest[i] == resps[i + 1]);
        }
        lemma_only_pending_times_out(interval, deadline, now + interval, rest);
    }
}

} // verus!
