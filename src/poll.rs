//! The fixed-delay retry discipline of the nonce query and the gas probe,
//! and the gas limit that the probe decides.
use vstd::prelude::*;
use crate::uint::Uint256;

verus! {

/// The wait between two attempts of a failing query, in milliseconds.
pub const RETRY_DELAY_MS: u64 = 100;

/// What the caller does after an attempt.
#[derive(Clone, Copy, Debug, PartialEq, Eq, Structural)]
pub enum PollAction {
    /// Wait this many milliseconds, then query again.
    RetryAfter(u64),
    /// Stop: the query returned this value.
    Finish(Uint256),
}

/// The action that follows one attempt's outcome.
pub open spec fn poll_action(outcome: Option<Uint256>) -> PollAction {
    match outcome {
        Some(v) => PollAction::Finish(v),
        None => PollAction::RetryAfter(RETRY_DELAY_MS),
    }
}

/// The actions taken on a run of attempt outcomes: one per attempt, up to and
/// including the first success; nothing is queried after it.
pub open spec fn poll_trace(outcomes: Seq<Option<Uint256>>) -> Seq<PollAction>
    decreases outcomes.len(),
{
    if outcomes.len() == 0 {
        seq![]
    } else if outcomes[0] is Some {
        seq![poll_action(outcomes[0])]
    } else {
        seq![poll_action(outcomes[0])] + poll_trace(outcomes.drop_first())
    }
}

/// The state of one retry loop: attempts made, and the value once a query
/// has succeeded.
#[derive(Clone, Copy, Debug)]
pub struct Poller {
    pub attempts: u64,
    pub result: Option<Uint256>,
}

impl Poller {
    pub fn new() -> (r: Poller)
        ensures
            r.attempts == 0,
            r.result is None,
    {
        Poller { attempts: 0, result: None }
    }

    /// Records one attempt's outcome and says what to do next: retry after
    /// the fixed delay on a failure, stop with the value on a success.
    pub fn observe(&mut self, outcome: Option<Uint256>) -> (r: PollAction)
        requires
            old(self).result is None,
            old(self).attempts < u64::MAX,
        ensures
            r == poll_action(outcome),
            final(self).attempts == old(self).attempts + 1,
            final(self).result == outcome,
    {
        self.attempts = self.attempts + 1;
        self.result = outcome;
        match outcome {
            Some(v) => PollAction::Finish(v),
            None => PollAction::RetryAfter(RETRY_DELAY_MS),
        }
    }
}

/// One step of the gas-availability probe: the outcome of an estimation
/// attempt goes in, the next action comes out.
pub fn wait_gas(prober: &mut Poller, estimate: Option<Uint256>) -> (r: PollAction)
    requires
        old(prober).result is None,
        old(prober).attempts < u64::MAX,
    ensures
        r == poll_action(estimate),
        final(prober).attempts == old(prober).attempts + 1,
        final(prober).result == estimate,
{
    prober.observe(estimate)
}

/// The gas limit of every transaction: the configured one, raised to the
/// estimate where the chain asks for more.
pub fn effective_gas_limit(configured: Uint256, estimate: Uint256) -> (r: Uint256)
    ensures
        r.value() == if configured.value() < estimate.value() { estimate.value() } else { configured.value() },
{
    configured.max(&estimate)
}

/// The text to report for a failed query: the JSON-RPC error message where
/// there is one, else the error's own text.
pub fn upstream_error_text(rpc_message: Option<String>, generic: String) -> (r: String)
    ensures
        r@ == match rpc_message {
            Some(m) => m@,
            None => generic@,
        },
{
    match rpc_message {
        Some(m) => m,
        None => generic,
    }
}

} // verus!
