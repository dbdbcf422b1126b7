//! The life of one signed transaction in the broadcaster.
use vstd::prelude::*;

verus! {

/// Where a transaction stands. `Rejected`, `Succeeded` and `Failed` are final.
#[derive(Clone, Copy, Debug, PartialEq, Eq, Structural)]
pub enum TxState {
    Signed,
    Submitted,
    Succeeded,
    Failed,
    Rejected,
}

/// What the broadcaster learns about a transaction.
#[derive(Clone, Copy, Debug, PartialEq, Eq, Structural)]
pub enum TxEvent {
    /// The node accepted the raw transaction (`true`) or refused it.
    Submission(bool),
    /// Waiting for the receipt failed.
    ReceiptError,
    /// The transaction was dropped before a receipt came.
    Dropped,
    /// The receipt came, with its status field where it has one.
    Mined(Option<u64>),
}

impl TxState {
    pub open spec fn is_final(self) -> bool {
        self is Succeeded || self is Failed || self is Rejected
    }

    /// Whether the state is final.
    pub fn settled(&self) -> (r: bool)
        ensures
            r == self.is_final(),
    {
        match self {
            TxState::Succeeded | TxState::Failed | TxState::Rejected => true,
            _ => false,
        }
    }
}

/// The transition of the per-transaction state machine.
pub open spec fn next_state(s: TxState, e: TxEvent) -> TxState {
    match (s, e) {
        (TxState::Signed, TxEvent::Submission(true)) => TxState::Submitted,
        (TxState::Signed, TxEvent::Submission(false)) => TxState::Rejected,
        (TxState::Submitted, TxEvent::Mined(Some(1))) => TxState::Succeeded,
        (TxState::Submitted, TxEvent::Mined(_)) => TxState::Failed,
        (TxState::Submitted, TxEvent::ReceiptError) => TxState::Failed,
        (TxState::Submitted, TxEvent::Dropped) => TxState::Failed,
        _ => s,
    }
}

/// Applies one event: a refused submission is final; a receipt with status 1
/// is a success, any other receipt, a failed wait or a drop is a failure.
/// Final states never change, and events that do not fit the state are
/// ignored.
pub fn send_transaction(state: TxState, event: TxEvent) -> (r: TxState)
    ensures
        r == next_state(state, event),
{
    match (state, event) {
        (TxState::Signed, TxEvent::Submission(accepted)) => if accepted {
            TxState::Submitted
        } else {
            TxState::Rejected
        },
        (TxState::Submitted, TxEvent::Mined(status)) => match status {
            Some(v) => if v == 1 {
                TxState::Succeeded
            } else {
                TxState::Failed
            },
            None => TxState::Failed,
        },
        (TxState::Submitted, TxEvent::ReceiptError) => TxState::Failed,
        (TxState::Submitted, TxEvent::Dropped) => TxState::Failed,
        _ => state,
    }
}

/// Whether every broadcast has reached a final state.
pub fn all_settled(states: &Vec<TxState>) -> (r: bool)
    ensures
        r == forall|i: int| 0 <= i < states@.len() ==> (#[trigger] states@[i]).is_final(),
{
    let mut i: usize = 0;
    while i < states.len()
        invariant
            0 <= i <= states@.len(),
            forall|k: int| 0 <= k < i ==> (#[trigger] states@[k]).is_final(),
        decreases states@.len() - i,
    {
        if !states[i].settled() {
            return false;
        }
        i = i + 1;
    }
    true
}

} // verus!
