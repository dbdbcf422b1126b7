//! Properties of the pipeline as a whole, proved over the contracts of its
//! parts.
use vstd::prelude::*;
use crate::broadcast::{next_state, TxEvent, TxState};
use crate::builder::{built_pairs, buildable, claim_view, flatten_pairs, transfer_view};
use crate::keystore::{increasing_below, kept_indices, select, unique_addresses, with_balances};
use crate::poll::{poll_action, poll_trace, PollAction, RETRY_DELAY_MS};
use crate::types::{Contracts, TransactionView, TxParams};
use crate::uint::Uint256;
use crate::wallet::UserWallet;

verus! {

/// The query at a position found a nonzero balance.
pub open spec fn positive_at(rs: Seq<Option<Uint256>>, i: int) -> bool {
    match rs[i] {
        Some(b) => b.value() > 0,
        None => false,
    }
}

/// The accounts that go on to building: the working set of the balance
/// query, read from the registry as the query left it.
pub open spec fn working_set(ws: Seq<UserWallet>, rs: Seq<Option<Uint256>>) -> Seq<UserWallet> {
    select(with_balances(ws, rs), kept_indices(rs))
}

/// The working set holds, in increasing order, exactly the positions whose
/// query found a nonzero balance.
pub proof fn lemma_kept_indices(rs: Seq<Option<Uint256>>)
    requires
        rs.len() <= usize::MAX,
    ensures
        increasing_below(kept_indices(rs), rs.len()),
        forall|j: int| 0 <= j < kept_indices(rs).len() ==> positive_at(rs, #[trigger] kept_indices(rs)[j] as int),
        forall|i: int| 0 <= i < rs.len() && positive_at(rs, i) ==> kept_indices(rs).contains(i as usize),
    decreases rs.len(),
{
    if rs.len() > 0 {
        let d = rs.drop_last();
        lemma_kept_indices(d);
        let prev = kept_indices(d);
        let k = kept_indices(rs);
        assert forall|j: int| 0 <= j < prev.len() implies positive_at(rs, #[trigger] prev[j] as int) by {
            assert(positive_at(d, prev[j] as int));
            assert(rs[prev[j] as int] == d[prev[j] as int]);
        }
        if positive_at(rs, rs.len() - 1) {
            assert(k == prev.push((rs.len() - 1) as usize));
            assert forall|j: int| 0 <= j < k.len() implies positive_at(rs, #[trigger] k[j] as int) by {
                if j < prev.len() {
                    assert(k[j] == prev[j]);
                }
            }
        } else {
            assert(k == prev);
        }
        assert forall|i: int| 0 <= i < rs.len() && positive_at(rs, i) implies k.contains(i as usize) by {
            if i < rs.len() - 1 {
                assert(rs[i] == d[i]);
                assert(positive_at(d, i));
                let m = choose|m: int| 0 <= m < prev.len() && prev[m] == i as usize;
                assert(k[m] == prev[m]);
            } else {
                assert(k.last() == i as usize);
            }
        }
    }
}

/// An account whose balance query failed or returned zero is not in the
/// working set, so no transaction pair is ever built for it, and every
/// account of the working set has a positive balance.
pub proof fn lemma_zero_balance_never_built(
    ws: Seq<UserWallet>,
    rs: Seq<Option<Uint256>>,
    i: int,
    c: Contracts,
    p: TxParams,
)
    requires
        unique_addresses(ws),
        rs.len() == ws.len(),
        ws.len() <= usize::MAX,
        0 <= i < ws.len(),
        !positive_at(rs, i),
    ensures
        forall|k: int| 0 <= k < working_set(ws, rs).len() ==> (#[trigger] working_set(ws, rs)[k]).balance.value() > 0,
        forall|k: int| 0 <= k < working_set(ws, rs).len() ==> (#[trigger] working_set(ws, rs)[k]).address.bytes@ != ws[i].address.bytes@,
        forall|k: int| 0 <= k < built_pairs(working_set(ws, rs), c, p).len() ==> {
            &&& (#[trigger] built_pairs(working_set(ws, rs), c, p)[k]).0.from.bytes@ != ws[i].address.bytes@
            &&& built_pairs(working_set(ws, rs), c, p)[k].1.from.bytes@ != ws[i].address.bytes@
        },
{
    let set = working_set(ws, rs);
    let kept = kept_indices(rs);
    lemma_kept_indices(rs);
    assert forall|k: int| 0 <= k < set.len() implies (#[trigger] set[k]).balance.value() > 0
        && set[k].address.bytes@ != ws[i].address.bytes@ by {
        let x = kept[k] as int;
        assert(positive_at(rs, x));
        assert(set[k] == with_balances(ws, rs)[x]);
        assert(x != i);
    }
    assert forall|k: int| 0 <= k < built_pairs(set, c, p).len() implies {
        &&& (#[trigger] built_pairs(set, c, p)[k]).0.from.bytes@ != ws[i].address.bytes@
        &&& built_pairs(set, c, p)[k].1.from.bytes@ != ws[i].address.bytes@
    } by {
        lemma_built_from(set, c, p, k);
    }
}

/// Of two accounts, one whose balance query fails and one whose query finds a
/// nonzero balance, only the second goes on, and exactly one pair is built:
/// its claim and its transfer of that balance.
pub proof fn lemma_failed_query_builds_nothing(ws: Seq<UserWallet>, b: Uint256, c: Contracts, p: TxParams)
    requires
        ws.len() == 2,
        b.value() > 0,
        buildable(ws[1]),
    ensures
        kept_indices(seq![None, Some(b)]) == seq![1usize],
        built_pairs(working_set(ws, seq![None, Some(b)]), c, p)
            == seq![(claim_view(ws[1].with_balance(b), c, p), transfer_view(ws[1].with_balance(b), c, p))],
{
    let rs: Seq<Option<Uint256>> = seq![None, Some(b)];
    let r1 = rs.drop_last();
    let r0 = r1.drop_last();
    assert(r0 =~= Seq::<Option<Uint256>>::empty());
    assert(kept_indices(r0) == Seq::<usize>::empty());
    assert(r1.last() == None::<Uint256>);
    assert(kept_indices(r1) == kept_indices(r0));
    assert(kept_indices(rs) =~= seq![1usize]);
    let set = working_set(ws, rs);
    let w = ws[1].with_balance(b);
    assert(set =~= seq![w]);
    assert(set.drop_last() =~= Seq::<UserWallet>::empty());
    assert(built_pairs(set.drop_last(), c, p) == Seq::<(TransactionView, TransactionView)>::empty());
    assert(buildable(set.last()));
    assert(built_pairs(set, c, p) =~= seq![(claim_view(w, c, p), transfer_view(w, c, p))]);
}

/// Three accounts whose queries find zero, `x` and `y` (both nonzero): the
/// last two go on, in order, with those balances, and two pairs, four
/// transactions, are built.
pub proof fn lemma_three_accounts(ws: Seq<UserWallet>, z: Uint256, x: Uint256, y: Uint256, c: Contracts, p: TxParams)
    requires
        ws.len() == 3,
        z.value() == 0,
        x.value() > 0,
        y.value() > 0,
        buildable(ws[1]),
        buildable(ws[2]),
    ensures
        kept_indices(seq![Some(z), Some(x), Some(y)]) == seq![1usize, 2usize],
        working_set(ws, seq![Some(z), Some(x), Some(y)]) == seq![ws[1].with_balance(x), ws[2].with_balance(y)],
        built_pairs(working_set(ws, seq![Some(z), Some(x), Some(y)]), c, p).len() == 2,
        flatten_pairs(built_pairs(working_set(ws, seq![Some(z), Some(x), Some(y)]), c, p)).len() == 4,
{
    let rs: Seq<Option<Uint256>> = seq![Some(z), Some(x), Some(y)];
    let r2 = rs.drop_last();
    let r1 = r2.drop_last();
    let r0 = r1.drop_last();
    assert(r0 =~= Seq::<Option<Uint256>>::empty());
    assert(kept_indices(r0) == Seq::<usize>::empty());
    assert(r1.last() == Some(z));
    assert(kept_indices(r1) == kept_indices(r0));
    assert(r2.last() == Some(x));
    assert(kept_indices(r2) =~= seq![1usize]);
    assert(rs.last() == Some(y));
    assert(kept_indices(rs) =~= seq![1usize, 2usize]);
    let set = working_set(ws, rs);
    assert(set =~= seq![ws[1].with_balance(x), ws[2].with_balance(y)]);
    let s1 = set.drop_last();
    let s0 = s1.drop_last();
    assert(s0 =~= Seq::<UserWallet>::empty());
    assert(built_pairs(s0, c, p) == Seq::<(TransactionView, TransactionView)>::empty());
    assert(buildable(s1.last()));
    assert(built_pairs(s1, c, p).len() == 1);
    assert(buildable(set.last()));
    let bp = built_pairs(set, c, p);
    assert(bp.len() == 2);
    lemma_flatten_pairs(bp);
}

/// The transactions of the pairs, in order: pair `i` gives positions `2i`
/// (its claim) and `2i + 1` (its transfer).
pub proof fn lemma_flatten_pairs(ps: Seq<(TransactionView, TransactionView)>)
    ensures
        flatten_pairs(ps).len() == 2 * ps.len(),
        forall|i: int| 0 <= i < ps.len() ==> flatten_pairs(ps)[2 * i] == (#[trigger] ps[i]).0
            && flatten_pairs(ps)[2 * i + 1] == ps[i].1,
    decreases ps.len(),
{
    if ps.len() > 0 {
        lemma_flatten_pairs(ps.drop_last());
        assert forall|i: int| 0 <= i < ps.len() implies flatten_pairs(ps)[2 * i] == (#[trigger] ps[i]).0
            && flatten_pairs(ps)[2 * i + 1] == ps[i].1 by {
            if i < ps.len() - 1 {
                assert(ps[i] == ps.drop_last()[i]);
            }
        }
    }
}

/// In the transactions handed to signing, each claim at position `2i` is
/// followed by the transfer of the same account at `2i + 1`, one nonce
/// later, with the same gas limit and gas price.
pub proof fn lemma_flattened_nonces(ws: Seq<UserWallet>, c: Contracts, p: TxParams, i: int)
    requires
        0 <= i < built_pairs(ws, c, p).len(),
    ensures
        ({
            let txs = flatten_pairs(built_pairs(ws, c, p));
            &&& txs.len() == 2 * built_pairs(ws, c, p).len()
            &&& txs[2 * i + 1].nonce == txs[2 * i].nonce + 1
            &&& txs[2 * i + 1].from == txs[2 * i].from
            &&& txs[2 * i + 1].gas == txs[2 * i].gas
            &&& txs[2 * i + 1].gas_price == txs[2 * i].gas_price
        }),
{
    lemma_flatten_pairs(built_pairs(ws, c, p));
    lemma_pair_invariant(ws, c, p, i);
}

/// Each built pair is the claim and transfer of one of the input accounts.
pub proof fn lemma_built_from(ws: Seq<UserWallet>, c: Contracts, p: TxParams, k: int)
    requires
        0 <= k < built_pairs(ws, c, p).len(),
    ensures
        exists|j: int| 0 <= j < ws.len() && buildable(#[trigger] ws[j])
            && built_pairs(ws, c, p)[k] == (claim_view(ws[j], c, p), transfer_view(ws[j], c, p)),
    decreases ws.len(),
{
    let prev = built_pairs(ws.drop_last(), c, p);
    if k < prev.len() {
        lemma_built_from(ws.drop_last(), c, p, k);
        let j = choose|j: int| 0 <= j < ws.drop_last().len() && buildable(#[trigger] ws.drop_last()[j])
            && prev[k] == (claim_view(ws.drop_last()[j], c, p), transfer_view(ws.drop_last()[j], c, p));
        assert(ws[j] == ws.drop_last()[j]);
        assert(built_pairs(ws, c, p)[k] == prev[k]);
    } else {
        assert(ws[ws.len() - 1] == ws.last());
    }
}

/// In every built pair the transfer's nonce is the claim's plus one, and both
/// carry the same sender, gas limit, gas price and chain id: the ones given.
pub proof fn lemma_pair_invariant(ws: Seq<UserWallet>, c: Contracts, p: TxParams, k: int)
    requires
        0 <= k < built_pairs(ws, c, p).len(),
    ensures
        ({
            let (claim, transfer) = built_pairs(ws, c, p)[k];
            &&& transfer.nonce == claim.nonce + 1
            &&& transfer.gas == claim.gas
            &&& transfer.gas_price == claim.gas_price
            &&& transfer.from == claim.from
            &&& transfer.chain_id == claim.chain_id
            &&& claim.gas == p.gas_limit.value()
            &&& claim.gas_price == p.gas_price.value()
            &&& claim.to == c.distributor
            &&& transfer.to == c.token
        }),
{
    lemma_built_from(ws, c, p, k);
}

/// With the gas limit that the probe decides, every built transaction uses
/// the larger of the configured limit and the estimate, never less than the
/// configured one.
pub proof fn lemma_effective_gas_everywhere(
    ws: Seq<UserWallet>,
    c: Contracts,
    p: TxParams,
    configured: Uint256,
    estimate: Uint256,
    k: int,
)
    requires
        p.gas_limit.value() == if configured.value() < estimate.value() { estimate.value() } else { configured.value() },
        0 <= k < built_pairs(ws, c, p).len(),
    ensures
        built_pairs(ws, c, p)[k].0.gas == p.gas_limit.value(),
        built_pairs(ws, c, p)[k].1.gas == p.gas_limit.value(),
        built_pairs(ws, c, p)[k].0.gas >= configured.value(),
        built_pairs(ws, c, p)[k].0.gas >= estimate.value(),
{
    lemma_built_from(ws, c, p, k);
}

/// A probe that fails `n` times and then succeeds with `g` makes exactly
/// `n + 1` attempts, waits the fixed delay after each failure, and ends with
/// `g`; what would come after the success is never asked for.
pub proof fn lemma_probe_attempts(n: nat, g: Uint256, later: Seq<Option<Uint256>>)
    ensures
        ({
            let outcomes = Seq::new(n, |i: int| None::<Uint256>) + seq![Some(g)] + later;
            let trace = poll_trace(outcomes);
            &&& trace.len() == n + 1
            &&& forall|i: int| 0 <= i < n ==> #[trigger] trace[i] == PollAction::RetryAfter(RETRY_DELAY_MS)
            &&& trace[n as int] == PollAction::Finish(g)
        }),
    decreases n,
{
    let outcomes = Seq::new(n, |i: int| None::<Uint256>) + seq![Some(g)] + later;
    if n == 0 {
        assert(outcomes[0] == Some(g));
    } else {
        lemma_probe_attempts((n - 1) as nat, g, later);
        let rest = Seq::new((n - 1) as nat, |i: int| None::<Uint256>) + seq![Some(g)] + later;
        assert(outcomes.drop_first() =~= rest);
        assert(outcomes[0] is None);
        let trace = poll_trace(outcomes);
        assert(trace == seq![poll_action(outcomes[0])] + poll_trace(rest));
    }
}

/// Every transaction handed to the broadcaster is in a final state once its
/// submission has been answered and, where it was accepted, its receipt wait
/// has ended, whatever the answers were.
pub proof fn lemma_broadcast_settles(accepted: bool, receipt: TxEvent)
    requires
        !(receipt is Submission),
    ensures
        !accepted ==> next_state(TxState::Signed, TxEvent::Submission(accepted)).is_final(),
        accepted ==> next_state(next_state(TxState::Signed, TxEvent::Submission(accepted)), receipt).is_final(),
{
}

/// A final state stays final under any further event.
pub proof fn lemma_final_is_absorbing(s: TxState, e: TxEvent)
    requires
        s.is_final(),
    ensures
        next_state(s, e) == s,
{
}

} // verus!
