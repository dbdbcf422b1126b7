//! Construction of the claim and transfer transactions of each account, and
//! their signing.
use vstd::prelude::*;
use crate::chain::{selector, selector_of};
use crate::keystore::{select, signature_of, KeyStore};
use crate::types::{CallRequest, Contracts, Transaction, TransactionPair, TransactionView, TxParams};
use crate::poll::effective_gas_limit;
use crate::uint::{modulus, Uint256};
use crate::wallet::{transfer_input, UserWallet};

verus! {

/// The call data of the distributor's `claim()`.
pub open spec fn claim_input() -> Seq<u8> {
    selector_of("claim()"@)
}

/// The claim transaction of an account: to the distributor, at the account's nonce.
pub open spec fn claim_view(w: UserWallet, c: Contracts, p: TxParams) -> TransactionView {
    TransactionView {
        from: w.address,
        to: c.distributor,
        data: claim_input(),
        gas: p.gas_limit.value(),
        gas_price: p.gas_price.value(),
        nonce: w.nonce.value(),
        chain_id: p.chain_id,
    }
}

/// The transfer transaction of an account: the discovered balance to the
/// receiver, at the nonce after the claim's.
pub open spec fn transfer_view(w: UserWallet, c: Contracts, p: TxParams) -> TransactionView {
    TransactionView {
        from: w.address,
        to: c.token,
        data: transfer_input(w.receiver, w.balance.value()),
        gas: p.gas_limit.value(),
        gas_price: p.gas_price.value(),
        nonce: w.nonce.value() + 1,
        chain_id: p.chain_id,
    }
}

/// A pair can be built where the transfer's nonce fits in 256 bits.
pub open spec fn buildable(w: UserWallet) -> bool {
    w.nonce.value() + 1 < modulus()
}

/// The pairs built for a sequence of accounts, in order, skipping those that
/// cannot be built.
pub open spec fn built_pairs(ws: Seq<UserWallet>, c: Contracts, p: TxParams) -> Seq<(TransactionView, TransactionView)>
    decreases ws.len(),
{
    if ws.len() == 0 {
        seq![]
    } else {
        let prev = built_pairs(ws.drop_last(), c, p);
        if buildable(ws.last()) {
            prev.push((claim_view(ws.last(), c, p), transfer_view(ws.last(), c, p)))
        } else {
            prev
        }
    }
}

/// The transactions of a sequence of pairs, claim before transfer.
pub open spec fn flatten_pairs(ps: Seq<(TransactionView, TransactionView)>) -> Seq<TransactionView>
    decreases ps.len(),
{
    if ps.len() == 0 {
        seq![]
    } else {
        flatten_pairs(ps.drop_last()).push(ps.last().0).push(ps.last().1)
    }
}

/// The signed bytes of those transactions whose signing succeeds, in order.
pub open spec fn signed_in_order(ws: Seq<UserWallet>, txs: Seq<TransactionView>) -> Seq<Seq<u8>>
    decreases txs.len(),
{
    if txs.len() == 0 {
        seq![]
    } else {
        let prev = signed_in_order(ws, txs.drop_last());
        match signature_of(ws, txs.last()) {
            Some(b) => prev.push(b),
            None => prev,
        }
    }
}

/// One more transaction adds its signed bytes where signing succeeds.
proof fn lemma_signed_push(ws: Seq<UserWallet>, txs: Seq<TransactionView>, t: TransactionView)
    ensures
        signed_in_order(ws, txs.push(t)) == match signature_of(ws, t) {
            Some(b) => signed_in_order(ws, txs).push(b),
            None => signed_in_order(ws, txs),
        },
{
    assert(txs.push(t).drop_last() =~= txs);
    assert(txs.push(t).last() == t);
}

impl View for TransactionPair {
    type V = (TransactionView, TransactionView);

    open spec fn view(&self) -> (TransactionView, TransactionView) {
        (self.claim@, self.transfer@)
    }
}

/// The settings of a run once the gas probe has answered: the configured
/// limit is raised to the estimate where that is larger.
pub fn claim_params(chain_id: u64, gas_price: Uint256, configured_gas: Uint256, estimate: Uint256) -> (r: TxParams)
    ensures
        r.chain_id == chain_id,
        r.gas_price == gas_price,
        r.gas_limit.value() == if configured_gas.value() < estimate.value() {
            estimate.value()
        } else {
            configured_gas.value()
        },
        r.gas_limit.value() >= configured_gas.value(),
{
    TxParams { chain_id, gas_price, gas_limit: effective_gas_limit(configured_gas, estimate) }
}

/// The fixed call data of the distributor's `claim()`.
pub fn claim_data() -> (r: Vec<u8>)
    ensures
        r@ == claim_input(),
        r@.len() == 4,
{
    let sel = selector("claim()");
    let r: Vec<u8> = vec![sel[0], sel[1], sel[2], sel[3]];
    assert(r@ =~= sel@);
    r
}

/// The representative claim call whose gas estimate tells when claiming opens.
pub fn build_estimate_tx(from: crate::types::Address, contracts: &Contracts) -> (r: CallRequest)
    ensures
        r.from == from,
        r.to == contracts.distributor,
        r.data@ == claim_input(),
        r.data@.len() == 4,
{
    CallRequest { from, to: contracts.distributor, data: claim_data() }
}

/// The claim and transfer transactions of one account; `None` where the
/// transfer's nonce would not fit in 256 bits.
pub fn build_pair(wallet: &UserWallet, contracts: &Contracts, params: &TxParams) -> (r: Option<TransactionPair>)
    ensures
        r is Some <==> buildable(*wallet),
        r matches Some(pair) ==> pair@ == (claim_view(*wallet, *contracts, *params), transfer_view(*wallet, *contracts, *params)),
{
    match wallet.nonce.checked_inc() {
        Some(next) => {
            let claim = Transaction {
                from: wallet.address,
                to: contracts.distributor,
                data: claim_data(),
                gas: params.gas_limit,
                gas_price: params.gas_price,
                nonce: wallet.nonce,
                chain_id: params.chain_id,
            };
            let transfer = Transaction {
                from: wallet.address,
                to: contracts.token,
                data: wallet.get_transfer_input(),
                gas: params.gas_limit,
                gas_price: params.gas_price,
                nonce: next,
                chain_id: params.chain_id,
            };
            Some(TransactionPair { claim, transfer })
        },
        None => None,
    }
}

/// The pairs of the accounts of the working set, in its order.
pub fn build_transactions(keystore: &KeyStore, kept: &Vec<usize>, contracts: &Contracts, params: &TxParams) -> (r: Vec<TransactionPair>)
    requires
        forall|j: int| 0 <= j < kept@.len() ==> (#[trigger] kept@[j]) < keystore.wallets@.len(),
    ensures
        r@.len() == built_pairs(select(keystore.wallets@, kept@), *contracts, *params).len(),
        forall|i: int| 0 <= i < r@.len() ==> (#[trigger] r@[i])@
            == built_pairs(select(keystore.wallets@, kept@), *contracts, *params)[i],
{
    let ghost sel = select(keystore.wallets@, kept@);
    let mut r: Vec<TransactionPair> = Vec::new();
    let mut j: usize = 0;
    while j < kept.len()
        invariant
            sel == select(keystore.wallets@, kept@),
            forall|m: int| 0 <= m < kept@.len() ==> (#[trigger] kept@[m]) < keystore.wallets@.len(),
            0 <= j <= kept@.len(),
            r@.len() == built_pairs(sel.subrange(0, j as int), *contracts, *params).len(),
            forall|k: int| 0 <= k < r@.len() ==> (#[trigger] r@[k])@ == built_pairs(sel.subrange(0, j as int), *contracts, *params)[k],
        decreases kept@.len() - j,
    {
        assert(sel.subrange(0, j + 1).drop_last() =~= sel.subrange(0, j as int));
        let idx = kept[j];
        assert(sel[j as int] == keystore.wallets@[idx as int]);
        match build_pair(&keystore.wallets[idx], contracts, params) {
            Some(pair) => {
                r.push(pair);
            },
            None => {},
        }
        j = j + 1;
    }
    assert(sel.subrange(0, kept@.len() as int) =~= sel);
    r
}

/// Signs both transactions of every pair, claim first; a transaction whose
/// signing fails is left out and its sibling is still kept.
pub fn sign_transactions(keystore: &KeyStore, pairs: &Vec<TransactionPair>) -> (r: Vec<Vec<u8>>)
    requires
        keystore.wf(),
    ensures
        r@.len() == signed_in_order(keystore.wallets@, flatten_pairs(pairs@.map_values(|p: TransactionPair| p@))).len(),
        forall|i: int| 0 <= i < r@.len() ==> (#[trigger] r@[i])@
            == signed_in_order(keystore.wallets@, flatten_pairs(pairs@.map_values(|p: TransactionPair| p@)))[i],
{
    let ghost ws = keystore.wallets@;
    let ghost ps = pairs@.map_values(|p: TransactionPair| p@);
    let mut r: Vec<Vec<u8>> = Vec::new();
    let mut i: usize = 0;
    while i < pairs.len()
        invariant
            keystore.wf(),
            ws == keystore.wallets@,
            ps == pairs@.map_values(|p: TransactionPair| p@),
            0 <= i <= pairs@.len(),
            r@.len() == signed_in_order(ws, flatten_pairs(ps.subrange(0, i as int))).len(),
            forall|k: int| 0 <= k < r@.len() ==> (#[trigger] r@[k])@ == signed_in_order(ws, flatten_pairs(ps.subrange(0, i as int)))[k],
        decreases pairs@.len() - i,
    {
        let ghost before = flatten_pairs(ps.subrange(0, i as int));
        assert(ps.subrange(0, i + 1).drop_last() =~= ps.subrange(0, i as int));
        let ghost mid = before.push(ps[i as int].0);
        let ghost after = mid.push(ps[i as int].1);
        assert(flatten_pairs(ps.subrange(0, i + 1)) == after);
        proof {
            lemma_signed_push(ws, before, ps[i as int].0);
            lemma_signed_push(ws, mid, ps[i as int].1);
        }
        assert(pairs@[i as int].claim@ == ps[i as int].0);
        assert(pairs@[i as int].transfer@ == ps[i as int].1);
        match keystore.sign_transaction(&pairs[i].claim) {
            Some(b) => {
                r.push(b);
            },
            None => {},
        }
        assert(r@.len() == signed_in_order(ws, mid).len());
        assert(forall|k: int| 0 <= k < r@.len() ==> (#[trigger] r@[k])@ == signed_in_order(ws, mid)[k]);
        match keystore.sign_transaction(&pairs[i].transfer) {
            Some(b) => {
                r.push(b);
            },
            None => {},
        }
        assert(r@.len() == signed_in_order(ws, after).len());
        assert(forall|k: int| 0 <= k < r@.len() ==> (#[trigger] r@[k])@ == signed_in_order(ws, after)[k]);
        i = i + 1;
    }
    assert(ps.subrange(0, pairs@.len() as int) =~= ps);
    r
}

} // verus!
