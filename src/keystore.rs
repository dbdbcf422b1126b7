//! The registry of accounts, keyed by address.
use vstd::prelude::*;
use crate::chain::signature_with;
use crate::types::{Address, Transaction, TransactionView};
use crate::uint::{modulus, Uint256};
use crate::wallet::UserWallet;

verus! {

/// The registry after the balance query: each account whose query succeeded
/// has that balance recorded (zero included); the others are unchanged.
pub open spec fn with_balances(ws: Seq<UserWallet>, rs: Seq<Option<Uint256>>) -> Seq<UserWallet> {
    Seq::new(ws.len(), |k: int| match rs[k] {
        Some(b) => ws[k].with_balance(b),
        None => ws[k],
    })
}

/// The working set after the balance query: the positions whose query
/// succeeded with a nonzero balance, in increasing order.
pub open spec fn kept_indices(rs: Seq<Option<Uint256>>) -> Seq<usize>
    decreases rs.len(),
{
    if rs.len() == 0 {
        seq![]
    } else {
        let prev = kept_indices(rs.drop_last());
        match rs.last() {
            Some(b) => if b.value() > 0 {
                prev.push((rs.len() - 1) as usize)
            } else {
                prev
            },
            None => prev,
        }
    }
}

/// The sum of the balances that the queries found; a failed query adds
/// nothing.
pub open spec fn total_found(rs: Seq<Option<Uint256>>) -> nat
    decreases rs.len(),
{
    if rs.len() == 0 {
        0
    } else {
        total_found(rs.drop_last()) + match rs.last() {
            Some(b) => b.value(),
            None => 0,
        }
    }
}

/// The accounts at the given positions, in that order.
pub open spec fn select(ws: Seq<UserWallet>, idx: Seq<usize>) -> Seq<UserWallet> {
    idx.map_values(|i: usize| ws[i as int])
}

/// The positions are strictly increasing and below `n`.
pub open spec fn increasing_below(idx: Seq<usize>, n: nat) -> bool {
    &&& forall|j: int| 0 <= j < idx.len() ==> (#[trigger] idx[j]) < n
    &&& forall|j: int, m: int| 0 <= j < m < idx.len() ==> idx[j] < idx[m]
}

/// What the balance query leaves: the total found, or `None` where it does
/// not fit in 256 bits, and the working set of positions.
pub struct BalanceReport {
    pub total: Option<Uint256>,
    pub kept: Vec<usize>,
}

/// No two accounts share an address.
pub open spec fn unique_addresses(ws: Seq<UserWallet>) -> bool {
    forall|i: int, j: int|
        0 <= i < ws.len() && 0 <= j < ws.len() && i != j ==> ws[i].address.bytes@ != ws[j].address.bytes@
}

/// Some account has the address.
pub open spec fn has_address(ws: Seq<UserWallet>, a: Seq<u8>) -> bool {
    exists|k: int| 0 <= k < ws.len() && ws[k].address.bytes@ == a
}

/// `w` stands at or after `lo` in `ws`, and no later entry has its address.
pub open spec fn is_last_of_address(ws: Seq<UserWallet>, lo: int, w: UserWallet) -> bool {
    exists|i: int| lo <= i < ws.len() && w == #[trigger] ws[i]
        && forall|j: int| i < j < ws.len() ==> ws[j].address.bytes@ != ws[i].address.bytes@
}

/// The signed bytes of a transaction under the key of the account that sends
/// it; `None` where no account has that address or signing fails or the
/// chain id is above the cap.
pub open spec fn signature_of(ws: Seq<UserWallet>, tx: TransactionView) -> Option<Seq<u8>> {
    if has_address(ws, tx.from.bytes@) {
        let k = choose|k: int| 0 <= k < ws.len() && ws[k].address.bytes@ == tx.from.bytes@;
        signature_with(ws[k].key@, tx)
    } else {
        None
    }
}

/// The accounts of a run, one per address.
pub struct KeyStore {
    pub wallets: Vec<UserWallet>,
}

impl KeyStore {
    /// Every account is well formed and addresses are unique.
    pub open spec fn wf(&self) -> bool {
        &&& forall|i: int| 0 <= i < self.wallets@.len() ==> (#[trigger] self.wallets@[i]).wf()
        &&& unique_addresses(self.wallets@)
    }

    /// Builds the registry; where two accounts share an address the later one
    /// is kept.
    pub fn make_keystore(wallets: Vec<UserWallet>) -> (r: KeyStore)
        requires
            forall|i: int| 0 <= i < wallets@.len() ==> (#[trigger] wallets@[i]).wf(),
        ensures
            r.wf(),
            forall|i: int| 0 <= i < wallets@.len() ==> has_address(r.wallets@, (#[trigger] wallets@[i]).address.bytes@),
            forall|k: int| 0 <= k < r.wallets@.len() ==> is_last_of_address(wallets@, 0, #[trigger] r.wallets@[k]),
    {
        let ghost input = wallets@;
        let mut rest = wallets;
        let mut out: Vec<UserWallet> = Vec::new();
        while rest.len() > 0
            invariant
                input.len() >= rest@.len(),
                rest@ == input.subrange(0, rest@.len() as int),
                forall|i: int| 0 <= i < input.len() ==> (#[trigger] input[i]).wf(),
                forall|i: int| 0 <= i < out@.len() ==> (#[trigger] out@[i]).wf(),
                unique_addresses(out@),
                forall|i: int| rest@.len() <= i < input.len() ==> has_address(out@, (#[trigger] input[i]).address.bytes@),
                forall|k: int| 0 <= k < out@.len() ==> is_last_of_address(input, rest@.len() as int, #[trigger] out@[k]),
            decreases rest@.len(),
        {
            let ghost n = rest@.len() as int;
            let ghost before = out@;
            let w = rest.pop().unwrap();
            assert(w == input[n - 1]);
            let mut found = false;
            let mut k: usize = 0;
            while k < out.len()
                invariant
                    out@ == before,
                    0 <= k <= out@.len(),
                    found ==> has_address(out@, w.address.bytes@),
                    !found ==> forall|m: int| 0 <= m < k ==> out@[m].address.bytes@ != w.address.bytes@,
                decreases out@.len() - k,
            {
                if out[k].address == w.address {
                    found = true;
                    assert(out@[k as int].address.bytes@ == w.address.bytes@);
                }
                k = k + 1;
            }
            if !found {
                out.push(w);
                assert forall|k: int| 0 <= k < out@.len() implies is_last_of_address(input, n - 1, #[trigger] out@[k]) by {
                    if k < before.len() {
                        assert(out@[k] == before[k]);
                        assert(is_last_of_address(input, n, before[k]));
                        let i = choose|i: int| n <= i < input.len() && before[k] == input[i]
                            && forall|j: int| i < j < input.len() ==> input[j].address.bytes@ != input[i].address.bytes@;
                        assert(out@[k] == input[i]);
                    } else {
                        assert forall|j: int| n - 1 < j < input.len() implies (#[trigger] input[j]).address.bytes@ != input[n - 1].address.bytes@ by {
                            assert(has_address(before, input[j].address.bytes@));
                        }
                        assert(out@[k] == input[n - 1]);
                    }
                }
                assert forall|i: int| n - 1 <= i < input.len() implies has_address(out@, (#[trigger] input[i]).address.bytes@) by {
                    if i >= n {
                        assert(has_address(before, input[i].address.bytes@));
                        let k = choose|k: int| 0 <= k < before.len() && before[k].address.bytes@ == input[i].address.bytes@;
                        assert(out@[k] == before[k]);
                    } else {
                        assert(out@[before.len() as int] == input[i]);
                    }
                }
            } else {
                assert forall|k: int| 0 <= k < out@.len() implies is_last_of_address(input, n - 1, #[trigger] out@[k]) by {
                    assert(is_last_of_address(input, n, out@[k]));
                    let i = choose|i: int| n <= i < input.len() && out@[k] == input[i]
                        && forall|j: int| i < j < input.len() ==> input[j].address.bytes@ != input[i].address.bytes@;
                }
            }
            assert(rest@ =~= input.subrange(0, rest@.len() as int));
        }
        KeyStore { wallets: out }
    }

    /// Applies the claimable-balance queries, one result per account in
    /// order. Every account stays; a successful query's balance is recorded,
    /// a failed one leaves the account as it was. The report gives the total
    /// found and the working set: the accounts whose query succeeded with a
    /// nonzero balance.
    pub fn get_balances(&mut self, results: Vec<Option<Uint256>>) -> (r: BalanceReport)
        requires
            old(self).wf(),
            results@.len() == old(self).wallets@.len(),
        ensures
            final(self).wf(),
            final(self).wallets@ == with_balances(old(self).wallets@, results@),
            r.kept@ == kept_indices(results@),
            r.total is Some <==> total_found(results@) < modulus(),
            r.total matches Some(t) ==> t.value() == total_found(results@),
    {
        let ghost ws = self.wallets@;
        let mut kept: Vec<usize> = Vec::new();
        let mut total: Option<Uint256> = Some(Uint256::zero());
        let n = results.len();
        let mut i: usize = 0;
        while i < n
            invariant
                n == results@.len(),
                n == ws.len(),
                0 <= i <= n,
                self.wallets@.len() == n,
                forall|k: int| 0 <= k < i ==> #[trigger] self.wallets@[k] == with_balances(ws, results@)[k],
                forall|k: int| i <= k < n ==> #[trigger] self.wallets@[k] == ws[k],
                kept@ == kept_indices(results@.subrange(0, i as int)),
                total is Some <==> total_found(results@.subrange(0, i as int)) < modulus(),
                total matches Some(t) ==> t.value() == total_found(results@.subrange(0, i as int)),
            decreases n - i,
        {
            assert(results@.subrange(0, i + 1).drop_last() =~= results@.subrange(0, i as int));
            match results[i] {
                Some(b) => {
                    self.wallets[i].balance = b;
                    total = match total {
                        Some(t) => t.checked_add(&b),
                        None => None,
                    };
                    if !b.is_zero() {
                        kept.push(i);
                    }
                },
                None => {},
            }
            i = i + 1;
        }
        assert(results@.subrange(0, n as int) =~= results@);
        assert(self.wallets@ =~= with_balances(ws, results@));
        assert forall|a: int, b: int| 0 <= a < n && 0 <= b < n && a != b implies
            self.wallets@[a].address.bytes@ != self.wallets@[b].address.bytes@ by {
            assert(self.wallets@[a].address == ws[a].address);
            assert(self.wallets@[b].address == ws[b].address);
        }
        assert forall|k: int| 0 <= k < n implies (#[trigger] self.wallets@[k]).wf() by {
            assert(self.wallets@[k].key == ws[k].key);
            assert(self.wallets@[k].address == ws[k].address);
        }
        BalanceReport { total, kept }
    }

    /// Records the transaction counts found, one entry per account in order;
    /// an account without one (`None`) keeps its nonce.
    pub fn fetch_nonces(&mut self, nonces: Vec<Option<Uint256>>)
        requires
            old(self).wf(),
            nonces@.len() == old(self).wallets@.len(),
        ensures
            final(self).wf(),
            final(self).wallets@.len() == old(self).wallets@.len(),
            forall|k: int| 0 <= k < nonces@.len() ==> #[trigger] final(self).wallets@[k] == match nonces@[k] {
                Some(v) => old(self).wallets@[k].with_nonce(v),
                None => old(self).wallets@[k],
            },
    {
        let ghost ws = self.wallets@;
        let n = nonces.len();
        let mut i: usize = 0;
        while i < n
            invariant
                n == nonces@.len(),
                n == ws.len(),
                0 <= i <= n,
                self.wallets@.len() == n,
                forall|k: int| 0 <= k < i ==> #[trigger] self.wallets@[k] == match nonces@[k] {
                    Some(v) => ws[k].with_nonce(v),
                    None => ws[k],
                },
                forall|k: int| i <= k < n ==> #[trigger] self.wallets@[k] == ws[k],
            decreases n - i,
        {
            match nonces[i] {
                Some(v) => {
                    self.wallets[i].nonce = v;
                },
                None => {},
            }
            i = i + 1;
        }
        assert forall|a: int, b: int| 0 <= a < n && 0 <= b < n && a != b implies
            self.wallets@[a].address.bytes@ != self.wallets@[b].address.bytes@ by {
            assert(self.wallets@[a].address == ws[a].address);
            assert(self.wallets@[b].address == ws[b].address);
        }
        assert forall|k: int| 0 <= k < n implies (#[trigger] self.wallets@[k]).wf() by {
            assert(self.wallets@[k].key == ws[k].key);
            assert(self.wallets@[k].address == ws[k].address);
        }
    }

    /// Signs a transaction with the key of the account that sends it; `None`
    /// where no account has that address or the signature fails.
    pub fn sign_transaction(&self, tx: &Transaction) -> (r: Option<Vec<u8>>)
        requires
            self.wf(),
        ensures
            r matches Some(b) ==> signature_of(self.wallets@, tx@) == Some(b@),
            r is None ==> signature_of(self.wallets@, tx@) is None,
            !has_address(self.wallets@, tx.from.bytes@) ==> r is None,
            forall|k: int| 0 <= k < self.wallets@.len() && (#[trigger] self.wallets@[k]).address.bytes@ == tx.from.bytes@ ==> {
                &&& r matches Some(b) ==> signature_with(self.wallets@[k].key@, tx@) == Some(b@)
                &&& r is None ==> signature_with(self.wallets@[k].key@, tx@) is None
            },
    {
        let mut k: usize = 0;
        while k < self.wallets.len()
            invariant
                self.wf(),
                0 <= k <= self.wallets@.len(),
                forall|m: int| 0 <= m < k ==> self.wallets@[m].address.bytes@ != tx.from.bytes@,
            decreases self.wallets@.len() - k,
        {
            if self.wallets[k].address == tx.from {
                assert(self.wallets@[k as int].wf());
                assert(forall|m: int| 0 <= m < self.wallets@.len() && self.wallets@[m].address.bytes@ == tx.from.bytes@
                    ==> m == k);
                return self.wallets[k].sign_transaction(tx);
            }
            k = k + 1;
        }
        None
    }

    pub fn wallets(&self) -> (r: &Vec<UserWallet>)
        ensures
            r@ == self.wallets@,
    {
        &self.wallets
    }
}

} // verus!
