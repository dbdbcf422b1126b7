//! Accounts and the registry that holds them, with the effects of the
//! balance and nonce queries.
use vstd::prelude::*;
use crate::chain::{
    address_word, be_bytes, encode_address, lemma_be_bytes_len, encode_address_amount, key_address, key_address_of, selector,
    selector_of, sign_legacy, signature_with, MAX_CHAIN_ID,
};
use crate::types::{Address, Transaction};
use crate::uint::{modulus, Uint256};

verus! {

/// The call data of `transfer(to, amount)` on an ERC-20 token.
pub open spec fn transfer_input(to: Address, amount: nat) -> Seq<u8> {
    selector_of("transfer(address,uint256)"@) + address_word(to) + be_bytes(amount, 32)
}

/// The call data of `claimableTokens(owner)` on the distributor.
pub open spec fn claimable_input(owner: Address) -> Seq<u8> {
    selector_of("claimableTokens(address)"@) + address_word(owner)
}

/// Appends the bytes of `b` to `r`.
fn append_bytes(r: &mut Vec<u8>, b: &[u8])
    ensures
        final(r)@ == old(r)@ + b@,
{
    let ghost start = r@;
    let mut j: usize = 0;
    while j < b.len()
        invariant
            0 <= j <= b@.len(),
            r@ == start + b@.subrange(0, j as int),
        decreases b@.len() - j,
    {
        r.push(b[j]);
        j = j + 1;
        assert(r@ =~= start + b@.subrange(0, j as int));
    }
    assert(b@.subrange(0, b@.len() as int) =~= b@);
}

/// The call data of the distributor's balance query for an account.
pub fn claimable_tokens_input(owner: Address) -> (r: Vec<u8>)
    ensures
        r@ == claimable_input(owner),
        r@.len() == 36,
{
    let sel = selector("claimableTokens(address)");
    let word = encode_address(owner);
    let mut r: Vec<u8> = Vec::new();
    append_bytes(&mut r, &sel);
    append_bytes(&mut r, word.as_slice());
    assert(r@ =~= claimable_input(owner));
    r
}

/// One account: its secret key and address, where its tokens go, and what
/// the resolvers found for it.
pub struct UserWallet {
    pub key: Vec<u8>,
    pub address: Address,
    pub receiver: Address,
    pub balance: Uint256,
    pub nonce: Uint256,
}

impl UserWallet {
    /// The key is a valid 32-byte secret key and the address is its address.
    pub open spec fn wf(&self) -> bool {
        &&& self.key@.len() == 32
        &&& key_address_of(self.key@) == Some(self.address.bytes@)
    }

    /// The wallet with its balance replaced.
    pub open spec fn with_balance(self, b: Uint256) -> UserWallet {
        UserWallet { balance: b, ..self }
    }

    /// The wallet with its nonce replaced.
    pub open spec fn with_nonce(self, n: Uint256) -> UserWallet {
        UserWallet { nonce: n, ..self }
    }

    /// An account for a secret key, with balance and nonce zero; `None` where
    /// the key is not a valid 32-byte secret key.
    pub fn new(key: Vec<u8>, receiver: Address) -> (r: Option<UserWallet>)
        ensures
            r is Some <==> key@.len() == 32 && key_address_of(key@) is Some,
            r matches Some(w) ==> {
                &&& w.wf()
                &&& w.key@ == key@
                &&& w.receiver == receiver
                &&& w.balance.value() == 0
                &&& w.nonce.value() == 0
            },
    {
        if key.len() != 32 {
            return None;
        }
        match key_address(&key) {
            Some(address) => Some(
                UserWallet {
                    key,
                    address,
                    receiver,
                    balance: Uint256::zero(),
                    nonce: Uint256::zero(),
                },
            ),
            None => None,
        }
    }

    pub fn address(&self) -> (r: Address)
        ensures
            r == self.address,
    {
        self.address
    }

    pub fn get_nonce(&self) -> (r: Uint256)
        ensures
            r == self.nonce,
    {
        self.nonce
    }

    /// Records the result of the claimable-balance query: a found balance is
    /// stored and returned; a failed query leaves the wallet as it was and
    /// counts as zero.
    pub fn get_balance(&mut self, queried: Option<Uint256>) -> (r: Uint256)
        ensures
            match queried {
                Some(b) => r == b && *final(self) == old(self).with_balance(b),
                None => r.value() == 0 && *final(self) == *old(self),
            },
    {
        match queried {
            Some(b) => {
                self.balance = b;
                b
            },
            None => Uint256::zero(),
        }
    }

    /// Records the result of the transaction-count query; returns whether
    /// there was one (a failed query is retried by the caller).
    pub fn fetch_nonce(&mut self, queried: Option<Uint256>) -> (r: bool)
        ensures
            r == queried is Some,
            match queried {
                Some(n) => *final(self) == old(self).with_nonce(n),
                None => *final(self) == *old(self),
            },
    {
        match queried {
            Some(n) => {
                self.nonce = n;
                true
            },
            None => false,
        }
    }

    /// The call data that sweeps the discovered balance to the receiver.
    pub fn get_transfer_input(&self) -> (r: Vec<u8>)
        ensures
            r@ == transfer_input(self.receiver, self.balance.value()),
            r@.len() == 68,
    {
        proof {
            lemma_be_bytes_len(self.balance.value(), 32);
        }
        let sel = selector("transfer(address,uint256)");
        let args = encode_address_amount(self.receiver, self.balance);
        let mut r: Vec<u8> = Vec::new();
        append_bytes(&mut r, &sel);
        append_bytes(&mut r, args.as_slice());
        assert(r@ =~= transfer_input(self.receiver, self.balance.value()));
        r
    }

    /// Signs a transaction with this account's key; `None` where signing
    /// fails or the chain id is above the cap.
    pub fn sign_transaction(&self, tx: &Transaction) -> (r: Option<Vec<u8>>)
        requires
            self.wf(),
        ensures
            r matches Some(b) ==> signature_with(self.key@, tx@) == Some(b@),
            r is None ==> signature_with(self.key@, tx@) is None,
            tx.chain_id > MAX_CHAIN_ID ==> r is None,
    {
        if tx.chain_id > MAX_CHAIN_ID {
            return None;
        }
        sign_legacy(&self.key, tx)
    }
}

} // verus!
