//! The pipeline's data: addresses, accounts and unsigned transactions.
use vstd::prelude::*;
use crate::uint::Uint256;

verus! {

/// A 20-byte account or contract address.
#[derive(Clone, Copy, Debug)]
pub struct Address {
    pub bytes: [u8; 20],
}

impl PartialEq for Address {
    fn eq(&self, o: &Address) -> (r: bool) {
        let mut i: usize = 0;
        while i < 20
            invariant
                0 <= i <= 20,
                forall|j: int| 0 <= j < i ==> self.bytes@[j] == o.bytes@[j],
            decreases 20 - i,
        {
            if self.bytes[i] != o.bytes[i] {
                return false;
            }
            i = i + 1;
        }
        assert(self.bytes@ =~= o.bytes@);
        true
    }
}

impl vstd::std_specs::cmp::PartialEqSpecImpl for Address {
    open spec fn obeys_eq_spec() -> bool {
        true
    }

    open spec fn eq_spec(&self, o: &Address) -> bool {
        self.bytes@ == o.bytes@
    }
}

/// The mathematical form of an unsigned legacy transaction.
pub struct TransactionView {
    pub from: Address,
    pub to: Address,
    pub data: Seq<u8>,
    pub gas: nat,
    pub gas_price: nat,
    pub nonce: nat,
    pub chain_id: u64,
}

/// An unsigned legacy transaction with every field assigned. It carries no value.
#[derive(Clone, Debug)]
pub struct Transaction {
    pub from: Address,
    pub to: Address,
    pub data: Vec<u8>,
    pub gas: Uint256,
    pub gas_price: Uint256,
    pub nonce: Uint256,
    pub chain_id: u64,
}

impl View for Transaction {
    type V = TransactionView;

    open spec fn view(&self) -> TransactionView {
        TransactionView {
            from: self.from,
            to: self.to,
            data: self.data@,
            gas: self.gas.value(),
            gas_price: self.gas_price.value(),
            nonce: self.nonce.value(),
            chain_id: self.chain_id,
        }
    }
}

/// A call used only to estimate gas: no nonce, gas or price assigned yet.
#[derive(Clone, Debug)]
pub struct CallRequest {
    pub from: Address,
    pub to: Address,
    pub data: Vec<u8>,
}

/// The claim transaction of one account and the transfer that sweeps the
/// claimed tokens, in that order.
#[derive(Clone, Debug)]
pub struct TransactionPair {
    pub claim: Transaction,
    pub transfer: Transaction,
}

/// The gas and chain settings shared by every transaction of a run.
#[derive(Clone, Copy, Debug)]
pub struct TxParams {
    pub chain_id: u64,
    pub gas_price: Uint256,
    pub gas_limit: Uint256,
}

/// The contracts the pipeline talks to.
#[derive(Clone, Debug)]
pub struct Contracts {
    /// The distributor whose `claim()` releases the tokens.
    pub distributor: Address,
    /// The token contract whose `transfer` sweeps them.
    pub token: Address,
}

impl Contracts {
    /// The distributor and token contracts of the Arbitrum airdrop.
    pub fn arbitrum() -> (r: Contracts)
        ensures
            r.distributor.bytes@ == seq![
                0x67u8, 0xa2, 0x4c, 0xe4, 0x32, 0x1a, 0xb3, 0xaf, 0x51, 0xc2,
                0xd0, 0xa4, 0x80, 0x1c, 0x3e, 0x11, 0x1d, 0x88, 0xc9, 0xd9,
            ],
            r.token.bytes@ == seq![
                0x91u8, 0x2c, 0xe5, 0x91, 0x44, 0x19, 0x1c, 0x12, 0x04, 0xe6,
                0x45, 0x59, 0xfe, 0x82, 0x53, 0xa0, 0xe4, 0x9e, 0x65, 0x48,
            ],
    {
        let d: [u8; 20] = [
            0x67, 0xa2, 0x4c, 0xe4, 0x32, 0x1a, 0xb3, 0xaf, 0x51, 0xc2,
            0xd0, 0xa4, 0x80, 0x1c, 0x3e, 0x11, 0x1d, 0x88, 0xc9, 0xd9,
        ];
        let t: [u8; 20] = [
            0x91, 0x2c, 0xe5, 0x91, 0x44, 0x19, 0x1c, 0x12, 0x04, 0xe6,
            0x45, 0x59, 0xfe, 0x82, 0x53, 0xa0, 0xe4, 0x9e, 0x65, 0x48,
        ];
        assert(d@ =~= seq![
            0x67u8, 0xa2, 0x4c, 0xe4, 0x32, 0x1a, 0xb3, 0xaf, 0x51, 0xc2,
            0xd0, 0xa4, 0x80, 0x1c, 0x3e, 0x11, 0x1d, 0x88, 0xc9, 0xd9,
        ]);
        assert(t@ =~= seq![
            0x91u8, 0x2c, 0xe5, 0x91, 0x44, 0x19, 0x1c, 0x12, 0x04, 0xe6,
            0x45, 0x59, 0xfe, 0x82, 0x53, 0xa0, 0xe4, 0x9e, 0x65, 0x48,
        ]);
        Contracts { distributor: Address { bytes: d }, token: Address { bytes: t } }
    }
}

} // verus!
