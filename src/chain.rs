//! The calls into ethers: function selectors, ABI words, key handling and
//! transaction signing.
use vstd::prelude::*;
use crate::types::{Address, Transaction, TransactionView};
use crate::uint::Uint256;
use ethers::signers::{LocalWallet, MnemonicBuilder, Signer};
use ethers::signers::coins_bip39::English;
use ethers::types::{PathOrString, TransactionRequest, H160, U256};
use ethers::types::transaction::eip2718::TypedTransaction;
use ethers::abi::Token;

verus! {

/// The `n` bytes of `v` in big-endian order (the low `n` bytes where `v`
/// does not fit).
pub open spec fn be_bytes(v: nat, n: nat) -> Seq<u8>
    decreases n,
{
    if n == 0 {
        seq![]
    } else {
        be_bytes(v / 256, (n - 1) as nat).push((v % 256) as u8)
    }
}

/// `be_bytes` gives exactly `n` bytes.
pub proof fn lemma_be_bytes_len(v: nat, n: nat)
    ensures
        be_bytes(v, n).len() == n,
    decreases n,
{
    if n > 0 {
        lemma_be_bytes_len(v / 256, (n - 1) as nat);
    }
}

/// The ABI word of an address: twelve zero bytes, then the address.
pub open spec fn address_word(a: Address) -> Seq<u8> {
    Seq::new(12, |i: int| 0u8) + a.bytes@
}

/// The first four bytes of the Keccak-256 digest of a function signature.
pub uninterp spec fn selector_of(signature: Seq<char>) -> Seq<u8>;


/// The secret key of the first account (index 0) derived from an English
/// BIP-39 phrase, if it is one.
pub uninterp spec fn mnemonic_key_of(phrase: Seq<char>) -> Option<Seq<u8>>;

/// The address of a 32-byte secret key, if it is a valid secp256k1 scalar.
pub uninterp spec fn key_address_of(key: Seq<u8>) -> Option<Seq<u8>>;

/// The RLP bytes of a legacy transaction signed (EIP-155) with a key.
pub uninterp spec fn signed_legacy(key: Seq<u8>, tx: TransactionView) -> Option<Seq<u8>>;

/// The largest chain id that EIP-155 signing handles without overflow
/// (`u64::MAX / 2 - 36`, the EIP-2294 cap).
pub const MAX_CHAIN_ID: u64 = 0x7fff_ffff_ffff_ffdb;

/// The signed bytes of a transaction under a key: none above the chain id cap.
pub open spec fn signature_with(key: Seq<u8>, tx: TransactionView) -> Option<Seq<u8>> {
    if tx.chain_id <= MAX_CHAIN_ID {
        signed_legacy(key, tx)
    } else {
        None
    }
}

/// The value of a hex digit, upper or lower case; -1 for any other character.
pub open spec fn hex_value(c: char) -> int {
    let u = c as u32;
    if 0x30 <= u <= 0x39 {
        u - 0x30
    } else if 0x41 <= u <= 0x46 {
        u - 0x41 + 10
    } else if 0x61 <= u <= 0x66 {
        u - 0x61 + 10
    } else {
        -1
    }
}

/// The text without one leading `0x`.
pub open spec fn strip_0x(s: Seq<char>) -> Seq<char> {
    if s.len() >= 2 && s[0] == '0' && s[1] == 'x' {
        s.subrange(2, s.len() as int)
    } else {
        s
    }
}

/// Space, tab, CR and LF, which hex decoding skips.
pub open spec fn hex_skipped(c: char) -> bool {
    c == ' ' || c == '\t' || c == '\r' || c == '\n'
}

/// The order of the secp256k1 group: a secret key lies strictly between zero
/// and it.
pub open spec fn secp256k1_order() -> nat {
    0xFFFF_FFFF_FFFF_FFFF_FFFF_FFFF_FFFF_FFFE_BAAE_DCE6_AF48_A03B_BFD2_5E8C_D036_4141nat
}

/// The number that bytes stand for, most significant first.
pub open spec fn be_value(b: Seq<u8>) -> nat
    decreases b.len(),
{
    if b.len() == 0 {
        0
    } else {
        be_value(b.drop_last()) * 256 + b.last() as nat
    }
}

/// The text without one leading `0X` (upper case only).
pub open spec fn strip_upper_0x(s: Seq<char>) -> Seq<char> {
    if s.len() >= 2 && s[0] == '0' && s[1] == 'X' {
        s.subrange(2, s.len() as int)
    } else {
        s
    }
}

/// The secret key a private-key text stands for: after an optional `0X`,
/// exactly sixty-four hex digits, read in pairs, whose number is a valid
/// secp256k1 scalar.
pub open spec fn private_key_of(text: Seq<char>) -> Option<Seq<u8>> {
    let t = strip_upper_0x(text);
    if t.len() == 64 && forall|i: int| 0 <= i < 64 ==> hex_value(#[trigger] t[i]) >= 0 {
        let k = Seq::new(32, |i: int| (hex_value(t[2 * i]) * 16 + hex_value(t[2 * i + 1])) as u8);
        if 0 < be_value(k) && be_value(k) < secp256k1_order() {
            Some(k)
        } else {
            None
        }
    } else {
        None
    }
}

/// The address a text stands for: after an optional `0x` and with spaces,
/// tabs, CRs and LFs dropped, exactly forty hex digits, read in pairs.
pub open spec fn address_of_text(text: Seq<char>) -> Option<Seq<u8>> {
    let d = strip_0x(text).filter(|c: char| !hex_skipped(c));
    if d.len() == 40 && forall|i: int| 0 <= i < 40 ==> hex_value(#[trigger] d[i]) >= 0 {
        Some(Seq::new(20, |i: int| (hex_value(d[2 * i]) * 16 + hex_value(d[2 * i + 1])) as u8))
    } else {
        None
    }
}

/// Relies on `ethers::utils::id`: the four-byte selector of a signature.
#[verifier::external_body]
pub(crate) fn selector(signature: &str) -> (r: [u8; 4])
    ensures
        r@ == selector_of(signature@),
{
    ethers::utils::id(signature)
}

/// Relies on `ethers::abi::encode` of an address token and a uint token:
/// two static 32-byte words, the address left-padded with zeros and the
/// number in big-endian order.
#[verifier::external_body]
pub(crate) fn encode_address_amount(to: Address, amount: Uint256) -> (r: Vec<u8>)
    ensures
        r@ == address_word(to) + be_bytes(amount.value(), 32),
{
    let words = [amount.w0, amount.w1, amount.w2, amount.w3];
    ethers::abi::encode(&[Token::Address(H160(to.bytes)), Token::Uint(U256(words))])
}

/// Relies on `ethers::abi::encode` of one address token: a static 32-byte
/// word, the address left-padded with zeros.
#[verifier::external_body]
pub(crate) fn encode_address(a: Address) -> (r: Vec<u8>)
    ensures
        r@ == address_word(a),
{
    ethers::abi::encode(&[Token::Address(H160(a.bytes))])
}

/// Relies on `LocalWallet::from_str`: strips a `0X`, decodes the rest with
/// `hex::decode` (even length, hex digits only), wants 32 bytes, and takes them
/// as a secp256k1 scalar (`SecretKey::from_bytes`: nonzero, below the order);
/// `SigningKey::to_bytes` gives those bytes back.
#[verifier::external_body]
pub(crate) fn private_key(text: &Vec<char>) -> (r: Option<Vec<u8>>)
    ensures
        r matches Some(k) ==> k@.len() == 32 && private_key_of(text@) == Some(k@),
        r is None ==> private_key_of(text@) is None,
{
    match text.iter().collect::<String>().parse::<LocalWallet>() {
        Ok(w) => Some(w.signer().to_bytes().to_vec()),
        Err(_) => None,
    }
}

/// Relies on `MnemonicBuilder::<English>` with index 0 and `build`: derives
/// the first key of a phrase given as text.
#[verifier::external_body]
pub(crate) fn mnemonic_key(phrase: &Vec<char>) -> (r: Option<Vec<u8>>)
    ensures
        r matches Some(k) ==> k@.len() == 32 && mnemonic_key_of(phrase@) == Some(k@),
        r is None ==> mnemonic_key_of(phrase@) is None,
{
    let b = MnemonicBuilder::<English>::default().phrase(PathOrString::String(phrase.iter().collect()));
    match b.index(0u32) {
        Ok(b) => match b.build() {
            Ok(w) => Some(w.signer().to_bytes().to_vec()),
            Err(_) => None,
        },
        Err(_) => None,
    }
}

/// Relies on `LocalWallet::from_bytes` and `Signer::address`: the address
/// of a 32-byte secret key, which `from_bytes` rejects where invalid.
#[verifier::external_body]
pub(crate) fn key_address(key: &Vec<u8>) -> (r: Option<Address>)
    requires
        key@.len() == 32,
    ensures
        r matches Some(a) ==> key_address_of(key@) == Some(a.bytes@),
        r is None ==> key_address_of(key@) is None,
{
    match LocalWallet::from_bytes(key) {
        Ok(w) => Some(Address { bytes: w.address().0 }),
        Err(_) => None,
    }
}

/// Relies on `Wallet::sign_transaction_sync` and `TypedTransaction::rlp_signed`
/// on a legacy request: a deterministic (RFC 6979) signature of the
/// transaction, serialized. The EIP-155 `v` is computed in `u64` from the
/// chain id, hence its bound.
#[verifier::external_body]
pub(crate) fn sign_legacy(key: &Vec<u8>, tx: &Transaction) -> (r: Option<Vec<u8>>)
    requires
        key@.len() == 32,
        tx.chain_id <= MAX_CHAIN_ID,
    ensures
        r matches Some(b) ==> signed_legacy(key@, tx@) == Some(b@),
        r is None ==> signed_legacy(key@, tx@) is None,
{
    let w = LocalWallet::from_bytes(key).ok()?;
    let req = TransactionRequest::new().to(H160(tx.to.bytes))
        .data(tx.data.clone()).chain_id(tx.chain_id)
        .gas(U256([tx.gas.w0, tx.gas.w1, tx.gas.w2, tx.gas.w3]))
        .gas_price(U256([tx.gas_price.w0, tx.gas_price.w1, tx.gas_price.w2, tx.gas_price.w3]))
        .nonce(U256([tx.nonce.w0, tx.nonce.w1, tx.nonce.w2, tx.nonce.w3]));
    let typed = TypedTransaction::Legacy(req);
    let sig = w.sign_transaction_sync(&typed).ok()?;
    Some(typed.rlp_signed(&sig).to_vec())
}

/// Relies on `H160::from_str` (fixed-hash over rustc-hex's `FromHexIter`):
/// an optional `0x`, then exactly twenty bytes of hex digits, where spaces,
/// tabs, CRs and LFs are skipped.
#[verifier::external_body]
pub(crate) fn parse_address(text: &Vec<char>) -> (r: Option<Address>)
    ensures
        r matches Some(a) ==> address_of_text(text@) == Some(a.bytes@),
        r is None ==> address_of_text(text@) is None,
{
    match text.iter().collect::<String>().parse::<H160>() {
        Ok(a) => Some(Address { bytes: a.0 }),
        Err(_) => None,
    }
}

} // verus!
