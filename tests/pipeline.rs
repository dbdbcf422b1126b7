use std::str::FromStr;

use arbitrum_claim::broadcast::{all_settled, send_transaction, TxEvent, TxState};
use arbitrum_claim::builder::{
    build_estimate_tx, build_pair, build_transactions, claim_data, claim_params, sign_transactions,
};
use arbitrum_claim::keystore::KeyStore;
use arbitrum_claim::poll::{effective_gas_limit, upstream_error_text, wait_gas, PollAction, Poller};
use arbitrum_claim::secrets::{read_secrets_file, split_chars, trim_chars};
use arbitrum_claim::types::{Address, Contracts, TxParams};
use arbitrum_claim::uint::Uint256;
use arbitrum_claim::wallet::{claimable_tokens_input, UserWallet};
use ethers::types::transaction::eip2718::TypedTransaction;
use ethers::types::{H160, U256};
use ethers::utils::rlp::Rlp;

const KEY1: &str = "0000000000000000000000000000000000000000000000000000000000000001";
const KEY2: &str = "0000000000000000000000000000000000000000000000000000000000000002";
const KEY3: &str = "0000000000000000000000000000000000000000000000000000000000000003";
const ADDR1: &str = "7e5f4552091a69125d5dfcb7b8c2659029395bdf";
const ADDR2: &str = "2b5ad5c4795c026514f8317c7a215e218dccd6cf";
const ADDR3: &str = "6813eb9362372eef6200f3b1dbc3f819671cba69";
const SINK: &str = "1111111111111111111111111111111111111111";

fn addr(hex: &str) -> Address {
    Address { bytes: H160::from_str(hex).unwrap().0 }
}

fn chars(s: &str) -> Vec<char> {
    s.chars().collect()
}

fn u(x: u64) -> Uint256 {
    Uint256::from_u64(x)
}

fn key_bytes(hex_key: &str) -> Vec<u8> {
    (0..32).map(|i| u8::from_str_radix(&hex_key[2 * i..2 * i + 2], 16).unwrap()).collect()
}

fn wallet(hex_key: &str) -> UserWallet {
    UserWallet::new(key_bytes(hex_key), addr(SINK)).unwrap()
}

fn params() -> TxParams {
    TxParams { chain_id: 42161, gas_price: u(100_000_000), gas_limit: u(1_000_000) }
}

#[test]
fn uint_add_and_order() {
    let max = Uint256::from_words([u64::MAX; 4]);
    assert!(max.checked_add(&u(1)).is_none());
    assert!(max.checked_inc().is_none());
    let a = Uint256::from_words([u64::MAX, 0, 0, 0]);
    let s = a.checked_add(&u(1)).unwrap();
    assert_eq!(s.words(), [0, 1, 0, 0]);
    assert!(a.lt(&s));
    assert!(!s.lt(&a));
    assert_eq!(a.max(&s), s);
    assert!(Uint256::zero().is_zero());
    assert!(!Uint256::from_words([0, 0, 0, 1]).is_zero());
}

#[test]
fn effective_gas_is_the_larger() {
    assert_eq!(effective_gas_limit(u(500_000), u(700_000)), u(700_000));
    assert_eq!(effective_gas_limit(u(500_000), u(300_000)), u(500_000));
    let p = claim_params(42161, u(7), u(500_000), u(800_000));
    assert_eq!(p.gas_limit, u(800_000));
    assert_eq!(p.gas_price, u(7));
    assert_eq!(p.chain_id, 42161);
}

#[test]
fn gas_probe_fails_three_times_then_succeeds() {
    let mut prober = Poller::new();
    let outcomes = [None, None, None, Some(u(654_321))];
    let mut actions = vec![];
    for o in outcomes {
        let a = wait_gas(&mut prober, o);
        actions.push(a);
        if let PollAction::Finish(_) = a {
            break;
        }
    }
    assert_eq!(prober.attempts, 4);
    assert_eq!(actions.len(), 4);
    for a in &actions[..3] {
        assert_eq!(*a, PollAction::RetryAfter(100));
    }
    assert_eq!(actions[3], PollAction::Finish(u(654_321)));
}

#[test]
fn error_text_prefers_rpc_message() {
    let a = upstream_error_text(Some("execution reverted".to_string()), "generic".to_string());
    assert_eq!(a, "execution reverted");
    let b = upstream_error_text(None, "generic".to_string());
    assert_eq!(b, "generic");
}

#[test]
fn trims_and_splits() {
    assert_eq!(trim_chars(&chars("  ab c \t\r")), chars("ab c"));
    assert_eq!(trim_chars(&chars(" \u{3000} ")), chars(""));
    let parts = split_chars(&chars("a:b::c"), ':');
    assert_eq!(parts, vec![chars("a"), chars("b"), chars(""), chars("c")]);
    assert_eq!(split_chars(&chars(""), ':'), vec![chars("")]);
}

#[test]
fn secrets_file_lines() {
    let content = format!(
        "{}\n  {} : {}  \nnot a key\n\n{}:zz\n",
        KEY1, KEY2, ADDR3, KEY3
    );
    let ws = read_secrets_file(&chars(&content), addr(SINK));
    assert_eq!(ws.len(), 3);
    assert_eq!(ws[0].address().bytes, addr(ADDR1).bytes);
    assert_eq!(ws[0].receiver.bytes, addr(SINK).bytes);
    assert_eq!(ws[1].address().bytes, addr(ADDR2).bytes);
    assert_eq!(ws[1].receiver.bytes, addr(ADDR3).bytes);
    assert_eq!(ws[2].address().bytes, addr(ADDR3).bytes);
    assert_eq!(ws[2].receiver.bytes, addr(SINK).bytes);
    assert!(ws.iter().all(|w| w.balance.is_zero() && w.get_nonce().is_zero()));
}

#[test]
fn secrets_file_mnemonic_line() {
    let phrase = "abandon abandon abandon abandon abandon abandon abandon abandon abandon abandon abandon about";
    let ws = read_secrets_file(&chars(phrase), addr(SINK));
    assert_eq!(ws.len(), 1);
    assert_eq!(ws[0].address().bytes, addr("9858effd232b4033e47d90003d41ec34ecaeda94").bytes);
}

#[test]
fn wallet_rejects_bad_keys() {
    assert!(UserWallet::new(vec![0u8; 32], addr(SINK)).is_none());
    assert!(UserWallet::new(vec![1u8; 31], addr(SINK)).is_none());
    assert_eq!(wallet(KEY1).address().bytes, addr(ADDR1).bytes);
}

#[test]
fn keystore_keeps_one_wallet_per_address() {
    let mut second = wallet(KEY1);
    second.receiver = addr(ADDR3);
    let ks = KeyStore::make_keystore(vec![wallet(KEY1), wallet(KEY2), second]);
    assert_eq!(ks.wallets().len(), 2);
    let w1 = ks.wallets().iter().find(|w| w.address().bytes == addr(ADDR1).bytes).unwrap();
    assert_eq!(w1.receiver.bytes, addr(ADDR3).bytes);
}

#[test]
fn balances_drop_failed_and_zero_queries() {
    let mut ks = KeyStore::make_keystore(vec![wallet(KEY1), wallet(KEY2)]);
    let report = ks.get_balances(vec![None, Some(u(7))]);
    assert_eq!(report.total, Some(u(7)));
    assert_eq!(report.kept, vec![1]);
    assert_eq!(ks.wallets().len(), 2);
    assert_eq!(ks.wallets()[0].balance, u(0));
    assert_eq!(ks.wallets()[1].balance, u(7));
    let pairs = build_transactions(&ks, &report.kept, &Contracts::arbitrum(), &params());
    assert_eq!(pairs.len(), 1);
    assert_eq!(pairs[0].claim.from, ks.wallets()[1].address());
    assert_eq!(pairs[0].transfer.from, ks.wallets()[1].address());
}

#[test]
fn balance_total_overflow_is_none() {
    let mut ks = KeyStore::make_keystore(vec![wallet(KEY1), wallet(KEY2)]);
    let big = Uint256::from_words([0, 0, 0, 1 << 63]);
    let report = ks.get_balances(vec![Some(big), Some(big)]);
    assert_eq!(report.total, None);
    assert_eq!(report.kept, vec![0, 1]);
    assert_eq!(ks.wallets().len(), 2);
}

#[test]
fn nonces_are_recorded() {
    let mut ks = KeyStore::make_keystore(vec![wallet(KEY1), wallet(KEY2)]);
    ks.fetch_nonces(vec![Some(u(3)), Some(u(9))]);
    assert_eq!(ks.wallets()[0].get_nonce(), u(3));
    assert_eq!(ks.wallets()[1].get_nonce(), u(9));
    ks.fetch_nonces(vec![None, Some(u(10))]);
    assert_eq!(ks.wallets()[0].get_nonce(), u(3));
    assert_eq!(ks.wallets()[1].get_nonce(), u(10));
    let mut w = wallet(KEY3);
    assert!(!w.fetch_nonce(None));
    assert_eq!(w.get_nonce(), u(0));
    assert!(w.fetch_nonce(Some(u(4))));
    assert_eq!(w.get_nonce(), u(4));
    assert_eq!(w.get_balance(None), u(0));
    assert_eq!(w.get_balance(Some(u(12))), u(12));
    assert_eq!(w.balance, u(12));
}

#[test]
fn call_data_is_abi_encoded() {
    assert_eq!(claim_data(), vec![0x4e, 0x71, 0xd9, 0x2d]);
    let mut w = wallet(KEY1);
    w.receiver = addr(ADDR2);
    w.get_balance(Some(Uint256::from_words([0x0102, 0, 0, 0x0a00_0000_0000_0000])));
    let data = w.get_transfer_input();
    assert_eq!(data.len(), 68);
    assert_eq!(&data[..4], &[0xa9, 0x05, 0x9c, 0xbb]);
    assert_eq!(&data[4..16], &[0u8; 12]);
    assert_eq!(&data[16..36], &addr(ADDR2).bytes);
    assert_eq!(data[36], 0x0a);
    assert_eq!(&data[37..66], &[0u8; 29]);
    assert_eq!(&data[66..68], &[0x01, 0x02]);
}

#[test]
fn estimate_call_targets_distributor() {
    let c = Contracts::arbitrum();
    let req = build_estimate_tx(addr(ADDR1), &c);
    assert_eq!(req.to.bytes, addr("67a24ce4321ab3af51c2d0a4801c3e111d88c9d9").bytes);
    assert_eq!(req.from.bytes, addr(ADDR1).bytes);
    assert_eq!(req.data, vec![0x4e, 0x71, 0xd9, 0x2d]);
}

#[test]
fn pair_has_consecutive_nonces() {
    let mut w = wallet(KEY1);
    w.fetch_nonce(Some(u(5)));
    w.get_balance(Some(u(100)));
    let c = Contracts::arbitrum();
    let pair = build_pair(&w, &c, &params()).unwrap();
    assert_eq!(pair.claim.nonce, u(5));
    assert_eq!(pair.transfer.nonce, u(6));
    assert_eq!(pair.claim.gas, pair.transfer.gas);
    assert_eq!(pair.claim.gas_price, pair.transfer.gas_price);
    assert_eq!(pair.claim.to.bytes, c.distributor.bytes);
    assert_eq!(pair.transfer.to.bytes, addr("912ce59144191c1204e64559fe8253a0e49e6548").bytes);
    assert_eq!(pair.transfer.data, w.get_transfer_input());
    w.fetch_nonce(Some(Uint256::from_words([u64::MAX; 4])));
    assert!(build_pair(&w, &c, &params()).is_none());
}

#[test]
fn signing_refuses_chain_ids_above_the_cap() {
    let w = wallet(KEY1);
    let ok = TxParams { chain_id: 0x7fff_ffff_ffff_ffdb, gas_price: u(1), gas_limit: u(21_000) };
    let pair = build_pair(&w, &Contracts::arbitrum(), &ok).unwrap();
    assert!(w.sign_transaction(&pair.claim).is_some());
    let high = TxParams { chain_id: u64::MAX, ..ok };
    let pair = build_pair(&w, &Contracts::arbitrum(), &high).unwrap();
    assert!(w.sign_transaction(&pair.claim).is_none());
    let ks = KeyStore::make_keystore(vec![wallet(KEY1)]);
    assert!(ks.sign_transaction(&pair.claim).is_none());
}

#[test]
fn receiver_address_text_forms() {
    let lines = format!("{k}:0x{a}\n{k}: {s} {t} \n{k}:0X{a}\n{k}:{a}0\n", k = KEY1, a = ADDR2, s = &ADDR2[..10], t = &ADDR2[10..]);
    let ws = read_secrets_file(&chars(&lines), addr(SINK));
    assert_eq!(ws.len(), 4);
    assert_eq!(ws[0].receiver.bytes, addr(ADDR2).bytes);
    assert_eq!(ws[1].receiver.bytes, addr(ADDR2).bytes);
    assert_eq!(ws[2].receiver.bytes, addr(SINK).bytes);
    assert_eq!(ws[3].receiver.bytes, addr(SINK).bytes);
}

#[test]
fn signed_transaction_round_trips() {
    let mut w = wallet(KEY2);
    w.fetch_nonce(Some(u(11)));
    w.get_balance(Some(u(250)));
    let pair = build_pair(&w, &Contracts::arbitrum(), &params()).unwrap();
    for tx in [&pair.claim, &pair.transfer] {
        let bytes = w.sign_transaction(tx).unwrap();
        let (decoded, _sig) = TypedTransaction::decode_signed(&Rlp::new(&bytes)).unwrap();
        assert_eq!(decoded.nonce(), Some(&U256(tx.nonce.words())));
        assert_eq!(decoded.to_addr(), Some(&H160(tx.to.bytes)));
        assert_eq!(decoded.data().unwrap().to_vec(), tx.data);
        assert_eq!(decoded.from(), Some(&H160(addr(ADDR2).bytes)));
        assert_eq!(decoded.gas(), Some(&U256(tx.gas.words())));
        assert_eq!(decoded.chain_id().unwrap().as_u64(), 42161);
    }
}

#[test]
fn keystore_signs_only_known_senders() {
    let ks = KeyStore::make_keystore(vec![wallet(KEY1)]);
    let mut other = wallet(KEY2);
    other.fetch_nonce(Some(u(1)));
    let pair = build_pair(&other, &Contracts::arbitrum(), &params()).unwrap();
    assert!(ks.sign_transaction(&pair.claim).is_none());
    let mine = build_pair(&ks.wallets()[0], &Contracts::arbitrum(), &params()).unwrap();
    assert_eq!(ks.sign_transaction(&mine.claim), ks.wallets()[0].sign_transaction(&mine.claim));
}

#[test]
fn broadcast_states() {
    let s = send_transaction(TxState::Signed, TxEvent::Submission(false));
    assert_eq!(s, TxState::Rejected);
    let s = send_transaction(TxState::Signed, TxEvent::Submission(true));
    assert_eq!(s, TxState::Submitted);
    assert!(!all_settled(&vec![s]));
    assert_eq!(send_transaction(s, TxEvent::Mined(Some(1))), TxState::Succeeded);
    assert_eq!(send_transaction(s, TxEvent::Mined(Some(0))), TxState::Failed);
    assert_eq!(send_transaction(s, TxEvent::Mined(None)), TxState::Failed);
    assert_eq!(send_transaction(s, TxEvent::ReceiptError), TxState::Failed);
    assert_eq!(send_transaction(s, TxEvent::Dropped), TxState::Failed);
    assert_eq!(send_transaction(TxState::Succeeded, TxEvent::Mined(Some(0))), TxState::Succeeded);
    assert!(all_settled(&vec![TxState::Succeeded, TxState::Failed, TxState::Rejected]));
}

#[test]
fn end_to_end_three_accounts() {
    let mut ks = KeyStore::make_keystore(vec![wallet(KEY1), wallet(KEY2), wallet(KEY3)]);
    let order: Vec<[u8; 20]> = ks.wallets().iter().map(|w| w.address().bytes).collect();
    let balance_of = |a: &[u8; 20]| {
        if *a == addr(ADDR1).bytes {
            0
        } else if *a == addr(ADDR2).bytes {
            100
        } else {
            50
        }
    };
    let results = order.iter().map(|a| Some(u(balance_of(a)))).collect();
    let report = ks.get_balances(results);
    assert_eq!(report.total, Some(u(150)));
    assert_eq!(ks.wallets().len(), 3);
    assert_eq!(report.kept.len(), 2);
    let mut kept: Vec<u64> = report.kept.iter().map(|&i| ks.wallets()[i].balance.words()[0]).collect();
    kept.sort();
    assert_eq!(kept, vec![50, 100]);
    let nonces = (0..3).map(|i| if report.kept.contains(&i) { Some(u(i as u64)) } else { None }).collect();
    ks.fetch_nonces(nonces);
    let c = Contracts::arbitrum();
    let p = claim_params(42161, u(100_000_000), u(500_000), u(640_000));
    let pairs = build_transactions(&ks, &report.kept, &c, &p);
    assert_eq!(pairs.len(), 2);
    let signed = sign_transactions(&ks, &pairs);
    assert_eq!(signed.len(), 4);
    let events = [
        (true, TxEvent::Mined(Some(1))),
        (true, TxEvent::Mined(Some(0))),
        (false, TxEvent::Dropped),
        (true, TxEvent::ReceiptError),
    ];
    let mut states = vec![];
    for (accepted, receipt) in events {
        let mut s = send_transaction(TxState::Signed, TxEvent::Submission(accepted));
        if accepted {
            s = send_transaction(s, receipt);
        }
        states.push(s);
    }
    assert_eq!(states.len(), 4);
    assert!(all_settled(&states));
    assert!(states.iter().all(|s| *s != TxState::Submitted));
    for pair in &pairs {
        assert_eq!(pair.claim.gas, u(640_000));
    }
}

#[test]
fn balance_query_call_data() {
    let data = claimable_tokens_input(addr(ADDR1));
    let digest = ethers::utils::keccak256(b"claimableTokens(address)");
    assert_eq!(data.len(), 36);
    assert_eq!(&data[..4], &digest[..4]);
    assert_eq!(&data[4..16], &[0u8; 12]);
    assert_eq!(&data[16..36], &addr(ADDR1).bytes);
}

#[test]
fn private_key_text_forms() {
    let order = "FFFFFFFFFFFFFFFFFFFFFFFFFFFFFFFEBAAEDCE6AF48A03BBFD25E8CD0364141";
    let below = "fffffffffffffffffffffffffffffffebaaedce6af48a03bbfd25e8cd0364140";
    let zero = "0".repeat(64);
    let lines = format!("0x{k}\n0X{k}\n{z}\n{o}\n{b}\n{k}0\n", k = KEY1, z = zero, o = order, b = below);
    let ws = read_secrets_file(&chars(&lines), addr(SINK));
    // with a prefix the text is longer than 64 bytes and is read as a phrase
    assert_eq!(ws.len(), 1);
    assert_eq!(ws[0].key, key_bytes(below));
}
