use std::collections::HashMap;

use burnchains::chain::{BurnchainTransaction, StacksHyperOp, StacksHyperOpType};
use burnchains::error::{DbError, Error, OpError};
use burnchains::params::{
    BurnchainParameters, BITCOIN_MAINNET_FIRST_BLOCK_HEIGHT, BITCOIN_TESTNET_FIRST_BLOCK_HEIGHT,
};
use burnchains::pox::{PoxConstants, OUTPUTS_PER_COMMIT, POX_SUNSET_END, POX_SUNSET_START};
use burnchains::types::{
    to_hex, BlockHeaderHash, BurnchainHeaderHash, MagicBytes, PoxId, StacksBlockId, Txid,
};
use burnchains::view::{BurnchainView, MAX_NEIGHBOR_BLOCK_DELAY};
use sha2::Digest;

fn rules_hold(p: &PoxConstants) -> bool {
    p.anchor_threshold > p.prepare_length / 2
        && p.prepare_length < p.reward_cycle_length
        && p.sunset_start <= p.sunset_end
}

#[test]
fn default_constant_sets_obey_rules() {
    let main = PoxConstants::mainnet_default();
    let test = PoxConstants::testnet_default();
    let reg = PoxConstants::regtest_default();
    assert!(rules_hold(&main));
    assert!(rules_hold(&test));
    assert!(rules_hold(&reg));
    assert_eq!(main.reward_cycle_length, 2100);
    assert_eq!(main.prepare_length, 100);
    assert_eq!(main.anchor_threshold, 80);
    assert_eq!(main.sunset_start, BITCOIN_MAINNET_FIRST_BLOCK_HEIGHT + POX_SUNSET_START);
    assert_eq!(main.sunset_end, BITCOIN_MAINNET_FIRST_BLOCK_HEIGHT + POX_SUNSET_END);
    assert_eq!(test.reward_cycle_length, 1050);
    assert_eq!(test.prepare_length, 50);
    assert_eq!(test.sunset_start, BITCOIN_TESTNET_FIRST_BLOCK_HEIGHT + 100_000);
    assert_eq!(reg.pox_rejection_fraction, 3333333333333333);
    assert_eq!(reg.sunset_end, 500_000);
}

#[test]
fn regtest_reward_slots() {
    let reg = PoxConstants::regtest_default();
    assert_eq!(reg.reward_slots(), 4 * OUTPUTS_PER_COMMIT as u32);
    assert_eq!(reg.reward_slots(), 8);
}

#[test]
fn reward_slots_of_other_sets() {
    assert_eq!(PoxConstants::test_default().reward_slots(), 10);
    assert_eq!(PoxConstants::mainnet_default().reward_slots(), 4000);
    assert_eq!(PoxConstants::testnet_default().reward_slots(), 2000);
}

#[test]
fn constructor_keeps_arguments() {
    let p = PoxConstants::new(10, 5, 3, 25, 5, 5000, 10000);
    assert_eq!(p, PoxConstants::test_default());
    assert_eq!(p.pox_rejection_fraction, 25);
    assert_eq!(p.pox_participation_threshold_pct, 5);
}

#[test]
fn full_participation_is_enough() {
    for pct in [0u64, 1, 5, 50, 99] {
        let p = PoxConstants::new(10, 5, 3, 25, pct, 5000, 10000);
        assert!(p.enough_participation(1000, 1000));
        assert!(p.enough_participation(40_000_000_000_000_000, 40_000_000_000_000_000));
    }
}

#[test]
fn no_participation_is_not_enough() {
    for pct in [1u64, 5, 50, 100] {
        let p = PoxConstants::new(10, 5, 3, 25, pct, 5000, 10000);
        assert!(!p.enough_participation(0, 1000));
        assert!(!p.enough_participation(0, 1));
    }
}

#[test]
fn participation_threshold_boundary() {
    let p = PoxConstants::test_default();
    // 5% of 1000 is 50: exactly the threshold is not enough.
    assert!(!p.enough_participation(50, 1000));
    assert!(p.enough_participation(51, 1000));
    let zero = PoxConstants::new(10, 5, 3, 25, 0, 5000, 10000);
    assert!(!zero.enough_participation(0, 1000));
}

#[test]
fn participation_on_large_supplies() {
    let p = PoxConstants::new(10, 5, 3, 25, 100, 5000, 10000);
    let liquid: u128 = 40_000_000_000_000_000;
    assert!(!p.enough_participation(liquid, liquid));
    assert!(p.enough_participation(liquid + 1, liquid));
    let test = PoxConstants::testnet_default();
    assert!(test.enough_participation(liquid / 50 + 1, liquid));
    assert!(!test.enough_participation(liquid / 50, liquid));
}

#[test]
fn lookup_known_and_unknown_pairs() {
    let main = BurnchainParameters::from_params("bitcoin", "mainnet").unwrap();
    assert_eq!(main.first_block_height, BITCOIN_MAINNET_FIRST_BLOCK_HEIGHT);
    assert_eq!(main.first_block_height, 666050);
    assert_eq!(main, BurnchainParameters::bitcoin_mainnet());
    assert!(BurnchainParameters::from_params("ethereum", "mainnet").is_none());
    assert!(BurnchainParameters::from_params("bitcoin", "signet").is_none());
    assert_eq!(
        BurnchainParameters::from_params("bitcoin", "testnet").unwrap(),
        BurnchainParameters::bitcoin_testnet()
    );
    assert_eq!(
        BurnchainParameters::from_params("bitcoin", "regtest").unwrap(),
        BurnchainParameters::bitcoin_regtest()
    );
}

#[test]
fn parameter_tables() {
    let main = BurnchainParameters::bitcoin_mainnet();
    assert_eq!(main.stable_confirmations, 7);
    assert_eq!(main.consensus_hash_lifetime, 24);
    assert_eq!(main.network_id, 0);
    assert_eq!(main.initial_reward_start_block, main.first_block_height);
    assert_eq!(
        main.first_block_hash.to_hex(),
        "0000000000000000000ab248c8e35c574514d052a83dbc12669e19bc43df486e"
    );
    let test = BurnchainParameters::bitcoin_testnet();
    assert_eq!(test.network_id, 1);
    assert_eq!(test.initial_reward_start_block, 2_000_000 - 10_000);
    assert_eq!(test.network_name, "testnet");
    let reg = BurnchainParameters::bitcoin_regtest();
    assert_eq!(reg.stable_confirmations, 1);
    assert_eq!(reg.network_id, 2);
    assert_eq!(reg.chain_name, "bitcoin");
    assert_eq!(
        reg.first_block_hash.to_hex(),
        "0f9188f13cb7b2c71f2a335e3a4fc328bf5beb436012afca590b1a11466e2206"
    );
}

#[test]
fn testnet_is_any_nonzero_id() {
    assert!(!BurnchainParameters::is_testnet(0));
    assert!(BurnchainParameters::is_testnet(1));
    assert!(BurnchainParameters::is_testnet(2));
    assert!(BurnchainParameters::is_testnet(u32::MAX));
}

fn sample_tx() -> BurnchainTransaction {
    BurnchainTransaction::StacksBase(StacksHyperOp {
        txid: Txid([7; 32]),
        in_block: StacksBlockId([1; 32]),
        opcode: b'[',
        event_index: 12,
        event: StacksHyperOpType::BlockCommit { subnet_block_hash: BlockHeaderHash([2; 32]) },
    })
}

#[test]
fn transaction_accessors_pass_through() {
    let tx = sample_tx();
    assert_eq!(tx.txid(), Txid([7; 32]));
    assert_eq!(tx.vtxindex(), 12);
    assert_eq!(tx.opcode(), b'[');
    assert_eq!(tx.get_burn_amount(), 0);
}

#[test]
fn hex_forms() {
    assert_eq!(to_hex(&[0x00, 0x0f, 0xa5, 0xff]), "000fa5ff");
    assert_eq!(to_hex(&[]), "");
    assert_eq!(MagicBytes::default(), MagicBytes([0x69, 0x64]));
    assert_eq!(MagicBytes::default().to_hex(), "6964");
    let mut id = [0u8; 32];
    id[31] = 0xab;
    assert_eq!(Txid(id).to_hex(), format!("{}ab", "0".repeat(62)));
}

fn sample_view() -> BurnchainView {
    BurnchainView {
        burn_block_height: 100,
        burn_block_hash: BurnchainHeaderHash([0x11; 32]),
        burn_stable_block_height: 93,
        burn_stable_block_hash: BurnchainHeaderHash([0x22; 32]),
        last_burn_block_hashes: HashMap::new(),
    }
}

fn digest_of_height(i: u64) -> [u8; 32] {
    let mut hasher = sha2::Sha256::new();
    hasher.input(&i.to_le_bytes());
    let out = hasher.result();
    let mut r = [0u8; 32];
    r.copy_from_slice(&out[..]);
    r
}

#[test]
fn view_map_covers_window() {
    for delay in [0u64, 7, 50, 93, 200] {
        let mut view = sample_view();
        view.fill_last_burn_block_hashes(delay);
        let oldest = 93u64.saturating_sub(delay);
        let mut keys: Vec<u64> = view.last_burn_block_hashes.keys().cloned().collect();
        keys.sort();
        assert_eq!(keys, (oldest..=100).collect::<Vec<u64>>());
        assert_eq!(view.last_burn_block_hashes[&93], BurnchainHeaderHash([0x22; 32]));
        assert_eq!(view.last_burn_block_hashes[&100], BurnchainHeaderHash([0x11; 32]));
        assert_eq!(view.burn_block_height, 100);
        assert_eq!(view.burn_stable_block_height, 93);
    }
}

#[test]
fn view_filler_hashes_are_digests_of_heights() {
    let mut view = sample_view();
    view.fill_last_burn_block_hashes(7);
    let h = view.last_burn_block_hashes[&95];
    assert_eq!(h, BurnchainHeaderHash(digest_of_height(95)));
    assert_ne!(h.0[..8], 95u64.to_le_bytes()[..]);
    assert_ne!(view.last_burn_block_hashes[&86], view.last_burn_block_hashes[&87]);
}

#[test]
fn view_default_window() {
    let mut view = sample_view();
    view.burn_block_height = 1000;
    view.burn_stable_block_height = 993;
    view.make_test_data();
    assert_eq!(view.last_burn_block_hashes.len() as u64, 1000 - (993 - MAX_NEIGHBOR_BLOCK_DELAY) + 1);
    assert!(view.last_burn_block_hashes.contains_key(&(993 - 288)));
    assert!(!view.last_burn_block_hashes.contains_key(&(993 - 289)));
    let mut small = sample_view();
    small.make_test_data();
    assert_eq!(small.last_burn_block_hashes.len(), 101);
}

#[test]
fn view_with_stable_above_tip_is_empty_below_window() {
    let mut view = sample_view();
    view.burn_block_height = 10;
    view.burn_stable_block_height = 500;
    view.fill_last_burn_block_hashes(7);
    assert!(view.last_burn_block_hashes.is_empty());
}

#[test]
fn wrapped_storage_error_displays_alike() {
    let cases = vec![
        DbError::NotFoundError,
        DbError::Corruption,
        DbError::ReadOnly,
        DbError::Other("disk on fire".to_string()),
    ];
    for db in cases {
        let direct = db.to_string();
        let wrapped: Error = db.into();
        assert!(matches!(wrapped, Error::DBError(_)));
        assert_eq!(wrapped.to_string(), direct);
    }
    assert_eq!(DbError::NotFoundError.to_string(), "Object not found");
    let io = std::io::Error::new(std::io::ErrorKind::Other, "no space left");
    let text = io.to_string();
    let wrapped = Error::DBError(DbError::IOError(io));
    assert_eq!(wrapped.to_string(), text);
}

#[test]
fn error_texts() {
    assert_eq!(Error::UnsupportedBurnchain.to_string(), "Unsupported burnchain");
    assert_eq!(Error::ParseError.to_string(), "Parse error");
    assert_eq!(Error::MissingHeaders.to_string(), "Missing block headers");
    assert_eq!(Error::TrySyncAgain.to_string(), "Try synchronizing again");
    assert_eq!(Error::CoordinatorClosed.to_string(), "ChainsCoordinator channel hung up");
    assert_eq!(Error::Bitcoin("rpc down".to_string()).to_string(), "rpc down");
    assert_eq!(
        Error::OpError(OpError { reason: "bad commit".to_string() }).to_string(),
        "bad commit"
    );
    let io = std::io::Error::new(std::io::ErrorKind::NotFound, "gone");
    let text = io.to_string();
    assert_eq!(Error::FSError(io).to_string(), text);
    assert_eq!(
        Error::UnknownBlock(BurnchainHeaderHash([0xab; 32])).to_string(),
        format!("Unknown burnchain block {}", "ab".repeat(32))
    );
    assert_eq!(
        Error::NonCanonicalPoxId(PoxId(vec![true, false, true]), PoxId(vec![true, true]))
            .to_string(),
        "101 is not a descendant of the canonical parent PoXId: 11"
    );
}
