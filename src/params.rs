//! Genesis parameters of each supported base chain and network.

use vstd::prelude::*;
use crate::pox::PoxConstants;
use crate::types::{BitcoinNetworkType, BurnchainHeaderHash};

verus! {

/// Height of the first mainnet block that is observed.
pub const BITCOIN_MAINNET_FIRST_BLOCK_HEIGHT: u64 = 666050;

/// Timestamp of the first observed mainnet block.
pub const BITCOIN_MAINNET_FIRST_BLOCK_TIMESTAMP: u32 = 1610643248;

/// Height of the first testnet block that is observed.
pub const BITCOIN_TESTNET_FIRST_BLOCK_HEIGHT: u64 = 2000000;

/// Timestamp of the first observed testnet block.
pub const BITCOIN_TESTNET_FIRST_BLOCK_TIMESTAMP: u32 = 1622691840;

/// Height of the first regtest block that is observed.
pub const BITCOIN_REGTEST_FIRST_BLOCK_HEIGHT: u64 = 0;

/// Timestamp of the first observed regtest block.
pub const BITCOIN_REGTEST_FIRST_BLOCK_TIMESTAMP: u32 = 0;


/// Bytes of the hash of the first observed block of a bitcoin network.
pub open spec fn genesis_hash_bytes(network: BitcoinNetworkType) -> Seq<u8> {
    match network {
        BitcoinNetworkType::Mainnet => seq![0x00u8, 0x00u8, 0x00u8, 0x00u8, 0x00u8, 0x00u8, 0x00u8, 0x00u8, 0x00u8, 0x0au8, 0xb2u8, 0x48u8, 0xc8u8, 0xe3u8, 0x5cu8, 0x57u8, 0x45u8, 0x14u8, 0xd0u8, 0x52u8, 0xa8u8, 0x3du8, 0xbcu8, 0x12u8, 0x66u8, 0x9eu8, 0x19u8, 0xbcu8, 0x43u8, 0xdfu8, 0x48u8, 0x6eu8],
        BitcoinNetworkType::Testnet => seq![0x00u8, 0x00u8, 0x00u8, 0x00u8, 0x00u8, 0x00u8, 0x01u8, 0x0du8, 0xd0u8, 0x86u8, 0x3eu8, 0xc3u8, 0xd7u8, 0xa0u8, 0xbau8, 0xe1u8, 0x7cu8, 0x19u8, 0x57u8, 0xaeu8, 0x1du8, 0xe9u8, 0xcbu8, 0xcdu8, 0xaeu8, 0x8eu8, 0x77u8, 0xaau8, 0xd3u8, 0x3eu8, 0x3bu8, 0x8cu8],
        BitcoinNetworkType::Regtest => seq![0x0fu8, 0x91u8, 0x88u8, 0xf1u8, 0x3cu8, 0xb7u8, 0xb2u8, 0xc7u8, 0x1fu8, 0x2au8, 0x33u8, 0x5eu8, 0x3au8, 0x4fu8, 0xc3u8, 0x28u8, 0xbfu8, 0x5bu8, 0xebu8, 0x43u8, 0x60u8, 0x12u8, 0xafu8, 0xcau8, 0x59u8, 0x0bu8, 0x1au8, 0x11u8, 0x46u8, 0x6eu8, 0x22u8, 0x06u8],
    }
}

fn genesis_hash(network: BitcoinNetworkType) -> (r: BurnchainHeaderHash)
    ensures
        r.0@ == genesis_hash_bytes(network),
{
    match network {
        BitcoinNetworkType::Mainnet => {
            let r = BurnchainHeaderHash([0x00, 0x00, 0x00, 0x00, 0x00, 0x00, 0x00, 0x00, 0x00, 0x0a, 0xb2, 0x48, 0xc8, 0xe3, 0x5c, 0x57, 0x45, 0x14, 0xd0, 0x52, 0xa8, 0x3d, 0xbc, 0x12, 0x66, 0x9e, 0x19, 0xbc, 0x43, 0xdf, 0x48, 0x6e]);
            assert(r.0@ =~= genesis_hash_bytes(network));
            r
        },
        BitcoinNetworkType::Testnet => {
            let r = BurnchainHeaderHash([0x00, 0x00, 0x00, 0x00, 0x00, 0x00, 0x01, 0x0d, 0xd0, 0x86, 0x3e, 0xc3, 0xd7, 0xa0, 0xba, 0xe1, 0x7c, 0x19, 0x57, 0xae, 0x1d, 0xe9, 0xcb, 0xcd, 0xae, 0x8e, 0x77, 0xaa, 0xd3, 0x3e, 0x3b, 0x8c]);
            assert(r.0@ =~= genesis_hash_bytes(network));
            r
        },
        BitcoinNetworkType::Regtest => {
            let r = BurnchainHeaderHash([0x0f, 0x91, 0x88, 0xf1, 0x3c, 0xb7, 0xb2, 0xc7, 0x1f, 0x2a, 0x33, 0x5e, 0x3a, 0x4f, 0xc3, 0x28, 0xbf, 0x5b, 0xeb, 0x43, 0x60, 0x12, 0xaf, 0xca, 0x59, 0x0b, 0x1a, 0x11, 0x46, 0x6e, 0x22, 0x06]);
            assert(r.0@ =~= genesis_hash_bytes(network));
            r
        },
    }
}

/// Height of the first observed block of a bitcoin network.
pub open spec fn genesis_height(network: BitcoinNetworkType) -> u64 {
    match network {
        BitcoinNetworkType::Mainnet => BITCOIN_MAINNET_FIRST_BLOCK_HEIGHT,
        BitcoinNetworkType::Testnet => BITCOIN_TESTNET_FIRST_BLOCK_HEIGHT,
        BitcoinNetworkType::Regtest => BITCOIN_REGTEST_FIRST_BLOCK_HEIGHT,
    }
}

/// Timestamp of the first observed block of a bitcoin network.
pub open spec fn genesis_timestamp(network: BitcoinNetworkType) -> u32 {
    match network {
        BitcoinNetworkType::Mainnet => BITCOIN_MAINNET_FIRST_BLOCK_TIMESTAMP,
        BitcoinNetworkType::Testnet => BITCOIN_TESTNET_FIRST_BLOCK_TIMESTAMP,
        BitcoinNetworkType::Regtest => BITCOIN_REGTEST_FIRST_BLOCK_TIMESTAMP,
    }
}

/// The name under which a bitcoin network is looked up.
pub open spec fn network_name_of(network: BitcoinNetworkType) -> Seq<char> {
    match network {
        BitcoinNetworkType::Mainnet => "mainnet"@,
        BitcoinNetworkType::Testnet => "testnet"@,
        BitcoinNetworkType::Regtest => "regtest"@,
    }
}

/// The network a name selects, if any.
pub open spec fn network_named(name: Seq<char>) -> Option<BitcoinNetworkType> {
    if name == "mainnet"@ {
        Some(BitcoinNetworkType::Mainnet)
    } else if name == "testnet"@ {
        Some(BitcoinNetworkType::Testnet)
    } else if name == "regtest"@ {
        Some(BitcoinNetworkType::Regtest)
    } else {
        None
    }
}

/// The immutable genesis descriptor of one base chain and network.
#[derive(Clone, Debug, PartialEq)]
pub struct BurnchainParameters {
    pub chain_name: String,
    pub network_name: String,
    pub network_id: u32,
    pub stable_confirmations: u32,
    pub consensus_hash_lifetime: u32,
    pub first_block_height: u64,
    pub first_block_hash: BurnchainHeaderHash,
    pub first_block_timestamp: u32,
    pub initial_reward_start_block: u64,
}

impl BurnchainParameters {
    /// This is the fixed parameter table of the given bitcoin network.
    pub open spec fn is_bitcoin(&self, network: BitcoinNetworkType) -> bool {
        let height = genesis_height(network);
        &&& self.chain_name@ == "bitcoin"@
        &&& self.network_name@ == network_name_of(network)
        &&& self.network_id == match network {
            BitcoinNetworkType::Mainnet => 0u32,
            BitcoinNetworkType::Testnet => 1u32,
            BitcoinNetworkType::Regtest => 2u32,
        }
        &&& self.stable_confirmations == if network == BitcoinNetworkType::Regtest {
            1u32
        } else {
            7u32
        }
        &&& self.consensus_hash_lifetime == 24
        &&& self.first_block_height == height
        &&& self.first_block_hash.0@ == genesis_hash_bytes(network)
        &&& self.first_block_timestamp == genesis_timestamp(network)
        &&& self.initial_reward_start_block == if network == BitcoinNetworkType::Testnet {
            height - 10_000
        } else {
            height as int
        }
    }

    /// Looks up the parameters of a chain and network; `None` for any pair
    /// other than bitcoin with mainnet, testnet or regtest.
    pub fn from_params(chain: &str, network: &str) -> (r: Option<BurnchainParameters>)
        ensures
            r is Some <==> (chain@ == "bitcoin"@ && network_named(network@) is Some),
            r is Some ==> r->Some_0.is_bitcoin(network_named(network@)->Some_0),
    {
        if !str_eq(chain, "bitcoin") {
            None
        } else if str_eq(network, "mainnet") {
            Some(BurnchainParameters::bitcoin_mainnet())
        } else if str_eq(network, "testnet") {
            Some(BurnchainParameters::bitcoin_testnet())
        } else if str_eq(network, "regtest") {
            Some(BurnchainParameters::bitcoin_regtest())
        } else {
            None
        }
    }

    /// The bitcoin mainnet parameters.
    pub fn bitcoin_mainnet() -> (r: BurnchainParameters)
        ensures
            r.is_bitcoin(BitcoinNetworkType::Mainnet),
    {
        BurnchainParameters {
            chain_name: String::from_str("bitcoin"),
            network_name: String::from_str("mainnet"),
            network_id: 0,
            stable_confirmations: 7,
            consensus_hash_lifetime: 24,
            first_block_height: BITCOIN_MAINNET_FIRST_BLOCK_HEIGHT,
            first_block_hash: genesis_hash(BitcoinNetworkType::Mainnet),
            first_block_timestamp: BITCOIN_MAINNET_FIRST_BLOCK_TIMESTAMP,
            initial_reward_start_block: BITCOIN_MAINNET_FIRST_BLOCK_HEIGHT,
        }
    }

    /// The bitcoin testnet parameters; rewards start 10 000 blocks before genesis.
    pub fn bitcoin_testnet() -> (r: BurnchainParameters)
        ensures
            r.is_bitcoin(BitcoinNetworkType::Testnet),
    {
        BurnchainParameters {
            chain_name: String::from_str("bitcoin"),
            network_name: String::from_str("testnet"),
            network_id: 1,
            stable_confirmations: 7,
            consensus_hash_lifetime: 24,
            first_block_height: BITCOIN_TESTNET_FIRST_BLOCK_HEIGHT,
            first_block_hash: genesis_hash(BitcoinNetworkType::Testnet),
            first_block_timestamp: BITCOIN_TESTNET_FIRST_BLOCK_TIMESTAMP,
            initial_reward_start_block: BITCOIN_TESTNET_FIRST_BLOCK_HEIGHT - 10_000,
        }
    }

    /// The bitcoin regtest parameters.
    pub fn bitcoin_regtest() -> (r: BurnchainParameters)
        ensures
            r.is_bitcoin(BitcoinNetworkType::Regtest),
    {
        BurnchainParameters {
            chain_name: String::from_str("bitcoin"),
            network_name: String::from_str("regtest"),
            network_id: 2,
            stable_confirmations: 1,
            consensus_hash_lifetime: 24,
            first_block_height: BITCOIN_REGTEST_FIRST_BLOCK_HEIGHT,
            first_block_hash: genesis_hash(BitcoinNetworkType::Regtest),
            first_block_timestamp: BITCOIN_REGTEST_FIRST_BLOCK_TIMESTAMP,
            initial_reward_start_block: BITCOIN_REGTEST_FIRST_BLOCK_HEIGHT,
        }
    }

    /// Every network id other than mainnet's counts as a test network.
    pub fn is_testnet(network_id: u32) -> (r: bool)
        ensures
            r == (network_id != 0),
    {
        if network_id == 0 {
            false
        } else {
            true
        }
    }
}

fn str_eq(a: &str, b: &str) -> (r: bool)
    ensures
        r == (a@ == b@),
{
    a.to_owned() == b.to_owned()
}

/// The configuration bundle threaded through the processing of one session.
#[derive(Clone, Debug, PartialEq)]
pub struct Burnchain {
    pub peer_version: u32,
    pub network_id: u32,
    pub chain_name: String,
    pub network_name: String,
    pub working_dir: String,
    pub consensus_hash_lifetime: u32,
    pub stable_confirmations: u32,
    pub first_block_height: u64,
    pub first_block_hash: BurnchainHeaderHash,
    pub first_block_timestamp: u32,
    pub pox_constants: PoxConstants,
    pub initial_reward_start_block: u64,
}

} // verus!
