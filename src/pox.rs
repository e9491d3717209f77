//! Proof-of-transfer economics: reward-cycle geometry, participation and sunset.

use vstd::prelude::*;
use crate::params::{
    BITCOIN_MAINNET_FIRST_BLOCK_HEIGHT, BITCOIN_REGTEST_FIRST_BLOCK_HEIGHT,
    BITCOIN_TESTNET_FIRST_BLOCK_HEIGHT,
};

verus! {

/// Reward-cycle length on mainnet, in base-chain blocks.
pub const POX_REWARD_CYCLE_LENGTH: u32 = 2100;

/// Prepare-phase length on mainnet, in base-chain blocks.
pub const POX_PREPARE_WINDOW_LENGTH: u32 = 100;

/// Offset of the sunset start from the genesis height.
pub const POX_SUNSET_START: u64 = 100_000;

/// Offset of the end of the sunset from the genesis height.
pub const POX_SUNSET_END: u64 = POX_SUNSET_START + 400_000;

/// Number of reward outputs that one block commitment pays.
pub const OUTPUTS_PER_COMMIT: usize = 2;

/// The structural rules every set of proof-of-transfer constants obeys.
pub open spec fn pox_rules_hold(
    reward_cycle_length: u32,
    prepare_length: u32,
    anchor_threshold: u32,
    sunset_start: u64,
    sunset_end: u64,
) -> bool {
    &&& anchor_threshold > prepare_length / 2
    &&& prepare_length < reward_cycle_length
    &&& sunset_start <= sunset_end
}

/// Whether `participating` is more than `threshold_pct` percent of `liquid`.
pub open spec fn exceeds_threshold(threshold_pct: u64, participating: int, liquid: int) -> bool {
    participating * 100 > liquid * threshold_pct
}

/// The immutable proof-of-transfer ruleset of one network.
#[derive(Clone, Copy, Debug, PartialEq)]
pub struct PoxConstants {
    /// Length of a reward cycle, in base-chain blocks.
    pub reward_cycle_length: u32,
    /// Length of the prepare phase, in base-chain blocks.
    pub prepare_length: u32,
    /// Confirmations an anchor block needs; more than half the prepare phase.
    pub anchor_threshold: u32,
    /// Fraction of liquid supply that must vote to reject proof-of-transfer.
    pub pox_rejection_fraction: u64,
    /// Percentage of liquid supply that must participate.
    pub pox_participation_threshold_pct: u64,
    /// One past the last height of the sunset phase.
    pub sunset_end: u64,
    /// First height of the sunset phase.
    pub sunset_start: u64,
}

impl PoxConstants {
    /// The construction rules hold of this value.
    pub open spec fn wf(&self) -> bool {
        pox_rules_hold(
            self.reward_cycle_length,
            self.prepare_length,
            self.anchor_threshold,
            self.sunset_start,
            self.sunset_end,
        )
    }

    /// Reward slots per cycle: the reward-phase blocks times the outputs of a commitment.
    pub open spec fn spec_reward_slots(&self) -> int {
        (self.reward_cycle_length - self.prepare_length) * OUTPUTS_PER_COMMIT
    }

    /// Builds a ruleset from compiled-in constants. The rules are a precondition:
    /// the values are never taken from untrusted input, and a source that does
    /// must check them before this call.
    pub fn new(
        reward_cycle_length: u32,
        prepare_length: u32,
        anchor_threshold: u32,
        pox_rejection_fraction: u64,
        pox_participation_threshold_pct: u64,
        sunset_start: u64,
        sunset_end: u64,
    ) -> (r: PoxConstants)
        requires
            pox_rules_hold(
                reward_cycle_length,
                prepare_length,
                anchor_threshold,
                sunset_start,
                sunset_end,
            ),
        ensures
            r.wf(),
            r.reward_cycle_length == reward_cycle_length,
            r.prepare_length == prepare_length,
            r.anchor_threshold == anchor_threshold,
            r.pox_rejection_fraction == pox_rejection_fraction,
            r.pox_participation_threshold_pct == pox_participation_threshold_pct,
            r.sunset_start == sunset_start,
            r.sunset_end == sunset_end,
    {
        PoxConstants {
            reward_cycle_length,
            prepare_length,
            anchor_threshold,
            pox_rejection_fraction,
            pox_participation_threshold_pct,
            sunset_start,
            sunset_end,
        }
    }

    /// A small ruleset for exercising the logic: 20 reward slots, a 5-block prepare phase.
    pub fn test_default() -> (r: PoxConstants)
        ensures
            r.wf(),
            r.reward_cycle_length == 10,
            r.prepare_length == 5,
            r.anchor_threshold == 3,
            r.pox_rejection_fraction == 25,
            r.pox_participation_threshold_pct == 5,
            r.sunset_start == 5000,
            r.sunset_end == 10000,
    {
        PoxConstants::new(10, 5, 3, 25, 5, 5000, 10000)
    }

    /// Reward slots per cycle.
    pub fn reward_slots(&self) -> (r: u32)
        requires
            self.wf(),
            self.spec_reward_slots() <= u32::MAX,
        ensures
            r == self.spec_reward_slots(),
    {
        (self.reward_cycle_length - self.prepare_length) * (OUTPUTS_PER_COMMIT as u32)
    }

    /// Whether `participating_ustx` is enough, out of `liquid_ustx`, to engage in
    /// proof-of-transfer in the next reward cycle. Both products are computed
    /// exactly; one that does not fit in 128 bits is excluded by the precondition.
    pub fn enough_participation(&self, participating_ustx: u128, liquid_ustx: u128) -> (r: bool)
        requires
            participating_ustx * 100 <= u128::MAX,
            liquid_ustx * self.pox_participation_threshold_pct <= u128::MAX,
        ensures
            r == exceeds_threshold(
                self.pox_participation_threshold_pct,
                participating_ustx as int,
                liquid_ustx as int,
            ),
    {
        let lhs = participating_ustx.checked_mul(100);
        let rhs = liquid_ustx.checked_mul(self.pox_participation_threshold_pct as u128);
        match (lhs, rhs) {
            (Some(a), Some(b)) => a > b,
            _ => {
                assert(false);
                false
            },
        }
    }

    /// The mainnet ruleset.
    pub fn mainnet_default() -> (r: PoxConstants)
        ensures
            r.wf(),
            r.reward_cycle_length == POX_REWARD_CYCLE_LENGTH,
            r.prepare_length == POX_PREPARE_WINDOW_LENGTH,
            r.anchor_threshold == 80,
            r.pox_rejection_fraction == 25,
            r.pox_participation_threshold_pct == 5,
            r.sunset_start == BITCOIN_MAINNET_FIRST_BLOCK_HEIGHT + POX_SUNSET_START,
            r.sunset_end == BITCOIN_MAINNET_FIRST_BLOCK_HEIGHT + POX_SUNSET_END,
    {
        PoxConstants::new(
            POX_REWARD_CYCLE_LENGTH,
            POX_PREPARE_WINDOW_LENGTH,
            80,
            25,
            5,
            BITCOIN_MAINNET_FIRST_BLOCK_HEIGHT + POX_SUNSET_START,
            BITCOIN_MAINNET_FIRST_BLOCK_HEIGHT + POX_SUNSET_END,
        )
    }

    /// The testnet ruleset: half the mainnet cycle and prepare phase.
    pub fn testnet_default() -> (r: PoxConstants)
        ensures
            r.wf(),
            r.reward_cycle_length == POX_REWARD_CYCLE_LENGTH / 2,
            r.prepare_length == POX_PREPARE_WINDOW_LENGTH / 2,
            r.anchor_threshold == 40,
            r.pox_rejection_fraction == 12,
            r.pox_participation_threshold_pct == 2,
            r.sunset_start == BITCOIN_TESTNET_FIRST_BLOCK_HEIGHT + POX_SUNSET_START,
            r.sunset_end == BITCOIN_TESTNET_FIRST_BLOCK_HEIGHT + POX_SUNSET_END,
    {
        PoxConstants::new(
            POX_REWARD_CYCLE_LENGTH / 2,
            POX_PREPARE_WINDOW_LENGTH / 2,
            40,
            12,
            2,
            BITCOIN_TESTNET_FIRST_BLOCK_HEIGHT + POX_SUNSET_START,
            BITCOIN_TESTNET_FIRST_BLOCK_HEIGHT + POX_SUNSET_END,
        )
    }

    /// The regtest ruleset: five-block cycles with a one-block prepare phase.
    pub fn regtest_default() -> (r: PoxConstants)
        ensures
            r.wf(),
            r.reward_cycle_length == 5,
            r.prepare_length == 1,
            r.anchor_threshold == 1,
            r.pox_rejection_fraction == 3333333333333333,
            r.pox_participation_threshold_pct == 1,
            r.sunset_start == BITCOIN_REGTEST_FIRST_BLOCK_HEIGHT + POX_SUNSET_START,
            r.sunset_end == BITCOIN_REGTEST_FIRST_BLOCK_HEIGHT + POX_SUNSET_END,
    {
        PoxConstants::new(
            5,
            1,
            1,
            3333333333333333,
            1,
            BITCOIN_REGTEST_FIRST_BLOCK_HEIGHT + POX_SUNSET_START,
            BITCOIN_REGTEST_FIRST_BLOCK_HEIGHT + POX_SUNSET_END,
        )
    }
}

/// With any threshold below one hundred percent, a full, non-empty liquid
/// supply participating is enough.
pub proof fn lemma_full_participation_is_enough(threshold_pct: u64, liquid: u128)
    requires
        threshold_pct < 100,
        liquid > 0,
    ensures
        exceeds_threshold(threshold_pct, liquid as int, liquid as int),
{
    assert(liquid * 100 > liquid * threshold_pct) by (nonlinear_arith)
        requires
            threshold_pct < 100,
            liquid > 0,
    ;
}

/// With any positive threshold, no participation is not enough.
pub proof fn lemma_no_participation_is_not_enough(threshold_pct: u64, liquid: u128)
    requires
        threshold_pct > 0,
    ensures
        !exceeds_threshold(threshold_pct, 0, liquid as int),
{
    assert(liquid * threshold_pct >= 0) by (nonlinear_arith);
}

/// Supplies up to 10^18 with thresholds up to one hundred percent never
/// overflow the participation check.
pub proof fn lemma_participation_never_overflows(
    pox: PoxConstants,
    participating: u128,
    liquid: u128,
)
    requires
        pox.pox_participation_threshold_pct <= 100,
        participating <= 1_000_000_000_000_000_000,
        liquid <= 1_000_000_000_000_000_000,
    ensures
        participating * 100 <= u128::MAX,
        liquid * pox.pox_participation_threshold_pct <= u128::MAX,
{
    let pct = pox.pox_participation_threshold_pct;
    assert(liquid * pct <= 1_000_000_000_000_000_000 * 100) by (nonlinear_arith)
        requires
            pct <= 100,
            liquid <= 1_000_000_000_000_000_000,
    ;
}

} // verus!
