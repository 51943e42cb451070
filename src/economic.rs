//! Rewards and the economic state of finalized blocks.
use vstd::prelude::*;
use crate::block::Header;
use crate::chain::ChainRpcImpl;
use crate::hash::H256;
use crate::snapshot::{
    Snapshot, block_reward_spec, secondary_issuance_spec, spec_block_ext, spec_block_hash, spec_block_number,
    spec_epoch, spec_header, spec_is_main_chain,
};

verus! {

/// The reward of a block's miner, in shannons.
#[derive(Clone, Copy, Debug, PartialEq, Eq)]
pub struct BlockReward {
    pub total: u64,
    pub primary: u64,
    pub secondary: u64,
    pub tx_fee: u64,
    pub proposal_reward: u64,
}

/// What a block issues, in shannons.
#[derive(Clone, Copy, Debug, PartialEq, Eq)]
pub struct BlockIssuance {
    pub primary: u64,
    pub secondary: u64,
}

/// The miner's reward split by source, in shannons.
#[derive(Clone, Copy, Debug, PartialEq, Eq)]
pub struct MinerReward {
    pub primary: u64,
    pub secondary: u64,
    pub committed: u64,
    pub proposal: u64,
}

/// The economic state of a finalized block. `finalized_at` is the hash of the
/// block that finalizes it, `finalization_delay_length` blocks later.
#[derive(Clone, Copy, Debug, PartialEq, Eq)]
pub struct BlockEconomicState {
    pub issuance: BlockIssuance,
    pub miner_reward: MinerReward,
    pub txs_fee: u64,
    pub finalized_at: H256,
}

pub open spec fn miner_reward_of(r: BlockReward) -> MinerReward {
    MinerReward { primary: r.primary, secondary: r.secondary, committed: r.tx_fee, proposal: r.proposal_reward }
}

/// The sum of the fees, in unbounded integers.
pub open spec fn fees_total(fees: Seq<u64>) -> int
    decreases fees.len(),
{
    if fees.len() == 0 {
        0
    } else {
        fees_total(fees.drop_last()) + fees.last()
    }
}

/// The checked sum of the fees: `None` when it overflows.
pub open spec fn checked_fees(fees: Seq<u64>) -> Option<u64> {
    if fees_total(fees) <= u64::MAX {
        Some(fees_total(fees) as u64)
    } else {
        None
    }
}

proof fn lemma_fees_total_prefix(fees: Seq<u64>, k: int)
    requires
        0 <= k <= fees.len(),
    ensures
        0 <= fees_total(fees.subrange(0, k)) <= fees_total(fees),
    decreases fees.len(),
{
    if fees.len() > 0 {
        if k == fees.len() {
            assert(fees.subrange(0, k) =~= fees);
            lemma_fees_total_prefix(fees.drop_last(), k - 1);
        } else {
            lemma_fees_total_prefix(fees.drop_last(), k);
            assert(fees.drop_last().subrange(0, k) =~= fees.subrange(0, k));
        }
    }
}

/// The checked sum of transaction fees.
pub fn sum_fees(fees: &Vec<u64>) -> (r: Option<u64>)
    ensures
        r == checked_fees(fees@),
{
    let mut acc: u64 = 0;
    let mut i: usize = 0;
    while i < fees.len()
        invariant
            0 <= i <= fees@.len(),
            acc as int == fees_total(fees@.subrange(0, i as int)),
        decreases fees@.len() - i,
    {
        assert(fees@.subrange(0, i as int + 1).drop_last() =~= fees@.subrange(0, i as int));
        match acc.checked_add(fees[i]) {
            Some(v) => acc = v,
            None => {
                proof {
                    lemma_fees_total_prefix(fees@, i as int + 1);
                }
                return None;
            },
        }
        i = i + 1;
    }
    assert(fees@.subrange(0, fees@.len() as int) =~= fees@);
    Some(acc)
}

/// What `get_block_economic_state` returns, given the reward the calculator
/// computes for the block (`None` when it could not).
pub open spec fn economic_state_spec(s: Snapshot, hash: H256, reward: Option<BlockReward>) -> Option<BlockEconomicState> {
    match spec_block_number(s, hash@) {
        None => None,
        Some(n) => {
            let delay = s.consensus.finalization_delay_length;
            if n == 0 || (s.tip.number as int) < n + delay {
                None
            } else {
                match spec_block_hash(s, (n + delay) as u64) {
                    None => None,
                    Some(finalized_at) => match spec_block_ext(s, hash@) {
                        None => None,
                        Some(ext) => match spec_epoch(s, ext.epoch_number) {
                            None => None,
                            Some(e) => match (
                                block_reward_spec(e, n),
                                secondary_issuance_spec(e, n, s.consensus.secondary_epoch_reward),
                                checked_fees(ext.txs_fees@),
                                spec_header(s, hash@),
                                reward,
                            ) {
                                (Some(primary), Some(secondary), Some(txs_fee), Some(_), Some(r)) => Some(
                                    BlockEconomicState {
                                        issuance: BlockIssuance { primary, secondary },
                                        miner_reward: miner_reward_of(r),
                                        txs_fee,
                                        finalized_at,
                                    },
                                ),
                                _ => None,
                            },
                        },
                    },
                }
            }
        },
    }
}

/// Whether the cellbase reward of block `hash` is owed: the block is on the
/// main chain, its header and its parent's are known, and the parent is at
/// least `finalization_delay_length` deep.
pub open spec fn cellbase_parent_spec(s: Snapshot, hash: Seq<u8>) -> Option<Header> {
    if !spec_is_main_chain(s, hash) {
        None
    } else {
        match spec_header(s, hash) {
            None => None,
            Some(h) => match spec_header(s, h.parent_hash@) {
                None => None,
                Some(p) => if p.number < s.consensus.finalization_delay_length {
                    None
                } else {
                    Some(p)
                },
            },
        }
    }
}

impl ChainRpcImpl {
    /// The parent whose finalization reward the cellbase of block `hash`
    /// pays, when it is owed.
    pub fn cellbase_reward_parent(&self, hash: &H256) -> (r: Option<&Header>)
        ensures
            r matches Some(p) ==> cellbase_parent_spec(self.snapshot, hash@) == Some(*p),
            r is None ==> cellbase_parent_spec(self.snapshot, hash@) is None,
    {
        if !self.snapshot.is_main_chain(hash) {
            return None;
        }
        let header = match self.snapshot.get_block_header(hash) {
            Some(h) => h,
            None => return None,
        };
        let parent = match self.snapshot.get_block_header(&header.parent_hash) {
            Some(p) => p,
            None => return None,
        };
        if parent.number < self.snapshot.consensus.finalization_delay_length {
            None
        } else {
            Some(parent)
        }
    }

    /// The reward that the cellbase of block `hash` pays. `reward` is what the
    /// reward calculator gives for finalizing `cellbase_reward_parent(hash)`.
    pub fn get_cellbase_output_capacity_details(&self, hash: &H256, reward: Option<BlockReward>) -> (r: Option<
        BlockReward,
    >)
        ensures
            cellbase_parent_spec(self.snapshot, hash@) is None ==> r is None,
            cellbase_parent_spec(self.snapshot, hash@) is Some ==> r == reward,
    {
        if self.cellbase_reward_parent(hash).is_some() {
            reward
        } else {
            None
        }
    }

    /// The economic state of block `hash` once it is finalized. `reward` is
    /// what the reward calculator gives for the block's header.
    pub fn get_block_economic_state(&self, hash: &H256, reward: Option<BlockReward>) -> (r: Option<
        BlockEconomicState,
    >)
        ensures
            r == economic_state_spec(self.snapshot, *hash, reward),
    {
        let snapshot = &self.snapshot;
        let block_number = match snapshot.get_block_number(hash) {
            Some(n) => n,
            None => return None,
        };
        let delay_length = snapshot.consensus.finalization_delay_length;
        let finalized_at_number = match block_number.checked_add(delay_length) {
            Some(n) => n,
            None => return None,
        };
        if block_number == 0 || snapshot.tip_number() < finalized_at_number {
            return None;
        }
        let finalized_at = match snapshot.get_block_hash(finalized_at_number) {
            Some(h) => h,
            None => return None,
        };
        let ext = match snapshot.get_block_ext(hash) {
            Some(e) => e,
            None => return None,
        };
        let epoch = match snapshot.get_epoch_ext(ext.epoch_number) {
            Some(e) => e,
            None => return None,
        };
        let primary = match epoch.block_reward(block_number) {
            Some(p) => p,
            None => return None,
        };
        let secondary = match epoch.secondary_block_issuance(
            block_number,
            snapshot.consensus.secondary_epoch_reward,
        ) {
            Some(s) => s,
            None => return None,
        };
        let txs_fee = match sum_fees(&ext.txs_fees) {
            Some(f) => f,
            None => return None,
        };
        if snapshot.get_block_header(hash).is_none() {
            return None;
        }
        match reward {
            Some(r) => Some(
                BlockEconomicState {
                    issuance: BlockIssuance { primary, secondary },
                    miner_reward: MinerReward {
                        primary: r.primary,
                        secondary: r.secondary,
                        committed: r.tx_fee,
                        proposal: r.proposal_reward,
                    },
                    txs_fee,
                    finalized_at,
                },
            ),
            None => None,
        }
    }
}

} // verus!
