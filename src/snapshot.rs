//! An immutable, consistent view of the chain: the tip, the consensus
//! parameters, the main-chain index and the stored blocks, transactions,
//! cell metadata, epochs and block extensions.
//!
//! Every lookup is a function of the snapshot alone: keyed lookups return the
//! first entry with the key.
use vstd::prelude::*;
use crate::block::{Block, Header};
use crate::hash::{H256, U256};

verus! {

/// Position of the first occurrence of `key` in `keys`, or -1.
#[verifier::opaque]
pub open spec fn first_index(keys: Seq<Seq<u8>>, key: Seq<u8>) -> int {
    if exists|i: int| 0 <= i < keys.len() && keys[i] == key {
        choose|i: int|
            0 <= i < keys.len() && keys[i] == key && forall|j: int| 0 <= j < i ==> keys[j] != key
    } else {
        -1
    }
}

proof fn lemma_first_index_found(keys: Seq<Seq<u8>>, key: Seq<u8>, i: int)
    requires
        0 <= i < keys.len(),
        keys[i] == key,
        forall|j: int| 0 <= j < i ==> keys[j] != key,
    ensures
        first_index(keys, key) == i,
{
    reveal(first_index);
    let c = choose|c: int|
        0 <= c < keys.len() && keys[c] == key && forall|j: int| 0 <= j < c ==> keys[j] != key;
    assert(0 <= c < keys.len() && keys[c] == key && forall|j: int| 0 <= j < c ==> keys[j] != key);
    if c < i {
        assert(keys[c] != key);
    } else if c > i {
        assert(keys[i] != key);
    }
}

proof fn lemma_first_index_absent(keys: Seq<Seq<u8>>, key: Seq<u8>)
    requires
        forall|j: int| 0 <= j < keys.len() ==> keys[j] != key,
    ensures
        first_index(keys, key) == -1,
{
    reveal(first_index);
}

/// Consensus parameters the queries depend on.
#[derive(Clone, Copy, Debug)]
pub struct Consensus {
    pub finalization_delay_length: u64,
    /// Secondary issuance of one epoch, in shannons.
    pub secondary_epoch_reward: u64,
}

/// Parameters of one epoch; rewards are in shannons.
#[derive(Clone, Copy, Debug)]
pub struct EpochExt {
    pub number: u64,
    pub start_number: u64,
    pub length: u64,
    pub base_block_reward: u64,
    pub remainder_reward: u64,
    pub secondary_reward_issuance: u64,
    pub difficulty: U256,
}

/// The primary reward of block `number` in epoch `e`: the base reward, plus
/// one shannon for the first `remainder_reward` blocks of the epoch (`None`
/// on overflow).
pub open spec fn block_reward_spec(e: EpochExt, number: u64) -> Option<u64> {
    if number >= e.start_number && number - e.start_number < e.remainder_reward {
        if e.base_block_reward < u64::MAX {
            Some((e.base_block_reward + 1) as u64)
        } else {
            None
        }
    } else {
        Some(e.base_block_reward)
    }
}

/// The secondary issuance of block `number`: the epoch's secondary issuance
/// split evenly over its blocks, the remainder going one shannon each to the
/// first blocks (`None` for an empty epoch).
pub open spec fn secondary_issuance_spec(e: EpochExt, number: u64, epoch_issuance: u64) -> Option<u64> {
    if e.length == 0 {
        None
    } else if number >= e.start_number && number - e.start_number < epoch_issuance % e.length {
        Some((epoch_issuance / e.length + 1) as u64)
    } else {
        Some((epoch_issuance / e.length) as u64)
    }
}

impl EpochExt {
    pub fn block_reward(&self, number: u64) -> (r: Option<u64>)
        ensures
            r == block_reward_spec(*self, number),
    {
        if number >= self.start_number && number - self.start_number < self.remainder_reward {
            self.base_block_reward.checked_add(1)
        } else {
            Some(self.base_block_reward)
        }
    }

    pub fn secondary_block_issuance(&self, number: u64, epoch_issuance: u64) -> (r: Option<u64>)
        ensures
            r == secondary_issuance_spec(*self, number, epoch_issuance),
    {
        if self.length == 0 {
            return None;
        }
        let g2 = epoch_issuance / self.length;
        let remainder = epoch_issuance % self.length;
        if number >= self.start_number && number - self.start_number < remainder {
            assert(g2 < u64::MAX) by (nonlinear_arith)
                requires
                    g2 == epoch_issuance / self.length,
                    self.length > 0,
                    remainder == epoch_issuance % self.length,
                    remainder > 0,
            {
            }
            Some(g2 + 1)
        } else {
            Some(g2)
        }
    }
}

/// Which outputs of a committed transaction are spent, and whether it is a
/// cellbase.
#[derive(Clone, Debug)]
pub struct CellMeta {
    pub dead: Vec<bool>,
    pub is_cellbase: bool,
}

impl CellMeta {
    /// Whether output `i` is spent; `None` when the transaction has no such
    /// output.
    pub fn is_dead(&self, i: usize) -> (r: Option<bool>)
        ensures
            i < self.dead@.len() ==> r == Some(self.dead@[i as int]),
            i >= self.dead@.len() ==> r is None,
    {
        if i < self.dead.len() {
            Some(self.dead[i])
        } else {
            None
        }
    }

    pub fn is_cellbase(&self) -> (r: bool)
        ensures
            r == self.is_cellbase,
    {
        self.is_cellbase
    }
}

/// Where a committed transaction stands: its block and its position in it.
#[derive(Clone, Copy, Debug)]
pub struct TransactionInfo {
    pub tx_hash: H256,
    pub block_hash: H256,
    pub index: u64,
}

#[derive(Clone, Debug)]
pub struct TxMetaEntry {
    pub tx_hash: H256,
    pub meta: CellMeta,
}

/// Per-block data kept beside the block: its epoch and its transaction fees.
#[derive(Clone, Debug)]
pub struct BlockExt {
    pub block_hash: H256,
    pub epoch_number: u64,
    pub txs_fees: Vec<u64>,
}

/// An immutable view of the chain at one tip.
#[derive(Clone, Debug)]
pub struct Snapshot {
    pub tip: Header,
    pub consensus: Consensus,
    pub current_epoch: EpochExt,
    /// Main-chain block hashes by number.
    pub main_chain: Vec<H256>,
    pub blocks: Vec<Block>,
    pub tx_infos: Vec<TransactionInfo>,
    pub tx_metas: Vec<TxMetaEntry>,
    pub epochs: Vec<EpochExt>,
    pub block_exts: Vec<BlockExt>,
}

pub open spec fn main_chain_keys(s: Snapshot) -> Seq<Seq<u8>> {
    s.main_chain@.map_values(|h: H256| h@)
}

pub open spec fn block_keys(s: Snapshot) -> Seq<Seq<u8>> {
    s.blocks@.map_values(|b: Block| b.header.hash@)
}

pub open spec fn tx_info_keys(s: Snapshot) -> Seq<Seq<u8>> {
    s.tx_infos@.map_values(|t: TransactionInfo| t.tx_hash@)
}

pub open spec fn tx_meta_keys(s: Snapshot) -> Seq<Seq<u8>> {
    s.tx_metas@.map_values(|t: TxMetaEntry| t.tx_hash@)
}

pub open spec fn block_ext_keys(s: Snapshot) -> Seq<Seq<u8>> {
    s.block_exts@.map_values(|e: BlockExt| e.block_hash@)
}

/// The main-chain hash at `number`.
pub open spec fn spec_block_hash(s: Snapshot, number: u64) -> Option<H256> {
    if (number as int) < s.main_chain@.len() {
        Some(s.main_chain@[number as int])
    } else {
        None
    }
}

/// The number of a main-chain block.
pub open spec fn spec_block_number(s: Snapshot, hash: Seq<u8>) -> Option<u64> {
    let i = first_index(main_chain_keys(s), hash);
    if i >= 0 {
        Some(i as u64)
    } else {
        None
    }
}

pub open spec fn spec_is_main_chain(s: Snapshot, hash: Seq<u8>) -> bool {
    first_index(main_chain_keys(s), hash) >= 0
}

pub open spec fn spec_block(s: Snapshot, hash: Seq<u8>) -> Option<Block> {
    let i = first_index(block_keys(s), hash);
    if i >= 0 {
        Some(s.blocks@[i])
    } else {
        None
    }
}

pub open spec fn spec_header(s: Snapshot, hash: Seq<u8>) -> Option<Header> {
    match spec_block(s, hash) {
        Some(b) => Some(b.header),
        None => None,
    }
}

pub open spec fn spec_tx_info(s: Snapshot, hash: Seq<u8>) -> Option<TransactionInfo> {
    let i = first_index(tx_info_keys(s), hash);
    if i >= 0 {
        Some(s.tx_infos@[i])
    } else {
        None
    }
}

pub open spec fn spec_tx_meta(s: Snapshot, hash: Seq<u8>) -> Option<CellMeta> {
    let i = first_index(tx_meta_keys(s), hash);
    if i >= 0 {
        Some(s.tx_metas@[i].meta)
    } else {
        None
    }
}

pub open spec fn spec_block_ext(s: Snapshot, hash: Seq<u8>) -> Option<BlockExt> {
    let i = first_index(block_ext_keys(s), hash);
    if i >= 0 {
        Some(s.block_exts@[i])
    } else {
        None
    }
}

/// The first stored epoch with the given number.
pub open spec fn spec_epoch(s: Snapshot, number: u64) -> Option<EpochExt> {
    if exists|i: int| 0 <= i < s.epochs@.len() && s.epochs@[i].number == number {
        let i = choose|i: int|
            0 <= i < s.epochs@.len() && s.epochs@[i].number == number && forall|j: int|
                0 <= j < i ==> s.epochs@[j].number != number;
        Some(s.epochs@[i])
    } else {
        None
    }
}


impl Snapshot {
    pub fn tip_header(&self) -> (r: &Header)
        ensures
            *r == self.tip,
    {
        &self.tip
    }

    pub fn tip_number(&self) -> (r: u64)
        ensures
            r == self.tip.number,
    {
        self.tip.number
    }

    pub fn consensus(&self) -> (r: Consensus)
        ensures
            r == self.consensus,
    {
        self.consensus
    }

    pub fn epoch_ext(&self) -> (r: EpochExt)
        ensures
            r == self.current_epoch,
    {
        self.current_epoch
    }

    pub fn get_block_hash(&self, number: u64) -> (r: Option<H256>)
        ensures
            r == spec_block_hash(*self, number),
    {
        if (number as usize) < self.main_chain.len() && number <= usize::MAX as u64 {
            Some(self.main_chain[number as usize])
        } else {
            None
        }
    }

    pub fn get_block_number(&self, hash: &H256) -> (r: Option<u64>)
        ensures
            r == spec_block_number(*self, hash@),
    {
        let ghost keys = main_chain_keys(*self);
        let mut i: usize = 0;
        while i < self.main_chain.len()
            invariant
                0 <= i <= self.main_chain@.len(),
                keys == main_chain_keys(*self),
                forall|j: int| 0 <= j < i ==> keys[j] != hash@,
            decreases self.main_chain@.len() - i,
        {
            if self.main_chain[i].same(hash) {
                proof {
                    lemma_first_index_found(keys, hash@, i as int);
                }
                return Some(i as u64);
            }
            i = i + 1;
        }
        proof {
            lemma_first_index_absent(keys, hash@);
        }
        None
    }

    pub fn is_main_chain(&self, hash: &H256) -> (r: bool)
        ensures
            r == spec_is_main_chain(*self, hash@),
    {
        self.get_block_number(hash).is_some()
    }

    pub fn get_block(&self, hash: &H256) -> (r: Option<&Block>)
        ensures
            r matches Some(b) ==> spec_block(*self, hash@) == Some(*b),
            r is None ==> spec_block(*self, hash@) is None,
    {
        let ghost keys = block_keys(*self);
        let mut i: usize = 0;
        while i < self.blocks.len()
            invariant
                0 <= i <= self.blocks@.len(),
                keys == block_keys(*self),
                forall|j: int| 0 <= j < i ==> keys[j] != hash@,
            decreases self.blocks@.len() - i,
        {
            if self.blocks[i].header.hash.same(hash) {
                proof {
                    lemma_first_index_found(keys, hash@, i as int);
                }
                return Some(&self.blocks[i]);
            }
            i = i + 1;
        }
        proof {
            lemma_first_index_absent(keys, hash@);
        }
        None
    }

    pub fn get_block_header(&self, hash: &H256) -> (r: Option<&Header>)
        ensures
            r matches Some(h) ==> spec_header(*self, hash@) == Some(*h),
            r is None ==> spec_header(*self, hash@) is None,
    {
        match self.get_block(hash) {
            Some(b) => Some(&b.header),
            None => None,
        }
    }

    pub fn get_transaction_info(&self, hash: &H256) -> (r: Option<TransactionInfo>)
        ensures
            r == spec_tx_info(*self, hash@),
    {
        let ghost keys = tx_info_keys(*self);
        let mut i: usize = 0;
        while i < self.tx_infos.len()
            invariant
                0 <= i <= self.tx_infos@.len(),
                keys == tx_info_keys(*self),
                forall|j: int| 0 <= j < i ==> keys[j] != hash@,
            decreases self.tx_infos@.len() - i,
        {
            if self.tx_infos[i].tx_hash.same(hash) {
                proof {
                    lemma_first_index_found(keys, hash@, i as int);
                }
                return Some(self.tx_infos[i]);
            }
            i = i + 1;
        }
        proof {
            lemma_first_index_absent(keys, hash@);
        }
        None
    }

    pub fn get_tx_meta(&self, hash: &H256) -> (r: Option<&CellMeta>)
        ensures
            r matches Some(m) ==> spec_tx_meta(*self, hash@) == Some(*m),
            r is None ==> spec_tx_meta(*self, hash@) is None,
    {
        let ghost keys = tx_meta_keys(*self);
        let mut i: usize = 0;
        while i < self.tx_metas.len()
            invariant
                0 <= i <= self.tx_metas@.len(),
                keys == tx_meta_keys(*self),
                forall|j: int| 0 <= j < i ==> keys[j] != hash@,
            decreases self.tx_metas@.len() - i,
        {
            if self.tx_metas[i].tx_hash.same(hash) {
                proof {
                    lemma_first_index_found(keys, hash@, i as int);
                }
                return Some(&self.tx_metas[i].meta);
            }
            i = i + 1;
        }
        proof {
            lemma_first_index_absent(keys, hash@);
        }
        None
    }

    pub fn get_block_ext(&self, hash: &H256) -> (r: Option<&BlockExt>)
        ensures
            r matches Some(e) ==> spec_block_ext(*self, hash@) == Some(*e),
            r is None ==> spec_block_ext(*self, hash@) is None,
    {
        let ghost keys = block_ext_keys(*self);
        let mut i: usize = 0;
        while i < self.block_exts.len()
            invariant
                0 <= i <= self.block_exts@.len(),
                keys == block_ext_keys(*self),
                forall|j: int| 0 <= j < i ==> keys[j] != hash@,
            decreases self.block_exts@.len() - i,
        {
            if self.block_exts[i].block_hash.same(hash) {
                proof {
                    lemma_first_index_found(keys, hash@, i as int);
                }
                return Some(&self.block_exts[i]);
            }
            i = i + 1;
        }
        proof {
            lemma_first_index_absent(keys, hash@);
        }
        None
    }

    pub fn get_epoch_ext(&self, number: u64) -> (r: Option<EpochExt>)
        ensures
            r == spec_epoch(*self, number),
    {
        let mut i: usize = 0;
        while i < self.epochs.len()
            invariant
                0 <= i <= self.epochs@.len(),
                forall|j: int| 0 <= j < i ==> self.epochs@[j].number != number,
            decreases self.epochs@.len() - i,
        {
            if self.epochs[i].number == number {
                proof {
                    let c = choose|c: int|
                        0 <= c < self.epochs@.len() && self.epochs@[c].number == number && forall|j: int|
                            0 <= j < c ==> self.epochs@[j].number != number;
                    assert(0 <= c < self.epochs@.len() && self.epochs@[c].number == number);
                    if c < i {
                    } else if c > i {
                        assert(self.epochs@[i as int].number != number);
                    }
                }
                return Some(self.epochs[i]);
            }
            i = i + 1;
        }
        None
    }
}

} // verus!
