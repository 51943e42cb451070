//! The query surface as a trait, for transports that serve any
//! implementation of it.
use vstd::prelude::*;
use crate::block::{Block, Header, OutPoint, Transaction};
use crate::chain::{CellOutputWithOutPoint, CellWithStatus, ChainRpcImpl, RpcError, TransactionWithStatus};
use crate::economic::{BlockEconomicState, BlockReward};
use crate::hash::H256;
use crate::snapshot::EpochExt;
use crate::tx_proof::TransactionProof;

verus! {

/// The chain queries. Results that an outside collaborator computes (the
/// transaction pool's answer, the reward calculator's reward) are passed in.
pub trait ChainRpc {
    fn get_block(&self, hash: &H256) -> Option<&Block>;

    fn get_block_by_number(&self, number: u64) -> Result<Option<&Block>, RpcError>;

    fn get_header(&self, hash: &H256) -> Option<&Header>;

    fn get_header_by_number(&self, number: u64) -> Result<Option<&Header>, RpcError>;

    fn get_transaction(&self, hash: &H256, pool: Result<Option<(bool, Transaction)>, String>) -> Result<
        Option<TransactionWithStatus>,
        RpcError,
    >;

    fn get_block_hash(&self, number: u64) -> Option<H256>;

    fn get_tip_header(&self) -> &Header;

    fn get_cells_by_lock_hash(&self, lock_hash: &H256, from: u64, to: u64) -> Result<
        Vec<CellOutputWithOutPoint>,
        RpcError,
    >;

    fn get_live_cell(&self, out_point: &OutPoint, with_data: bool) -> CellWithStatus;

    fn get_tip_block_number(&self) -> u64;

    fn get_current_epoch(&self) -> EpochExt;

    fn get_epoch_by_number(&self, number: u64) -> Option<EpochExt>;

    fn get_cellbase_output_capacity_details(&self, hash: &H256, reward: Option<BlockReward>) -> Option<BlockReward>;

    fn get_block_economic_state(&self, hash: &H256, reward: Option<BlockReward>) -> Option<BlockEconomicState>;

    fn get_transaction_proof(&self, tx_hashes: &Vec<H256>, block_hash: Option<H256>) -> Result<
        TransactionProof,
        RpcError,
    >;

    fn verify_transaction_proof(&self, tx_proof: &TransactionProof) -> Result<Vec<H256>, RpcError>;
}

impl ChainRpc for ChainRpcImpl {
    fn get_block(&self, hash: &H256) -> Option<&Block> {
        ChainRpcImpl::get_block(self, hash)
    }

    fn get_block_by_number(&self, number: u64) -> Result<Option<&Block>, RpcError> {
        ChainRpcImpl::get_block_by_number(self, number)
    }

    fn get_header(&self, hash: &H256) -> Option<&Header> {
        ChainRpcImpl::get_header(self, hash)
    }

    fn get_header_by_number(&self, number: u64) -> Result<Option<&Header>, RpcError> {
        ChainRpcImpl::get_header_by_number(self, number)
    }

    fn get_transaction(&self, hash: &H256, pool: Result<Option<(bool, Transaction)>, String>) -> Result<
        Option<TransactionWithStatus>,
        RpcError,
    > {
        ChainRpcImpl::get_transaction(self, hash, pool)
    }

    fn get_block_hash(&self, number: u64) -> Option<H256> {
        ChainRpcImpl::get_block_hash(self, number)
    }

    fn get_tip_header(&self) -> &Header {
        ChainRpcImpl::get_tip_header(self)
    }

    fn get_cells_by_lock_hash(&self, lock_hash: &H256, from: u64, to: u64) -> Result<
        Vec<CellOutputWithOutPoint>,
        RpcError,
    > {
        ChainRpcImpl::get_cells_by_lock_hash(self, lock_hash, from, to)
    }

    fn get_live_cell(&self, out_point: &OutPoint, with_data: bool) -> CellWithStatus {
        ChainRpcImpl::get_live_cell(self, out_point, with_data)
    }

    fn get_tip_block_number(&self) -> u64 {
        ChainRpcImpl::get_tip_block_number(self)
    }

    fn get_current_epoch(&self) -> EpochExt {
        ChainRpcImpl::get_current_epoch(self)
    }

    fn get_epoch_by_number(&self, number: u64) -> Option<EpochExt> {
        ChainRpcImpl::get_epoch_by_number(self, number)
    }

    fn get_cellbase_output_capacity_details(&self, hash: &H256, reward: Option<BlockReward>) -> Option<BlockReward> {
        ChainRpcImpl::get_cellbase_output_capacity_details(self, hash, reward)
    }

    fn get_block_economic_state(&self, hash: &H256, reward: Option<BlockReward>) -> Option<BlockEconomicState> {
        ChainRpcImpl::get_block_economic_state(self, hash, reward)
    }

    fn get_transaction_proof(&self, tx_hashes: &Vec<H256>, block_hash: Option<H256>) -> Result<
        TransactionProof,
        RpcError,
    > {
        ChainRpcImpl::get_transaction_proof(self, tx_hashes, block_hash)
    }

    fn verify_transaction_proof(&self, tx_proof: &TransactionProof) -> Result<Vec<H256>, RpcError> {
        ChainRpcImpl::verify_transaction_proof(self, tx_proof)
    }
}

} // verus!
