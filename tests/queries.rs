use ckb_core_chain::block::{Block, CellOutput, Header, OutPoint, Transaction};
use ckb_core_chain::chain::{
    CellStatus, ChainRpcImpl, Inconsistency, InvalidParams, RpcError, TxStatus, PAGE_SIZE,
};
use ckb_core_chain::economic::{sum_fees, BlockIssuance, BlockReward, MinerReward};
use ckb_core_chain::get_blocks_process::GetBlocksProcess;
use ckb_core_chain::hash::{H256, U256};
use ckb_core_chain::merkle::{merkle_root, transactions_root};
use ckb_core_chain::snapshot::{
    BlockExt, CellMeta, Consensus, EpochExt, Snapshot, TransactionInfo, TxMetaEntry,
};
use ckb_core_chain::rpc::ChainRpc;
use ckb_core_chain::tx_proof::TransactionProof;

fn hash(tag: u8, n: u64) -> H256 {
    let mut b = [0u8; 32];
    b[0] = tag;
    b[1] = (n >> 8) as u8;
    b[2] = n as u8;
    H256::from_bytes(b)
}

fn lock() -> H256 {
    hash(7, 7)
}

fn epoch() -> EpochExt {
    EpochExt {
        number: 0,
        start_number: 0,
        length: 1000,
        base_block_reward: 500,
        remainder_reward: 3,
        secondary_reward_issuance: 0,
        difficulty: U256::from_u64(1),
    }
}

/// Block `n` holds one cellbase transaction `hash(2, n)` with one output
/// locked by `lock()`, and one more transaction `hash(3, n)` with two outputs.
fn make_block(n: u64) -> Block {
    let cellbase = Transaction {
        hash: hash(2, n),
        witness_hash: None,
        inputs: vec![],
        outputs: vec![CellOutput { capacity: 1000 + n, lock_hash: lock(), type_hash: None }],
        outputs_data: vec![vec![1, 2, 3]],
    };
    let other = Transaction {
        hash: hash(3, n),
        witness_hash: None,
        inputs: vec![OutPoint { tx_hash: hash(2, n), index: 0 }],
        outputs: vec![
            CellOutput { capacity: 5, lock_hash: hash(7, 8), type_hash: None },
            CellOutput { capacity: 6, lock_hash: lock(), type_hash: Some(hash(6, 1)) },
        ],
        outputs_data: vec![vec![], vec![9; 4]],
    };
    let txs_root = merkle_root(&vec![cellbase.hash, other.hash]);
    let header = Header {
        hash: hash(1, n),
        version: 0,
        parent_hash: if n == 0 { H256::zero() } else { hash(1, n - 1) },
        timestamp: 1000 * n,
        number: n,
        txs_commit: txs_root,
        witnesses_commit: H256::zero(),
        transactions_root: transactions_root(&txs_root, &H256::zero()),
        difficulty: U256::from_u64(1),
        nonce: 0,
        proof: vec![],
    };
    Block::new(header, vec![cellbase, other])
}

/// A main chain of blocks `0 ..= tip`, with all outputs live.
fn snapshot(tip: u64) -> Snapshot {
    let blocks: Vec<Block> = (0..=tip).map(make_block).collect();
    let mut tx_infos = Vec::new();
    let mut tx_metas = Vec::new();
    let mut block_exts = Vec::new();
    for b in &blocks {
        for (i, t) in b.transactions.iter().enumerate() {
            tx_infos.push(TransactionInfo { tx_hash: t.hash, block_hash: b.header.hash, index: i as u64 });
            tx_metas.push(TxMetaEntry {
                tx_hash: t.hash,
                meta: CellMeta { dead: vec![false; t.outputs.len()], is_cellbase: i == 0 },
            });
        }
        block_exts.push(BlockExt { block_hash: b.header.hash, epoch_number: 0, txs_fees: vec![10, 20] });
    }
    Snapshot {
        tip: blocks[tip as usize].header.clone(),
        consensus: Consensus { finalization_delay_length: 11, secondary_epoch_reward: 2002 },
        current_epoch: epoch(),
        main_chain: blocks.iter().map(|b| b.header.hash).collect(),
        blocks,
        tx_infos,
        tx_metas,
        epochs: vec![epoch()],
        block_exts,
    }
}

fn reward() -> BlockReward {
    BlockReward { total: 100, primary: 60, secondary: 20, tx_fee: 15, proposal_reward: 5 }
}

#[test]
fn live_cell_query_single_block() {
    let s = snapshot(12);
    let rpc = ChainRpcImpl::new(s.clone());
    let cells = rpc.get_cells_by_lock_hash(&lock(), 10, 10).expect("ok");
    assert_eq!(cells.len(), 2);
    assert_eq!(cells[0].out_point.tx_hash, hash(2, 10));
    assert_eq!(cells[0].out_point.index, 0);
    assert!(cells[0].cellbase);
    assert_eq!(cells[0].capacity, 1010);
    assert_eq!(cells[0].output_data_len, 3);
    assert_eq!(cells[0].block_hash, hash(1, 10));
    assert_eq!(cells[1].out_point.tx_hash, hash(3, 10));
    assert_eq!(cells[1].out_point.index, 1);
    assert!(!cells[1].cellbase);
    assert_eq!(cells[1].output_data_len, 4);
    assert_eq!(cells[1].type_hash, Some(hash(6, 1)));
}

#[test]
fn live_cell_query_non_cellbase_then_dead() {
    let mut s = snapshot(12);
    // block 10's non-cellbase transaction pays one output to the lock.
    let rpc = ChainRpcImpl::new(s.clone());
    let other = rpc.get_cells_by_lock_hash(&hash(7, 8), 10, 10).expect("ok");
    assert_eq!(other.len(), 1);
    assert_eq!(other[0].out_point.index, 0);
    assert!(!other[0].cellbase);
    for e in s.tx_metas.iter_mut() {
        if e.tx_hash == hash(3, 10) {
            e.meta.dead[0] = true;
        }
    }
    let rpc = ChainRpcImpl::new(s);
    assert_eq!(rpc.get_cells_by_lock_hash(&hash(7, 8), 10, 10).expect("ok").len(), 0);
}

#[test]
fn cells_scan_range_limits() {
    let rpc = ChainRpcImpl::new(snapshot(5));
    assert_eq!(
        rpc.get_cells_by_lock_hash(&lock(), 3, 2).unwrap_err(),
        RpcError::InvalidParams(InvalidParams::FromAfterTo { from: 3, to: 2 })
    );
    assert!(rpc.get_cells_by_lock_hash(&lock(), 0, PAGE_SIZE).is_ok());
    assert_eq!(
        rpc.get_cells_by_lock_hash(&lock(), 0, PAGE_SIZE + 1).unwrap_err(),
        RpcError::InvalidParams(InvalidParams::RangeTooLarge { span: 101 })
    );
    // past the tip the scan stops: blocks 0..=5, two cells each.
    assert_eq!(rpc.get_cells_by_lock_hash(&lock(), 0, PAGE_SIZE).unwrap().len(), 12);
    assert_eq!(rpc.get_cells_by_lock_hash(&lock(), 50, 60).unwrap().len(), 0);
    assert!(rpc.get_cells_by_lock_hash(&lock(), u64::MAX - 1, u64::MAX).unwrap().is_empty());
}

#[test]
fn cells_scan_reports_missing_block() {
    let mut s = snapshot(5);
    s.blocks.remove(3);
    let rpc = ChainRpcImpl::new(s);
    assert_eq!(
        rpc.get_cells_by_lock_hash(&lock(), 0, 5).unwrap_err(),
        RpcError::ChainIndexIsInconsistent(Inconsistency::BlockMissing { number: 3, hash: hash(1, 3) })
    );
}

#[test]
fn block_and_header_lookups() {
    let mut s = snapshot(5);
    s.blocks.push(make_block(77));
    let rpc = ChainRpcImpl::new(s);
    assert_eq!(rpc.get_block(&hash(1, 2)).unwrap().header.number, 2);
    assert!(rpc.get_block(&hash(1, 77)).is_none());
    assert!(rpc.get_header(&hash(1, 77)).is_none());
    assert_eq!(rpc.get_header(&hash(1, 4)).unwrap().number, 4);
    assert_eq!(rpc.get_block_by_number(3).unwrap().unwrap().header.hash, hash(1, 3));
    assert!(rpc.get_block_by_number(6).unwrap().is_none());
    assert_eq!(rpc.get_header_by_number(1).unwrap().unwrap().hash, hash(1, 1));
    assert!(rpc.get_header_by_number(9).unwrap().is_none());
    assert_eq!(rpc.get_block_hash(5), Some(hash(1, 5)));
    assert_eq!(rpc.get_block_hash(6), None);
    assert_eq!(rpc.get_tip_block_number(), 5);
    assert_eq!(rpc.get_tip_header().hash, hash(1, 5));
    assert_eq!(rpc.get_current_epoch().base_block_reward, 500);
    assert_eq!(rpc.get_epoch_by_number(0).unwrap().length, 1000);
    assert!(rpc.get_epoch_by_number(1).is_none());
}

#[test]
fn index_without_block_is_inconsistent() {
    let mut s = snapshot(5);
    s.blocks.remove(2);
    let rpc = ChainRpcImpl::new(s);
    assert_eq!(
        rpc.get_block_by_number(2).unwrap_err(),
        RpcError::ChainIndexIsInconsistent(Inconsistency::BlockMissing { number: 2, hash: hash(1, 2) })
    );
    assert!(rpc.get_header_by_number(2).is_err());
}

#[test]
fn transaction_status_pool_first() {
    let rpc = ChainRpcImpl::new(snapshot(3));
    let committed = rpc.get_transaction(&hash(3, 2), Ok(None)).unwrap().unwrap();
    assert_eq!(committed.tx_status, TxStatus::Committed(hash(1, 2)));
    assert_eq!(committed.transaction.hash, hash(3, 2));
    let pooled = make_block(2).transactions[1].clone();
    let p = rpc.get_transaction(&hash(3, 2), Ok(Some((true, pooled.clone())))).unwrap().unwrap();
    assert_eq!(p.tx_status, TxStatus::Proposed);
    let q = rpc.get_transaction(&hash(3, 2), Ok(Some((false, pooled)))).unwrap().unwrap();
    assert_eq!(q.tx_status, TxStatus::Pending);
    assert!(rpc.get_transaction(&hash(3, 99), Ok(None)).unwrap().is_none());
    assert_eq!(
        rpc.get_transaction(&hash(3, 2), Err("closed".to_string())).unwrap_err(),
        RpcError::CkbInternalError("closed".to_string())
    );
}

#[test]
fn live_cell_statuses() {
    let mut s = snapshot(3);
    for e in s.tx_metas.iter_mut() {
        if e.tx_hash == hash(3, 1) {
            e.meta.dead[1] = true;
        }
    }
    let rpc = ChainRpcImpl::new(s);
    let live = rpc.get_live_cell(&OutPoint { tx_hash: hash(3, 1), index: 0 }, true);
    assert_eq!(live.status, CellStatus::Live);
    assert_eq!(live.cell.unwrap().capacity, 5);
    assert_eq!(live.data, Some(vec![]));
    let no_data = rpc.get_live_cell(&OutPoint { tx_hash: hash(2, 1), index: 0 }, false);
    assert_eq!(no_data.status, CellStatus::Live);
    assert!(no_data.data.is_none());
    let with_data = rpc.get_live_cell(&OutPoint { tx_hash: hash(2, 1), index: 0 }, true);
    assert_eq!(with_data.data, Some(vec![1, 2, 3]));
    let dead = rpc.get_live_cell(&OutPoint { tx_hash: hash(3, 1), index: 1 }, true);
    assert_eq!(dead.status, CellStatus::Dead);
    assert!(dead.cell.is_none());
    assert_eq!(rpc.get_live_cell(&OutPoint { tx_hash: hash(3, 1), index: 2 }, true).status, CellStatus::Unknown);
    assert_eq!(rpc.get_live_cell(&OutPoint { tx_hash: hash(9, 1), index: 0 }, true).status, CellStatus::Unknown);
}

#[test]
fn economic_state_waits_for_finalization() {
    let rpc = ChainRpcImpl::new(snapshot(110));
    assert_eq!(rpc.get_block_economic_state(&hash(1, 100), Some(reward())), None);
    let rpc = ChainRpcImpl::new(snapshot(111));
    let st = rpc.get_block_economic_state(&hash(1, 100), Some(reward())).expect("finalized");
    assert_eq!(st.finalized_at, hash(1, 111));
    assert_eq!(st.txs_fee, 30);
    assert_eq!(st.issuance, BlockIssuance { primary: 500, secondary: 2 });
    assert_eq!(st.miner_reward, MinerReward { primary: 60, secondary: 20, committed: 15, proposal: 5 });
    assert_eq!(rpc.get_block_economic_state(&hash(1, 100), None), None);
}

#[test]
fn economic_state_of_genesis_and_unknown() {
    let rpc = ChainRpcImpl::new(snapshot(40));
    assert_eq!(rpc.get_block_economic_state(&hash(1, 0), Some(reward())), None);
    assert_eq!(rpc.get_block_economic_state(&hash(1, 99), Some(reward())), None);
    assert!(rpc.get_block_economic_state(&hash(1, 1), Some(reward())).is_some());
    assert_eq!(rpc.get_block_economic_state(&hash(1, 1), Some(reward())).unwrap().issuance.primary, 501);
    assert_eq!(rpc.get_block_economic_state(&hash(1, 1), Some(reward())).unwrap().issuance.secondary, 3);
}

#[test]
fn epoch_rewards_exact() {
    let e = epoch();
    assert_eq!(e.block_reward(0), Some(501));
    assert_eq!(e.block_reward(2), Some(501));
    assert_eq!(e.block_reward(3), Some(500));
    let mut late = epoch();
    late.start_number = 10;
    assert_eq!(late.block_reward(5), Some(500));
    assert_eq!(e.secondary_block_issuance(1, 2002), Some(3));
    assert_eq!(e.secondary_block_issuance(2, 2002), Some(2));
    let mut empty = epoch();
    empty.length = 0;
    assert_eq!(empty.secondary_block_issuance(0, 10), None);
    let mut top = epoch();
    top.base_block_reward = u64::MAX;
    assert_eq!(top.block_reward(0), None);
}

#[test]
fn fees_sum_checked() {
    assert_eq!(sum_fees(&vec![]), Some(0));
    assert_eq!(sum_fees(&vec![1, 2, 3]), Some(6));
    assert_eq!(sum_fees(&vec![u64::MAX, 1]), None);
    assert_eq!(sum_fees(&vec![u64::MAX, 0]), Some(u64::MAX));
}

#[test]
fn cellbase_reward_gated_on_depth() {
    let rpc = ChainRpcImpl::new(snapshot(20));
    assert_eq!(rpc.get_cellbase_output_capacity_details(&hash(1, 5), Some(reward())), None);
    assert!(rpc.cellbase_reward_parent(&hash(1, 11)).is_none());
    assert_eq!(rpc.cellbase_reward_parent(&hash(1, 12)).unwrap().number, 11);
    assert_eq!(rpc.get_cellbase_output_capacity_details(&hash(1, 12), Some(reward())), Some(reward()));
    assert_eq!(rpc.get_cellbase_output_capacity_details(&hash(1, 99), Some(reward())), None);
}

#[test]
fn proof_round_trip_single_transaction() {
    let rpc = ChainRpcImpl::new(snapshot(4));
    for n in 0..=4 {
        for tag in [2u8, 3u8] {
            let h = hash(tag, n);
            let proof = rpc.get_transaction_proof(&vec![h], None).expect("proof");
            assert_eq!(proof.block_hash, hash(1, n));
            assert_eq!(rpc.verify_transaction_proof(&proof).expect("valid"), vec![h]);
        }
    }
}

#[test]
fn proof_round_trip_whole_block() {
    let rpc = ChainRpcImpl::new(snapshot(4));
    let proof = rpc.get_transaction_proof(&vec![hash(3, 2), hash(2, 2)], Some(hash(1, 2))).expect("proof");
    let mut got = rpc.verify_transaction_proof(&proof).expect("valid");
    got.sort_by_key(|h| h.as_bytes());
    let mut want = vec![hash(2, 2), hash(3, 2)];
    want.sort_by_key(|h| h.as_bytes());
    assert_eq!(got, want);
}

#[test]
fn proof_errors() {
    let rpc = ChainRpcImpl::new(snapshot(4));
    assert_eq!(
        rpc.get_transaction_proof(&vec![], None).unwrap_err(),
        RpcError::InvalidParams(InvalidParams::EmptyTransactionHashes)
    );
    assert_eq!(
        rpc.get_transaction_proof(&vec![hash(2, 1), hash(2, 2)], None).unwrap_err(),
        RpcError::InvalidParams(InvalidParams::NotAllTransactionsInRetrievedBlock)
    );
    assert_eq!(
        rpc.get_transaction_proof(&vec![hash(2, 1), hash(2, 1)], None).unwrap_err(),
        RpcError::InvalidParams(InvalidParams::DuplicatedTxHash(hash(2, 1)))
    );
    assert_eq!(
        rpc.get_transaction_proof(&vec![hash(9, 1)], None).unwrap_err(),
        RpcError::InvalidParams(InvalidParams::TransactionNotYetInBlock(hash(9, 1)))
    );
    assert_eq!(
        rpc.get_transaction_proof(&vec![hash(2, 1)], Some(hash(1, 2))).unwrap_err(),
        RpcError::InvalidParams(InvalidParams::NotAllTransactionsInSpecifiedBlock)
    );
}

#[test]
fn proof_verification_failures() {
    let rpc = ChainRpcImpl::new(snapshot(4));
    let good = rpc.get_transaction_proof(&vec![hash(2, 3)], None).expect("proof");
    let mut unknown = good.clone();
    unknown.block_hash = hash(1, 50);
    assert_eq!(
        rpc.verify_transaction_proof(&unknown).unwrap_err(),
        RpcError::InvalidParams(InvalidParams::CannotFindBlock(hash(1, 50)))
    );
    let mut wrong_witness = good.clone();
    wrong_witness.witnesses_root = hash(5, 5);
    assert_eq!(
        rpc.verify_transaction_proof(&wrong_witness).unwrap_err(),
        RpcError::InvalidParams(InvalidParams::InvalidTransactionProof)
    );
    let other_block = TransactionProof { block_hash: hash(1, 2), ..good.clone() };
    assert!(rpc.verify_transaction_proof(&other_block).is_err());
}

#[test]
fn get_blocks_sends_known_blocks_in_order() {
    let s = snapshot(3);
    let p = GetBlocksProcess::new(vec![hash(1, 2), hash(1, 9), hash(1, 0)]);
    let blocks = p.execute(&s);
    assert_eq!(blocks.len(), 2);
    assert_eq!(blocks[0].header.number, 2);
    assert_eq!(blocks[1].header.number, 0);
}

#[test]
fn trait_surface_matches_inherent_queries() {
    let rpc = ChainRpcImpl::new(snapshot(3));
    let via_trait: &dyn ChainRpc = &rpc;
    assert_eq!(via_trait.get_tip_block_number(), 3);
    assert_eq!(via_trait.get_block_hash(2), Some(hash(1, 2)));
    assert_eq!(ChainRpc::get_cells_by_lock_hash(&rpc, &lock(), 0, 3).unwrap().len(), 8);
    let proof = ChainRpc::get_transaction_proof(&rpc, &vec![hash(3, 1)], None).unwrap();
    assert_eq!(ChainRpc::verify_transaction_proof(&rpc, &proof).unwrap(), vec![hash(3, 1)]);
}

#[test]
fn transaction_copy_keeps_values() {
    let t = make_block(4).transactions[1].clone();
    let c = t.copy();
    assert_eq!(c.hash, t.hash);
    assert_eq!(c.outputs_data, t.outputs_data);
    assert_eq!(c.outputs.len(), 2);
    assert_eq!(c.inputs.len(), 1);
}

#[test]
fn economic_state_fee_overflow_gives_none() {
    let mut s = snapshot(30);
    for e in s.block_exts.iter_mut() {
        e.txs_fees = vec![u64::MAX, 1];
    }
    let rpc = ChainRpcImpl::new(s);
    assert_eq!(rpc.get_block_economic_state(&hash(1, 5), Some(reward())), None);
}

#[test]
fn proof_ignores_order_of_hashes() {
    let rpc = ChainRpcImpl::new(snapshot(4));
    let a = rpc.get_transaction_proof(&vec![hash(2, 3), hash(3, 3)], None).expect("proof");
    let b = rpc.get_transaction_proof(&vec![hash(3, 3), hash(2, 3)], None).expect("proof");
    assert_eq!(a.proof.indices, b.proof.indices);
    assert_eq!(a.proof.lemmas, b.proof.lemmas);
    assert_eq!(a.block_hash, b.block_hash);
}

#[test]
fn pool_failure_carries_message() {
    let rpc = ChainRpcImpl::new(snapshot(2));
    assert_eq!(
        rpc.get_transaction(&hash(9, 9), Err("send failed".to_string())).unwrap_err(),
        RpcError::CkbInternalError("send failed".to_string())
    );
}
