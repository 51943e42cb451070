//! Read-only chain queries. Every query of a `ChainRpcImpl` resolves against
//! the one snapshot it holds.
use vstd::prelude::*;
use crate::block::{Block, CellOutput, Header, OutPoint, Transaction, copy_bytes, same_transaction};
use crate::hash::H256;
use crate::snapshot::{
    CellMeta, EpochExt, Snapshot, spec_block, spec_block_hash, spec_epoch, spec_header, spec_is_main_chain,
    spec_tx_info, spec_tx_meta,
};

verus! {

/// The widest block range one `get_cells_by_lock_hash` call may scan.
pub const PAGE_SIZE: u64 = 100;

/// Malformed input or a logical mismatch in a query.
#[derive(Clone, Copy, Debug, PartialEq, Eq)]
pub enum InvalidParams {
    EmptyTransactionHashes,
    FromAfterTo { from: u64, to: u64 },
    RangeTooLarge { span: u64 },
    TransactionNotYetInBlock(H256),
    NotAllTransactionsInRetrievedBlock,
    DuplicatedTxHash(H256),
    NotAllTransactionsInSpecifiedBlock,
    CannotFindBlock(H256),
    InvalidTransactionProof,
}

/// An index of the snapshot that points at data the snapshot does not hold.
#[derive(Clone, Copy, Debug, PartialEq, Eq)]
pub enum Inconsistency {
    /// The main-chain index names this block at this number.
    BlockMissing { number: u64, hash: H256 },
    /// A transaction's info names this block.
    TransactionBlockMissing(H256),
    /// A transaction's info names a position its block does not have.
    TransactionIndexOutOfBlock(H256),
}

#[derive(Clone, Debug, PartialEq, Eq)]
pub enum RpcError {
    InvalidParams(InvalidParams),
    ChainIndexIsInconsistent(Inconsistency),
    /// The transaction pool could not be asked.
    CkbInternalError(String),
}

/// A live cell found by `get_cells_by_lock_hash`.
#[derive(Clone, Copy, Debug)]
pub struct CellOutputWithOutPoint {
    pub out_point: OutPoint,
    pub block_hash: H256,
    pub capacity: u64,
    pub lock_hash: H256,
    pub type_hash: Option<H256>,
    pub output_data_len: u64,
    pub cellbase: bool,
}

/// Length of the data of output `i` (0 when the transaction has none for it).
pub open spec fn data_len_spec(tx: Transaction, i: int) -> u64 {
    if i < tx.outputs_data@.len() {
        tx.outputs_data@[i]@.len() as u64
    } else {
        0
    }
}

/// The data of output `i` (empty when the transaction has none for it).
pub open spec fn data_of(tx: Transaction, i: int) -> Seq<u8> {
    if i < tx.outputs_data@.len() {
        tx.outputs_data@[i]@
    } else {
        seq![]
    }
}

/// The entry for output `i` of `tx` in block `block_hash`.
pub open spec fn cell_entry(tx: Transaction, meta: CellMeta, block_hash: H256, i: int) -> CellOutputWithOutPoint {
    CellOutputWithOutPoint {
        out_point: OutPoint { tx_hash: tx.hash, index: i as u32 },
        block_hash,
        capacity: tx.outputs@[i].capacity,
        lock_hash: tx.outputs@[i].lock_hash,
        type_hash: tx.outputs@[i].type_hash,
        output_data_len: data_len_spec(tx, i),
        cellbase: meta.is_cellbase,
    }
}

/// Whether output `i` of `tx` is locked by `lock` and not spent.
pub open spec fn is_live_match(tx: Transaction, meta: CellMeta, lock: Seq<u8>, i: int) -> bool {
    tx.outputs@[i].lock_hash@ == lock && i < meta.dead@.len() && !meta.dead@[i]
}

/// The live cells locked by `lock` among the first `k` outputs of `tx`.
pub open spec fn output_cells(tx: Transaction, meta: CellMeta, block_hash: H256, lock: Seq<u8>, k: int) -> Seq<
    CellOutputWithOutPoint,
>
    decreases k,
{
    if k <= 0 {
        seq![]
    } else {
        let prev = output_cells(tx, meta, block_hash, lock, k - 1);
        if is_live_match(tx, meta, lock, k - 1) {
            prev.push(cell_entry(tx, meta, block_hash, k - 1))
        } else {
            prev
        }
    }
}

/// The live cells locked by `lock` among the first `k` transactions of a block.
pub open spec fn tx_cells(s: Snapshot, txs: Seq<Transaction>, block_hash: H256, lock: Seq<u8>, k: int) -> Seq<
    CellOutputWithOutPoint,
>
    decreases k,
{
    if k <= 0 {
        seq![]
    } else {
        let prev = tx_cells(s, txs, block_hash, lock, k - 1);
        let tx = txs[k - 1];
        match spec_tx_meta(s, tx.hash@) {
            Some(meta) => prev + output_cells(tx, meta, block_hash, lock, tx.outputs@.len() as int),
            None => prev,
        }
    }
}

/// What scanning the main-chain blocks numbered `from .. from + k` yields.
pub open spec fn scan_cells(s: Snapshot, lock: Seq<u8>, from: u64, k: nat) -> Result<Seq<CellOutputWithOutPoint>, RpcError>
    decreases k,
{
    if k == 0 {
        Ok(seq![])
    } else {
        match scan_cells(s, lock, from, (k - 1) as nat) {
            Err(e) => Err(e),
            Ok(prev) => {
                let n = (from + k - 1) as u64;
                match spec_block_hash(s, n) {
                    None => Ok(prev),
                    Some(h) => match spec_block(s, h@) {
                        None => Err(RpcError::ChainIndexIsInconsistent(Inconsistency::BlockMissing { number: n, hash: h })),
                        Some(b) => Ok(prev + tx_cells(s, b.transactions@, h, lock, b.transactions@.len() as int)),
                    },
                }
            },
        }
    }
}

/// What `get_cells_by_lock_hash(lock, from, to)` returns.
pub open spec fn cells_by_lock_hash(s: Snapshot, lock: Seq<u8>, from: u64, to: u64) -> Result<Seq<CellOutputWithOutPoint>, RpcError> {
    if from > to {
        Err(RpcError::InvalidParams(InvalidParams::FromAfterTo { from, to }))
    } else if to - from > PAGE_SIZE {
        Err(RpcError::InvalidParams(InvalidParams::RangeTooLarge { span: (to - from) as u64 }))
    } else {
        scan_cells(s, lock, from, (to - from + 1) as nat)
    }
}

proof fn lemma_scan_past_tip(s: Snapshot, lock: Seq<u8>, from: u64, k: nat, m: nat)
    requires
        k <= m,
        from + k >= s.main_chain@.len(),
        from + m <= u64::MAX + 1,
    ensures
        scan_cells(s, lock, from, m) == scan_cells(s, lock, from, k),
    decreases m,
{
    if m > k {
        lemma_scan_past_tip(s, lock, from, k, (m - 1) as nat);
    }
}

proof fn lemma_scan_err(s: Snapshot, lock: Seq<u8>, from: u64, k: nat, m: nat)
    requires
        k <= m,
        scan_cells(s, lock, from, k) is Err,
    ensures
        scan_cells(s, lock, from, m) == scan_cells(s, lock, from, k),
    decreases m,
{
    if m > k {
        lemma_scan_err(s, lock, from, k, (m - 1) as nat);
    }
}

proof fn lemma_scan_step(
    s: Snapshot,
    lock: Seq<u8>,
    from: u64,
    k: nat,
    prev: Seq<CellOutputWithOutPoint>,
    h: H256,
)
    requires
        from + k <= u64::MAX,
        scan_cells(s, lock, from, k) == Ok::<Seq<CellOutputWithOutPoint>, RpcError>(prev),
        spec_block_hash(s, (from + k) as u64) == Some(h),
    ensures
        spec_block(s, h@) is None ==> scan_cells(s, lock, from, k + 1) == Err::<Seq<CellOutputWithOutPoint>, RpcError>(
            RpcError::ChainIndexIsInconsistent(Inconsistency::BlockMissing { number: (from + k) as u64, hash: h }),
        ),
        spec_block(s, h@) matches Some(b) ==> scan_cells(s, lock, from, k + 1) == Ok::<
            Seq<CellOutputWithOutPoint>,
            RpcError,
        >(prev + tx_cells(s, b.transactions@, h, lock, b.transactions@.len() as int)),
{
    let k1 = (k + 1) as nat;
    assert((k1 - 1) as nat == k);
    assert((from + k1 - 1) as u64 == (from + k) as u64);
    assert(scan_cells(s, lock, from, (k1 - 1) as nat) == Ok::<Seq<CellOutputWithOutPoint>, RpcError>(prev));
}

/// The entry for output `i` of a transaction, built.
fn make_cell_entry(tx: &Transaction, meta: &CellMeta, block_hash: H256, i: usize) -> (r: CellOutputWithOutPoint)
    requires
        i < tx.outputs@.len(),
    ensures
        r == cell_entry(*tx, *meta, block_hash, i as int),
{
    let output: CellOutput = tx.outputs[i];
    let data_len: u64 = if i < tx.outputs_data.len() {
        tx.outputs_data[i].len() as u64
    } else {
        0
    };
    CellOutputWithOutPoint {
        out_point: OutPoint { tx_hash: tx.hash, index: i as u32 },
        block_hash,
        capacity: output.capacity,
        lock_hash: output.lock_hash,
        type_hash: output.type_hash,
        output_data_len: data_len,
        cellbase: meta.is_cellbase,
    }
}

/// Where a transaction stands.
#[derive(Clone, Copy, Debug, PartialEq, Eq)]
pub enum TxStatus {
    /// In the pool, not yet proposed.
    Pending,
    /// In the pool and proposed.
    Proposed,
    /// On the main chain, in this block.
    Committed(H256),
}

#[derive(Clone, Debug)]
pub struct TransactionWithStatus {
    pub transaction: Transaction,
    pub tx_status: TxStatus,
}

/// A committed transaction and its block: the transaction at the position its
/// info names, in the block its info names.
pub open spec fn spec_transaction(s: Snapshot, hash: Seq<u8>) -> Option<(Transaction, H256)> {
    match spec_tx_info(s, hash) {
        None => None,
        Some(info) => match spec_block(s, info.block_hash@) {
            None => None,
            Some(b) => if info.index < b.transactions@.len() {
                Some((b.transactions@[info.index as int], info.block_hash))
            } else {
                None
            },
        },
    }
}

/// The status `get_transaction` reports, given the pool's answer: the pool
/// first, then the snapshot.
pub open spec fn tx_status_spec(s: Snapshot, hash: Seq<u8>, pool: Option<(bool, Transaction)>) -> Option<TxStatus> {
    match pool {
        Some((proposed, _)) => if proposed {
            Some(TxStatus::Proposed)
        } else {
            Some(TxStatus::Pending)
        },
        None => match spec_transaction(s, hash) {
            Some((_, bh)) => Some(TxStatus::Committed(bh)),
            None => None,
        },
    }
}

/// Whether a cell is unspent, spent, or not known to the snapshot.
#[derive(Clone, Copy, Debug, PartialEq, Eq)]
pub enum CellStatus {
    Live,
    Dead,
    Unknown,
}

#[derive(Clone, Debug)]
pub struct CellWithStatus {
    /// The output, for a live cell.
    pub cell: Option<CellOutput>,
    /// The output's data, for a live cell asked with data.
    pub data: Option<Vec<u8>>,
    pub status: CellStatus,
}

/// The status of the cell at `out_point`.
pub open spec fn cell_status_spec(s: Snapshot, out_point: OutPoint) -> CellStatus {
    match spec_tx_meta(s, out_point.tx_hash@) {
        None => CellStatus::Unknown,
        Some(meta) => if out_point.index >= meta.dead@.len() {
            CellStatus::Unknown
        } else if meta.dead@[out_point.index as int] {
            CellStatus::Dead
        } else {
            match spec_transaction(s, out_point.tx_hash@) {
                Some((tx, _)) => if out_point.index < tx.outputs@.len() {
                    CellStatus::Live
                } else {
                    CellStatus::Unknown
                },
                None => CellStatus::Unknown,
            }
        },
    }
}

/// A queryable chain: the snapshot every query resolves against.
pub struct ChainRpcImpl {
    pub snapshot: Snapshot,
}

impl ChainRpcImpl {
    pub fn new(snapshot: Snapshot) -> (r: Self)
        ensures
            r.snapshot == snapshot,
    {
        ChainRpcImpl { snapshot }
    }

    /// The block with this hash, if it is on the main chain.
    pub fn get_block(&self, hash: &H256) -> (r: Option<&Block>)
        ensures
            r matches Some(b) ==> spec_is_main_chain(self.snapshot, hash@) && spec_block(self.snapshot, hash@)
                == Some(*b),
            r is None ==> !spec_is_main_chain(self.snapshot, hash@) || spec_block(self.snapshot, hash@) is None,
    {
        if !self.snapshot.is_main_chain(hash) {
            return None;
        }
        self.snapshot.get_block(hash)
    }

    /// The main-chain block at `number`; an index entry without its block is
    /// an inconsistency.
    pub fn get_block_by_number(&self, number: u64) -> (r: Result<Option<&Block>, RpcError>)
        ensures
            spec_block_hash(self.snapshot, number) is None ==> r == Ok::<Option<&Block>, RpcError>(None),
            spec_block_hash(self.snapshot, number) matches Some(h) ==> match spec_block(self.snapshot, h@) {
                Some(b) => r matches Ok(Some(rb)) && *rb == b,
                None => r == Err::<Option<&Block>, RpcError>(
                    RpcError::ChainIndexIsInconsistent(Inconsistency::BlockMissing { number, hash: h }),
                ),
            },
    {
        let block_hash = match self.snapshot.get_block_hash(number) {
            Some(h) => h,
            None => return Ok(None),
        };
        match self.snapshot.get_block(&block_hash) {
            Some(b) => Ok(Some(b)),
            None => Err(
                RpcError::ChainIndexIsInconsistent(Inconsistency::BlockMissing { number, hash: block_hash }),
            ),
        }
    }

    /// The header with this hash, if it is on the main chain.
    pub fn get_header(&self, hash: &H256) -> (r: Option<&Header>)
        ensures
            r matches Some(h) ==> spec_is_main_chain(self.snapshot, hash@) && spec_header(self.snapshot, hash@)
                == Some(*h),
            r is None ==> !spec_is_main_chain(self.snapshot, hash@) || spec_header(self.snapshot, hash@) is None,
    {
        if !self.snapshot.is_main_chain(hash) {
            return None;
        }
        self.snapshot.get_block_header(hash)
    }

    /// The main-chain header at `number`; an index entry without its header
    /// is an inconsistency.
    pub fn get_header_by_number(&self, number: u64) -> (r: Result<Option<&Header>, RpcError>)
        ensures
            spec_block_hash(self.snapshot, number) is None ==> r == Ok::<Option<&Header>, RpcError>(None),
            spec_block_hash(self.snapshot, number) matches Some(h) ==> match spec_header(self.snapshot, h@) {
                Some(hd) => r matches Ok(Some(rh)) && *rh == hd,
                None => r == Err::<Option<&Header>, RpcError>(
                    RpcError::ChainIndexIsInconsistent(Inconsistency::BlockMissing { number, hash: h }),
                ),
            },
    {
        let block_hash = match self.snapshot.get_block_hash(number) {
            Some(h) => h,
            None => return Ok(None),
        };
        match self.snapshot.get_block_header(&block_hash) {
            Some(h) => Ok(Some(h)),
            None => Err(
                RpcError::ChainIndexIsInconsistent(Inconsistency::BlockMissing { number, hash: block_hash }),
            ),
        }
    }

    /// The committed transaction with this hash and its block.
    pub fn get_committed_transaction(&self, hash: &H256) -> (r: Option<(&Transaction, H256)>)
        ensures
            r matches Some((t, bh)) ==> spec_transaction(self.snapshot, hash@) == Some((*t, bh)),
            r is None ==> spec_transaction(self.snapshot, hash@) is None,
    {
        let info = match self.snapshot.get_transaction_info(hash) {
            Some(i) => i,
            None => return None,
        };
        let block = match self.snapshot.get_block(&info.block_hash) {
            Some(b) => b,
            None => return None,
        };
        if info.index < block.transactions.len() as u64 {
            Some((&block.transactions[info.index as usize], info.block_hash))
        } else {
            None
        }
    }

    /// The transaction with this hash and where it stands. `pool` is the
    /// transaction pool's answer for it (`Err` when the pool could not be
    /// asked); the pool is consulted before the snapshot.
    pub fn get_transaction(&self, hash: &H256, pool: Result<Option<(bool, Transaction)>, String>) -> (r: Result<
        Option<TransactionWithStatus>,
        RpcError,
    >)
        ensures
            pool matches Err(e) ==> r == Err::<Option<TransactionWithStatus>, RpcError>(RpcError::CkbInternalError(e)),
            pool matches Ok(p) ==> (r matches Ok(o) && match o {
                Some(t) => tx_status_spec(self.snapshot, hash@, p) == Some(t.tx_status),
                None => tx_status_spec(self.snapshot, hash@, p) is None,
            }),
            pool matches Ok(Some((_, tx))) ==> (r matches Ok(Some(t)) && t.transaction == tx),
            pool matches Ok(None) ==> (r matches Ok(Some(t)) ==> spec_transaction(self.snapshot, hash@) matches Some(
                (ct, _),
            ) && same_transaction(t.transaction, ct)),
    {
        let p = match pool {
            Err(e) => return Err(RpcError::CkbInternalError(e)),
            Ok(p) => p,
        };
        match p {
            Some((proposed, tx)) => {
                let tx_status = if proposed {
                    TxStatus::Proposed
                } else {
                    TxStatus::Pending
                };
                Ok(Some(TransactionWithStatus { transaction: tx, tx_status }))
            },
            None => match self.get_committed_transaction(hash) {
                Some((tx, bh)) => Ok(
                    Some(TransactionWithStatus { transaction: tx.copy(), tx_status: TxStatus::Committed(bh) }),
                ),
                None => Ok(None),
            },
        }
    }

    /// The main-chain hash at `number`.
    pub fn get_block_hash(&self, number: u64) -> (r: Option<H256>)
        ensures
            r == spec_block_hash(self.snapshot, number),
    {
        self.snapshot.get_block_hash(number)
    }

    pub fn get_tip_header(&self) -> (r: &Header)
        ensures
            *r == self.snapshot.tip,
    {
        self.snapshot.tip_header()
    }

    pub fn get_tip_block_number(&self) -> (r: u64)
        ensures
            r == self.snapshot.tip.number,
    {
        self.snapshot.tip_number()
    }

    pub fn get_current_epoch(&self) -> (r: EpochExt)
        ensures
            r == self.snapshot.current_epoch,
    {
        self.snapshot.epoch_ext()
    }

    pub fn get_epoch_by_number(&self, number: u64) -> (r: Option<EpochExt>)
        ensures
            r == spec_epoch(self.snapshot, number),
    {
        self.snapshot.get_epoch_ext(number)
    }

    /// The status of the cell at `out_point`, with its output when live and
    /// its data when live and asked for.
    pub fn get_live_cell(&self, out_point: &OutPoint, with_data: bool) -> (r: CellWithStatus)
        ensures
            r.status == cell_status_spec(self.snapshot, *out_point),
            r.status == CellStatus::Live ==> (r.cell matches Some(c) && spec_transaction(
                self.snapshot,
                out_point.tx_hash@,
            ) matches Some((tx, _)) && c == tx.outputs@[out_point.index as int]),
            r.status != CellStatus::Live ==> r.cell is None && r.data is None,
            r.status == CellStatus::Live ==> (r.data is Some <==> with_data),
            r.data matches Some(d) ==> (spec_transaction(self.snapshot, out_point.tx_hash@) matches Some((tx, _))
                && d@ == data_of(tx, out_point.index as int)),
    {
        let unknown = CellWithStatus { cell: None, data: None, status: CellStatus::Unknown };
        let meta = match self.snapshot.get_tx_meta(&out_point.tx_hash) {
            Some(m) => m,
            None => return unknown,
        };
        match meta.is_dead(out_point.index as usize) {
            None => unknown,
            Some(true) => CellWithStatus { cell: None, data: None, status: CellStatus::Dead },
            Some(false) => match self.get_committed_transaction(&out_point.tx_hash) {
                Some((tx, _)) => {
                    let i = out_point.index as usize;
                    if i < tx.outputs.len() {
                        let data = if with_data {
                            if i < tx.outputs_data.len() {
                                Some(copy_bytes(&tx.outputs_data[i]))
                            } else {
                                Some(Vec::new())
                            }
                        } else {
                            None
                        };
                        CellWithStatus { cell: Some(tx.outputs[i]), data, status: CellStatus::Live }
                    } else {
                        unknown
                    }
                },
                None => unknown,
            },
        }
    }

    /// Appends the live cells locked by `lock` in one block.
    fn push_block_cells(&self, block: &Block, block_hash: H256, lock: &H256, result: &mut Vec<CellOutputWithOutPoint>)
        ensures
            final(result)@ == old(result)@ + tx_cells(self.snapshot, block.transactions@, block_hash, lock@,
                block.transactions@.len() as int),
    {
        let ghost start = result@;
        let mut t: usize = 0;
        while t < block.transactions.len()
            invariant
                0 <= t <= block.transactions@.len(),
                result@ == start + tx_cells(self.snapshot, block.transactions@, block_hash, lock@, t as int),
            decreases block.transactions@.len() - t,
        {
            let tx = &block.transactions[t];
            let ghost before = result@;
            match self.snapshot.get_tx_meta(&tx.hash) {
                Some(meta) => {
                    let mut i: usize = 0;
                    while i < tx.outputs.len()
                        invariant
                            0 <= i <= tx.outputs@.len(),
                            result@ == before + output_cells(*tx, *meta, block_hash, lock@, i as int),
                        decreases tx.outputs@.len() - i,
                    {
                        if tx.outputs[i].lock_hash.same(lock) && meta.is_dead(i) == Some(false) {
                            let entry = make_cell_entry(tx, meta, block_hash, i);
                            result.push(entry);
                            assert(result@ =~= before + output_cells(*tx, *meta, block_hash, lock@, i as int + 1));
                        } else {
                            assert(output_cells(*tx, *meta, block_hash, lock@, i as int + 1)
                                == output_cells(*tx, *meta, block_hash, lock@, i as int));
                        }
                        i = i + 1;
                    }
                    assert(result@ =~= start + tx_cells(self.snapshot, block.transactions@, block_hash, lock@, t as int + 1));
                },
                None => {},
            }
            t = t + 1;
        }
    }

    /// The live cells locked by `lock_hash` in main-chain blocks `from ..= to`,
    /// block by block, transaction by transaction, output by output. The
    /// range may span at most `PAGE_SIZE`; numbers past the tip are skipped.
    pub fn get_cells_by_lock_hash(&self, lock_hash: &H256, from: u64, to: u64) -> (r: Result<
        Vec<CellOutputWithOutPoint>,
        RpcError,
    >)
        ensures
            r matches Ok(v) ==> cells_by_lock_hash(self.snapshot, lock_hash@, from, to) == Ok::<
                Seq<CellOutputWithOutPoint>,
                RpcError,
            >(v@),
            r matches Err(e) ==> cells_by_lock_hash(self.snapshot, lock_hash@, from, to) == Err::<
                Seq<CellOutputWithOutPoint>,
                RpcError,
            >(e),
    {
        if from > to {
            return Err(RpcError::InvalidParams(InvalidParams::FromAfterTo { from, to }));
        } else if to - from > PAGE_SIZE {
            return Err(RpcError::InvalidParams(InvalidParams::RangeTooLarge { span: to - from }));
        }
        let count: u64 = to - from + 1;
        let mut result: Vec<CellOutputWithOutPoint> = Vec::new();
        let mut k: u64 = 0;
        while k < count
            invariant
                0 <= k <= count,
                count == to - from + 1,
                from <= to,
                to - from <= PAGE_SIZE,
                scan_cells(self.snapshot, lock_hash@, from, k as nat) == Ok::<
                    Seq<CellOutputWithOutPoint>,
                    RpcError,
                >(result@),
            decreases count - k,
        {
            let block_number = from + k;
            let block_hash = match self.snapshot.get_block_hash(block_number) {
                Some(h) => h,
                None => {
                    proof {
                        lemma_scan_past_tip(self.snapshot, lock_hash@, from, k as nat, count as nat);
                    }
                    return Ok(result);
                },
            };
            let block = match self.snapshot.get_block(&block_hash) {
                Some(b) => b,
                None => {
                    proof {
                        lemma_scan_step(self.snapshot, lock_hash@, from, k as nat, result@, block_hash);
                        lemma_scan_err(self.snapshot, lock_hash@, from, (k + 1) as nat, count as nat);
                    }
                    return Err(
                        RpcError::ChainIndexIsInconsistent(
                            Inconsistency::BlockMissing { number: block_number, hash: block_hash },
                        ),
                    );
                },
            };
            proof {
                lemma_scan_step(self.snapshot, lock_hash@, from, k as nat, result@, block_hash);
            }
            self.push_block_cells(block, block_hash, lock_hash, &mut result);
            k = k + 1;
        }
        Ok(result)
    }
}

} // verus!
