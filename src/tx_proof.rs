//! Transaction-inclusion proofs: a CBMT proof over a block's transaction
//! hashes together with the block's witnesses root, so that inclusion can be
//! checked against the header's two-level transactions root.
use vstd::prelude::*;
use vstd::relations::{antisymmetric, reflexive, sorted_by, strongly_connected, total_ordering, transitive};
use vstd::seq_lib::lemma_sorted_unique;
use crate::block::{Block, Transaction, tx_hashes_of, witnesses_root_spec};
use crate::chain::{ChainRpcImpl, Inconsistency, InvalidParams, RpcError};
use crate::hash::H256;
use crate::merkle::{
    lemma_map_same_elements, lemma_tree_indices_in_range, proof_fits,
    MerkleProof, build_merkle_proof, tree_index, cbmt_proof, cbmt_proof_root, hashes_view, proof_root, retrieve_leaves,
    retrieved_leaves, transactions_root, transactions_root_of, valid_leaf_indices,
};
use crate::snapshot::{Snapshot, spec_block, spec_tx_info};

verus! {

#[derive(Clone, Debug)]
pub struct TransactionProof {
    pub block_hash: H256,
    pub witnesses_root: H256,
    pub proof: MerkleProof,
}

/// What looking up the first `k` hashes yields: the block they share and
/// their positions in it, or the first error.
#[verifier::opaque]
pub open spec fn collect_indices(s: Snapshot, hashes: Seq<H256>, k: nat) -> Result<(Option<H256>, Seq<u32>), RpcError>
    decreases k,
{
    if k == 0 {
        Ok((None, seq![]))
    } else {
        match collect_indices(s, hashes, (k - 1) as nat) {
            Err(e) => Err(e),
            Ok((bh, idx)) => {
                let h = hashes[k - 1];
                match spec_tx_info(s, h@) {
                    None => Err(RpcError::InvalidParams(InvalidParams::TransactionNotYetInBlock(h))),
                    Some(info) => if bh is Some && bh->Some_0@ != info.block_hash@ {
                        Err(RpcError::InvalidParams(InvalidParams::NotAllTransactionsInRetrievedBlock))
                    } else if idx.contains(info.index as u32) {
                        Err(RpcError::InvalidParams(InvalidParams::DuplicatedTxHash(h)))
                    } else {
                        Ok((Some(info.block_hash), idx.push(info.index as u32)))
                    },
                }
            },
        }
    }
}

/// The block and leaf positions a proof for `hashes` is built over, or why
/// none is.
pub open spec fn proof_target(s: Snapshot, hashes: Seq<H256>, block_hash: Option<H256>) -> Result<(H256, Seq<u32>), RpcError> {
    if hashes.len() == 0 {
        Err(RpcError::InvalidParams(InvalidParams::EmptyTransactionHashes))
    } else {
        match collect_indices(s, hashes, hashes.len()) {
            Err(e) => Err(e),
            Ok((bh, idx)) => if block_hash is Some && block_hash->Some_0@ != bh->Some_0@ {
                Err(RpcError::InvalidParams(InvalidParams::NotAllTransactionsInSpecifiedBlock))
            } else {
                Ok((bh->Some_0, idx))
            },
        }
    }
}

/// Whether a proof over these positions can be built for block `b`.
pub open spec fn buildable(b: Block, idx: Seq<u32>) -> bool {
    &&& 2 * b.transactions@.len() <= u32::MAX
    &&& b.transactions@.len() > 0
    &&& idx.len() > 0
    &&& valid_leaf_indices(b.transactions@.len(), idx)
}

/// The ascending order on positions.
pub open spec fn ascending() -> spec_fn(u32, u32) -> bool {
    |a: u32, b: u32| a <= b
}

/// The positions in ascending order.
pub open spec fn sorted_positions(idx: Seq<u32>) -> Seq<u32> {
    idx.sort_by(ascending())
}

proof fn lemma_ascending_total()
    ensures
        total_ordering(ascending()),
{
    assert(reflexive(ascending()));
    assert(antisymmetric(ascending()));
    assert(transitive(ascending()));
    assert(strongly_connected(ascending()));
}

/// Positions holding the same elements sort to the same sequence.
pub proof fn lemma_sorted_positions_same_elements(a: Seq<u32>, b: Seq<u32>)
    requires
        a.to_multiset() == b.to_multiset(),
    ensures
        sorted_positions(a) == sorted_positions(b),
{
    lemma_ascending_total();
    a.lemma_sort_by_ensures(ascending());
    b.lemma_sort_by_ensures(ascending());
    lemma_sorted_unique(sorted_positions(a), sorted_positions(b), ascending());
}

/// One position is already sorted.
pub proof fn lemma_sorted_single(i: u32)
    ensures
        sorted_positions(seq![i]) == seq![i],
{
    lemma_ascending_total();
    seq![i].lemma_sort_by_ensures(ascending());
    assert(sorted_by(seq![i], ascending()));
    lemma_sorted_unique(sorted_positions(seq![i]), seq![i], ascending());
}

/// The positions sorted ascending.
fn sort_positions(v: &Vec<u32>) -> (r: Vec<u32>)
    ensures
        r@ == sorted_positions(v@),
{
    broadcast use vstd::seq_lib::group_to_multiset_ensures;

    let mut out: Vec<u32> = Vec::new();
    let mut i: usize = 0;
    while i < v.len()
        invariant
            0 <= i <= v@.len(),
            forall|a: int, b: int| 0 <= a < b < out@.len() ==> out@[a] <= out@[b],
            out@.to_multiset() == v@.subrange(0, i as int).to_multiset(),
        decreases v@.len() - i,
    {
        let x = v[i];
        let mut pos: usize = 0;
        while pos < out.len() && out[pos] <= x
            invariant
                0 <= pos <= out@.len(),
                forall|k: int| 0 <= k < pos ==> out@[k] <= x,
            decreases out@.len() - pos,
        {
            pos = pos + 1;
        }
        let ghost before = out@;
        assert(forall|k: int| pos <= k < before.len() ==> x < before[k]) by {
            if pos < before.len() {
                assert(x < before[pos as int]);
            }
        }
        out.insert(pos, x);
        assert(v@.subrange(0, i as int + 1) =~= v@.subrange(0, i as int).push(x));
        proof {
            vstd::seq_lib::to_multiset_insert(before, pos as int, x);
            vstd::seq_lib::to_multiset_build(v@.subrange(0, i as int), x);
        }
        assert(out@.to_multiset() == before.to_multiset().insert(x));
        assert forall|a: int, b: int| 0 <= a < b < out@.len() implies out@[a] <= out@[b] by {
            if b < pos {
            } else if b == pos {
            } else if a < pos {
                assert(out@[a] == before[a]);
                assert(out@[b] == before[b - 1]);
            } else if a == pos {
            } else {
            }
        }
        i = i + 1;
    }
    proof {
        lemma_ascending_total();
        assert(v@.subrange(0, v@.len() as int) =~= v@);
        v@.lemma_sort_by_ensures(ascending());
        assert(sorted_by(out@, ascending()));
        lemma_sorted_unique(out@, sorted_positions(v@), ascending());
    }
    out
}

/// Whether `p` is the proof for the transactions at positions `idx` of
/// block `b`: it names the block and its witnesses root, and holds the CBMT
/// proof for those positions, whose tree indices are theirs.
pub open spec fn proof_for(b: Block, idx: Seq<u32>, p: TransactionProof) -> bool {
    &&& p.block_hash@ == b.header.hash@
    &&& p.witnesses_root@ == witnesses_root_spec(b.transactions@)
    &&& (p.proof.indices@, hashes_view(p.proof.lemmas@)) == cbmt_proof(tx_hashes_of(b.transactions@), idx)
    &&& p.proof.indices@.to_multiset() == idx.map_values(|i: u32| tree_index(b.transactions@.len(), i)).to_multiset()
}

proof fn lemma_collect_some(s: Snapshot, hashes: Seq<H256>, k: nat)
    requires
        k > 0,
        collect_indices(s, hashes, k) is Ok,
    ensures
        collect_indices(s, hashes, k)->Ok_0.0 is Some,
        collect_indices(s, hashes, k)->Ok_0.1.len() > 0,
{
    reveal(collect_indices);
}

pub(crate) proof fn lemma_collect_step(s: Snapshot, hashes: Seq<H256>, k: nat, bh: Option<H256>, idx: Seq<u32>)
    requires
        k < hashes.len(),
        collect_indices(s, hashes, k) == Ok::<(Option<H256>, Seq<u32>), RpcError>((bh, idx)),
    ensures
        collect_indices(s, hashes, k + 1) == match spec_tx_info(s, hashes[k as int]@) {
            None => Err(RpcError::InvalidParams(InvalidParams::TransactionNotYetInBlock(hashes[k as int]))),
            Some(info) => if bh is Some && bh->Some_0@ != info.block_hash@ {
                Err(RpcError::InvalidParams(InvalidParams::NotAllTransactionsInRetrievedBlock))
            } else if idx.contains(info.index as u32) {
                Err(RpcError::InvalidParams(InvalidParams::DuplicatedTxHash(hashes[k as int])))
            } else {
                Ok((Some(info.block_hash), idx.push(info.index as u32)))
            },
        },
{
    reveal(collect_indices);
    let k1 = (k + 1) as nat;
    assert((k1 - 1) as nat == k);
}

pub(crate) proof fn lemma_collect_zero(s: Snapshot, hashes: Seq<H256>)
    ensures
        collect_indices(s, hashes, 0) == Ok::<(Option<H256>, Seq<u32>), RpcError>((None, seq![])),
{
    reveal(collect_indices);
}

proof fn lemma_collect_err(s: Snapshot, hashes: Seq<H256>, k: nat, m: nat)
    requires
        k <= m,
        collect_indices(s, hashes, k) is Err,
    ensures
        collect_indices(s, hashes, m) == collect_indices(s, hashes, k),
    decreases m,
{
    if m > k {
        lemma_collect_err(s, hashes, k, (m - 1) as nat);
        reveal(collect_indices);
    }
}

fn contains_index(v: &Vec<u32>, x: u32) -> (r: bool)
    ensures
        r == v@.contains(x),
{
    let mut i: usize = 0;
    while i < v.len()
        invariant
            0 <= i <= v@.len(),
            forall|j: int| 0 <= j < i ==> v@[j] != x,
        decreases v@.len() - i,
    {
        if v[i] == x {
            assert(v@[i as int] == x);
            return true;
        }
        i = i + 1;
    }
    false
}

/// The hashes of the transactions of a block, in block order.
pub open spec fn block_tx_hashes(b: Block) -> Seq<H256> {
    b.transactions@.map_values(|t: Transaction| t.hash)
}

/// What `verify_transaction_proof` returns: the proven transaction hashes in
/// the proof's index order, when the proof reconstructs the block's
/// transactions root.
pub open spec fn verify_spec(s: Snapshot, p: TransactionProof) -> Result<Seq<H256>, RpcError> {
    match spec_block(s, p.block_hash@) {
        None => Err(RpcError::InvalidParams(InvalidParams::CannotFindBlock(p.block_hash))),
        Some(b) => if 2 * b.transactions@.len() > u32::MAX {
            Err(RpcError::InvalidParams(InvalidParams::InvalidTransactionProof))
        } else {
            match retrieved_leaves(block_tx_hashes(b), p.proof.indices@) {
                None => Err(RpcError::InvalidParams(InvalidParams::InvalidTransactionProof)),
                Some(leaves) => match cbmt_proof_root(
                    p.proof.indices@,
                    hashes_view(p.proof.lemmas@),
                    hashes_view(leaves),
                ) {
                    None => Err(RpcError::InvalidParams(InvalidParams::InvalidTransactionProof)),
                    Some(root) => if b.header.transactions_root@ == transactions_root_of(root, p.witnesses_root@) {
                        Ok(leaves)
                    } else {
                        Err(RpcError::InvalidParams(InvalidParams::InvalidTransactionProof))
                    },
                },
            }
        },
    }
}

/// Whether `p` is a proof that verifies: built for positions `idx` of the
/// stored block `b` it names, whose header commits to its transactions root
/// and the proof's witnesses root.
pub open spec fn round_trip_premise(s: Snapshot, p: TransactionProof, b: Block, idx: Seq<u32>) -> bool {
    &&& spec_block(s, p.block_hash@) == Some(b)
    &&& buildable(b, idx)
    &&& proof_for(b, idx, p)
    &&& b.header.transactions_root@ == transactions_root_of(b.txs_root_spec(), p.witnesses_root@)
}

/// The leaves a proof for positions `idx` of block `b` retrieves: the hashes
/// at those positions, in the proof's index order.
proof fn lemma_round_trip_leaves(b: Block, idx: Seq<u32>, p: TransactionProof)
    requires
        buildable(b, idx),
        proof_for(b, idx, p),
    ensures
        ({
            let n = b.transactions@.len();
            let hs = block_tx_hashes(b);
            let v = p.proof.indices@.map_values(|t: u32| hs[t + 1 - n]);
            &&& retrieved_leaves(hs, p.proof.indices@) == Some(v)
            &&& v.to_multiset() == idx.map_values(|k: u32| b.transactions@[k as int].hash).to_multiset()
            &&& hashes_view(v).to_multiset() == idx.map_values(|k: u32| tx_hashes_of(b.transactions@)[k as int]).to_multiset()
            &&& forall|k: int| 0 <= k < p.proof.indices@.len() ==> #[trigger] p.proof.indices@[k] < u32::MAX
        }),
{
    let n = b.transactions@.len();
    let hs = block_tx_hashes(b);
    let q = p.proof.indices@;
    let g = |t: u32| hs[t + 1 - n];
    let g2 = |t: u32| hs[t + 1 - n]@;
    let ti = idx.map_values(|i: u32| tree_index(n, i));
    lemma_tree_indices_in_range(q, idx, n);
    let v = q.map_values(g);
    assert(retrieved_leaves(hs, q)->Some_0 =~= v);
    lemma_map_same_elements(q, ti, g);
    assert(ti.map_values(g) =~= idx.map_values(|k: u32| b.transactions@[k as int].hash));
    lemma_map_same_elements(q, ti, g2);
    assert(hashes_view(v) =~= q.map_values(g2));
    assert(ti.map_values(g2) =~= idx.map_values(|k: u32| tx_hashes_of(b.transactions@)[k as int]));
}

impl ChainRpcImpl {
    /// A proof that the transactions `tx_hashes`, all in one main-chain
    /// block (`block_hash` when given), are included in it.
    pub fn get_transaction_proof(&self, tx_hashes: &Vec<H256>, block_hash: Option<H256>) -> (r: Result<
        TransactionProof,
        RpcError,
    >)
        ensures
            match proof_target(self.snapshot, tx_hashes@, block_hash) {
                Err(e) => r == Err::<TransactionProof, RpcError>(e),
                Ok((rb, idx)) => match spec_block(self.snapshot, rb@) {
                    None => r == Err::<TransactionProof, RpcError>(
                        RpcError::ChainIndexIsInconsistent(Inconsistency::TransactionBlockMissing(rb)),
                    ),
                    Some(b) => if buildable(b, sorted_positions(idx)) {
                        r matches Ok(p) && proof_for(b, sorted_positions(idx), p)
                    } else {
                        r == Err::<TransactionProof, RpcError>(
                            RpcError::ChainIndexIsInconsistent(Inconsistency::TransactionIndexOutOfBlock(rb)),
                        )
                    },
                },
            },
    {
        if tx_hashes.len() == 0 {
            return Err(RpcError::InvalidParams(InvalidParams::EmptyTransactionHashes));
        }
        proof {
            reveal(collect_indices);
        }
        let mut retrieved: Option<H256> = None;
        let mut indices: Vec<u32> = Vec::new();
        let mut k: usize = 0;
        while k < tx_hashes.len()
            invariant
                0 <= k <= tx_hashes@.len(),
                collect_indices(self.snapshot, tx_hashes@, k as nat) == Ok::<(Option<H256>, Seq<u32>), RpcError>(
                    (retrieved, indices@),
                ),
            decreases tx_hashes@.len() - k,
        {
            let tx_hash = tx_hashes[k];
            proof {
                lemma_collect_step(self.snapshot, tx_hashes@, k as nat, retrieved, indices@);
            }
            match self.snapshot.get_transaction_info(&tx_hash) {
                Some(tx_info) => {
                    match retrieved {
                        None => {},
                        Some(bh) => {
                            if !bh.same(&tx_info.block_hash) {
                                proof {
                                    lemma_collect_err(self.snapshot, tx_hashes@, k as nat + 1, tx_hashes@.len());
                                }
                                return Err(RpcError::InvalidParams(InvalidParams::NotAllTransactionsInRetrievedBlock));
                            }
                        },
                    }
                    let index = #[verifier::truncate] (tx_info.index as u32);
                    if contains_index(&indices, index) {
                        proof {
                            lemma_collect_err(self.snapshot, tx_hashes@, k as nat + 1, tx_hashes@.len());
                        }
                        return Err(RpcError::InvalidParams(InvalidParams::DuplicatedTxHash(tx_hash)));
                    }
                    indices.push(index);
                    retrieved = Some(tx_info.block_hash);
                },
                None => {
                    proof {
                        lemma_collect_err(self.snapshot, tx_hashes@, k as nat + 1, tx_hashes@.len());
                    }
                    return Err(RpcError::InvalidParams(InvalidParams::TransactionNotYetInBlock(tx_hash)));
                },
            }
            k = k + 1;
        }
        proof {
            lemma_collect_some(self.snapshot, tx_hashes@, tx_hashes@.len());
        }
        let retrieved_block_hash = match retrieved {
            Some(h) => h,
            None => return Err(RpcError::InvalidParams(InvalidParams::EmptyTransactionHashes)),
        };
        match block_hash {
            Some(specified) => {
                if !retrieved_block_hash.same(&specified) {
                    return Err(RpcError::InvalidParams(InvalidParams::NotAllTransactionsInSpecifiedBlock));
                }
            },
            None => {},
        }
        let block = match self.snapshot.get_block(&retrieved_block_hash) {
            Some(b) => b,
            None => {
                return Err(
                    RpcError::ChainIndexIsInconsistent(Inconsistency::TransactionBlockMissing(retrieved_block_hash)),
                );
            },
        };
        let leaves = block.tx_hashes();
        if leaves.len() > 2147483647 {
            return Err(
                RpcError::ChainIndexIsInconsistent(Inconsistency::TransactionIndexOutOfBlock(retrieved_block_hash)),
            );
        }
        let sorted = sort_positions(&indices);
        match build_merkle_proof(&leaves, &sorted) {
            Some(proof) => Ok(
                TransactionProof { block_hash: block.hash(), witnesses_root: block.calc_witnesses_root(), proof },
            ),
            None => Err(
                RpcError::ChainIndexIsInconsistent(Inconsistency::TransactionIndexOutOfBlock(retrieved_block_hash)),
            ),
        }
    }

    /// Checks a transaction proof against the block it names and returns the
    /// proven transaction hashes.
    pub fn verify_transaction_proof(&self, tx_proof: &TransactionProof) -> (r: Result<Vec<H256>, RpcError>)
        ensures
            r matches Ok(v) ==> verify_spec(self.snapshot, *tx_proof) == Ok::<Seq<H256>, RpcError>(v@),
            r matches Err(e) ==> verify_spec(self.snapshot, *tx_proof) == Err::<Seq<H256>, RpcError>(e),
            forall|b: Block, idx: Seq<u32>|
                #![trigger round_trip_premise(self.snapshot, *tx_proof, b, idx)]
                round_trip_premise(self.snapshot, *tx_proof, b, idx) ==> (r is Ok && r->Ok_0@.to_multiset()
                    == idx.map_values(|k: u32| b.transactions@[k as int].hash).to_multiset()),
    {
        let block = match self.snapshot.get_block(&tx_proof.block_hash) {
            Some(b) => b,
            None => return Err(RpcError::InvalidParams(InvalidParams::CannotFindBlock(tx_proof.block_hash))),
        };
        let hashes = block.tx_hashes();
        if hashes.len() > 2147483647 {
            return Err(RpcError::InvalidParams(InvalidParams::InvalidTransactionProof));
        }
        let leaves = match retrieve_leaves(&hashes, &tx_proof.proof) {
            Some(l) => l,
            None => {
                assert forall|b: Block, idx: Seq<u32>|
                    #![trigger round_trip_premise(self.snapshot, *tx_proof, b, idx)]
                    round_trip_premise(self.snapshot, *tx_proof, b, idx) implies false by {
                    lemma_round_trip_leaves(b, idx, *tx_proof);
                }
                return Err(RpcError::InvalidParams(InvalidParams::InvalidTransactionProof));
            },
        };
        assert(forall|k: int| 0 <= k < tx_proof.proof.indices@.len() ==> tx_proof.proof.indices@[k] < u32::MAX);
        let raw_root = proof_root(&tx_proof.proof, &leaves);
        assert forall|b: Block, idx: Seq<u32>|
            #![trigger round_trip_premise(self.snapshot, *tx_proof, b, idx)]
            round_trip_premise(self.snapshot, *tx_proof, b, idx) implies (raw_root is Some && raw_root->Some_0@
                == b.txs_root_spec() && leaves@.to_multiset() == idx.map_values(
                |k: u32| b.transactions@[k as int].hash,
            ).to_multiset()) by {
            lemma_round_trip_leaves(b, idx, *tx_proof);
            assert(hashes_view(hashes@) == tx_hashes_of(b.transactions@));
            assert(proof_fits(
                tx_hashes_of(b.transactions@),
                idx,
                tx_proof.proof.indices@,
                hashes_view(tx_proof.proof.lemmas@),
                hashes_view(leaves@),
            ));
        }
        let raw_root = match raw_root {
            Some(root) => root,
            None => return Err(RpcError::InvalidParams(InvalidParams::InvalidTransactionProof)),
        };
        let full = transactions_root(&raw_root, &tx_proof.witnesses_root);
        if full.same(&block.header.transactions_root) {
            Ok(leaves)
        } else {
            Err(RpcError::InvalidParams(InvalidParams::InvalidTransactionProof))
        }
    }
}

} // verus!
