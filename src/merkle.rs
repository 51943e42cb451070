//! Complete binary Merkle tree (CBMT) roots and inclusion proofs over 32-byte
//! hashes.
//!
//! Tree shape: a complete binary tree over `n` leaves stored at tree indices
//! `[n - 1, 2n - 1)`, internal node `i` with children `2i + 1` and `2i + 2`,
//! root at index 0. Roots and proofs are computed by `ckb_types`.
use vstd::prelude::*;
use crate::hash::H256;

verus! {

/// The hashes of a sequence, as byte sequences.
pub open spec fn hashes_view(v: Seq<H256>) -> Seq<Seq<u8>> {
    v.map_values(|h: H256| h@)
}

/// The all-zero hash.
pub open spec fn zero_hash() -> Seq<u8> {
    Seq::new(32, |i: int| 0u8)
}

/// The CBMT root of a sequence of leaves, as `ckb_types` computes it.
pub uninterp spec fn cbmt_root(leaves: Seq<Seq<u8>>) -> Seq<u8>;

/// The `(tree indices, lemmas)` of the CBMT proof for the given leaf positions,
/// as `ckb_types` builds it.
pub uninterp spec fn cbmt_proof(leaves: Seq<Seq<u8>>, leaf_indices: Seq<u32>) -> (Seq<u32>, Seq<Seq<u8>>);

/// The root that a CBMT proof `(indices, lemmas)` reconstructs from the given
/// leaves, as `ckb_types` computes it (`None` when the proof does not fit).
pub uninterp spec fn cbmt_proof_root(indices: Seq<u32>, lemmas: Seq<Seq<u8>>, leaves: Seq<Seq<u8>>) -> Option<Seq<u8>>;

/// The tree index of leaf position `i` among `n` leaves.
pub open spec fn tree_index(n: nat, i: u32) -> u32 {
    (i + n - 1) as u32
}

/// A proof of inclusion: tree indices of the proven leaves and the sibling
/// hashes in the order the tree is peeled.
#[derive(Clone, Debug)]
pub struct MerkleProof {
    pub indices: Vec<u32>,
    pub lemmas: Vec<H256>,
}

impl MerkleProof {
    pub fn new(indices: Vec<u32>, lemmas: Vec<H256>) -> (r: MerkleProof)
        ensures
            r.indices@ == indices@,
            r.lemmas@ == lemmas@,
    {
        MerkleProof { indices, lemmas }
    }

    pub fn indices(&self) -> (r: &Vec<u32>)
        ensures
            r@ == self.indices@,
    {
        &self.indices
    }

    pub fn lemmas(&self) -> (r: &Vec<H256>)
        ensures
            r@ == self.lemmas@,
    {
        &self.lemmas
    }
}

/// Whether `(indices, lemmas)` is the CBMT proof built over leaves `l` for
/// the valid, non-empty positions `i`, and `leaves` holds the leaves at `i`
/// (in any order).
pub open spec fn proof_fits(l: Seq<Seq<u8>>, i: Seq<u32>, indices: Seq<u32>, lemmas: Seq<Seq<u8>>, leaves: Seq<Seq<u8>>) -> bool {
    &&& l.len() > 0
    &&& i.len() > 0
    &&& 2 * l.len() <= u32::MAX
    &&& valid_leaf_indices(l.len(), i)
    &&& (indices, lemmas) == cbmt_proof(l, i)
    &&& leaves.to_multiset() == i.map_values(|k: u32| l[k as int]).to_multiset()
}

/// Mapping two sequences that hold the same elements gives sequences that
/// hold the same elements.
pub proof fn lemma_map_same_elements<A, B>(a: Seq<A>, b: Seq<A>, g: spec_fn(A) -> B)
    requires
        a.to_multiset() == b.to_multiset(),
    ensures
        a.map_values(g).to_multiset() == b.map_values(g).to_multiset(),
    decreases a.len(),
{
    broadcast use vstd::seq_lib::group_to_multiset_ensures;
    broadcast use vstd::multiset::group_multiset_axioms;

    if a.len() == 0 {
        assert(a.to_multiset().len() == 0);
        assert(b.to_multiset().len() == b.len());
        assert(b.len() == 0);
        assert(a.map_values(g) =~= b.map_values(g));
    } else {
        let x = a.last();
        let a1 = a.drop_last();
        assert(a =~= a1.push(x));
        assert(a.contains(x));
        assert(b.to_multiset().count(x) > 0);
        assert(b.contains(x));
        let j = choose|j: int| 0 <= j < b.len() && b[j] == x;
        let b1 = b.remove(j);
        assert(b1.to_multiset() =~= b.to_multiset().remove(x));
        assert(a1.to_multiset() =~= a.to_multiset().remove(x));
        lemma_map_same_elements(a1, b1, g);
        let ma = a.map_values(g);
        let mb = b.map_values(g);
        assert(ma =~= a1.map_values(g).push(g(x)));
        assert(mb.remove(j) =~= b1.map_values(g));
        assert(mb[j] == g(x));
        assert(mb.remove(j).to_multiset() =~= mb.to_multiset().remove(g(x)));
        assert(mb.contains(g(x)));
        assert(ma.to_multiset() =~= mb.to_multiset());
    }
}

/// Tree indices that are those of valid leaf positions lie in the leaf range.
pub proof fn lemma_tree_indices_in_range(q: Seq<u32>, idx: Seq<u32>, n: nat)
    requires
        q.to_multiset() == idx.map_values(|i: u32| tree_index(n, i)).to_multiset(),
        forall|k: int| 0 <= k < idx.len() ==> (idx[k] as nat) < n,
        2 * n <= u32::MAX,
    ensures
        q.len() == idx.len(),
        forall|k: int| 0 <= k < q.len() ==> n - 1 <= #[trigger] q[k] < 2 * n - 1,
{
    broadcast use vstd::seq_lib::group_to_multiset_ensures;

    let ti = idx.map_values(|i: u32| tree_index(n, i));
    assert(q.to_multiset().len() == q.len());
    assert(ti.to_multiset().len() == ti.len());
    assert forall|k: int| 0 <= k < q.len() implies n - 1 <= #[trigger] q[k] < 2 * n - 1 by {
        assert(q.contains(q[k]));
        assert(ti.to_multiset().count(q[k]) > 0);
        assert(ti.contains(q[k]));
        let m = choose|m: int| 0 <= m < ti.len() && ti[m] == q[k];
        assert(idx[m] < n);
    }
}

/// Relies on `ckb_types::utilities::merkle_root`: the CBMT root of the leaves,
/// which is the zero hash for no leaves and the leaf itself for one leaf.
#[verifier::external_body]
fn cbmt_merkle_root(leaves: &Vec<H256>) -> (r: H256)
    ensures
        r@ == cbmt_root(hashes_view(leaves@)),
        leaves@.len() == 0 ==> r@ == zero_hash(),
        leaves@.len() == 1 ==> r@ == leaves@[0]@,
{
    let mut packed: Vec<ckb_types::packed::Byte32> = Vec::new();
    for h in leaves.iter() {
        packed.push(ckb_types::packed::Byte32::from(&h.0));
    }
    let root = ckb_types::utilities::merkle_root(&packed);
    H256(ckb_types::prelude::Unpack::<[u8; 32]>::unpack(&root))
}

/// The CBMT root of the leaves: the zero hash for no leaves, the leaf itself
/// for one.
pub fn merkle_root(leaves: &Vec<H256>) -> (r: H256)
    ensures
        r@ == cbmt_root(hashes_view(leaves@)),
        leaves@.len() == 0 ==> r@ == zero_hash(),
        leaves@.len() == 1 ==> r@ == leaves@[0]@,
{
    cbmt_merkle_root(leaves)
}

/// Relies on `ckb_types::utilities::CBMT::build_merkle_proof`: for distinct
/// leaf positions below the leaf count it returns a proof exactly when both
/// the leaves and the positions are non-empty; the proof's indices are the
/// tree indices of the positions, in some order.
#[verifier::external_body]
fn cbmt_build_proof(leaves: &Vec<H256>, leaf_indices: &Vec<u32>) -> (r: Option<MerkleProof>)
    requires
        2 * leaves@.len() <= u32::MAX,
        forall|k: int| 0 <= k < leaf_indices@.len() ==> (leaf_indices@[k] as nat) < leaves@.len(),
        leaf_indices@.no_duplicates(),
    ensures
        r is Some <==> (leaves@.len() > 0 && leaf_indices@.len() > 0),
        r matches Some(p) ==> (p.indices@, hashes_view(p.lemmas@)) == cbmt_proof(hashes_view(leaves@), leaf_indices@),
        r matches Some(p) ==> p.indices@.to_multiset()
            == leaf_indices@.map_values(|i: u32| tree_index(leaves@.len(), i)).to_multiset(),
{
    let mut packed: Vec<ckb_types::packed::Byte32> = Vec::new();
    for h in leaves.iter() {
        packed.push(ckb_types::packed::Byte32::from(&h.0));
    }
    let proof = ckb_types::utilities::CBMT::build_merkle_proof(&packed, leaf_indices)?;
    let mut lemmas: Vec<H256> = Vec::new();
    for l in proof.lemmas().iter() {
        lemmas.push(H256(ckb_types::prelude::Unpack::<[u8; 32]>::unpack(l)));
    }
    Some(MerkleProof { indices: proof.indices().to_vec(), lemmas })
}

/// Relies on `ckb_types::utilities::MerkleProof::root`: the root that the
/// proof reconstructs from the leaves; `None` when the leaf count differs from
/// the index count or no leaf is given. A proof that `build_merkle_proof`
/// built, given the leaves at its positions in any order (`root` sorts them,
/// as the builder sorts the indices), rebuilds the tree root.
#[verifier::external_body]
fn cbmt_proof_root_of(proof: &MerkleProof, leaves: &Vec<H256>) -> (r: Option<H256>)
    requires
        forall|k: int| 0 <= k < proof.indices@.len() ==> proof.indices@[k] < u32::MAX,
    ensures
        r matches Some(h) ==> cbmt_proof_root(proof.indices@, hashes_view(proof.lemmas@), hashes_view(leaves@)) == Some(h@),
        r is None ==> cbmt_proof_root(proof.indices@, hashes_view(proof.lemmas@), hashes_view(leaves@)) is None,
        (leaves@.len() != proof.indices@.len() || leaves@.len() == 0) ==> r is None,
        forall|l: Seq<Seq<u8>>, i: Seq<u32>|
            #![trigger proof_fits(l, i, proof.indices@, hashes_view(proof.lemmas@), hashes_view(leaves@))]
            proof_fits(l, i, proof.indices@, hashes_view(proof.lemmas@), hashes_view(leaves@))
                ==> (r is Some && r->Some_0@ == cbmt_root(l)),
{
    let mut lemmas: Vec<ckb_types::packed::Byte32> = Vec::new();
    for h in proof.lemmas.iter() {
        lemmas.push(ckb_types::packed::Byte32::from(&h.0));
    }
    let mut packed: Vec<ckb_types::packed::Byte32> = Vec::new();
    for h in leaves.iter() {
        packed.push(ckb_types::packed::Byte32::from(&h.0));
    }
    let p = ckb_types::utilities::MerkleProof::new(proof.indices.clone(), lemmas);
    let root = p.root(&packed)?;
    Some(H256(ckb_types::prelude::Unpack::<[u8; 32]>::unpack(&root)))
}


/// Leaf positions that are all below `n` and pairwise distinct.
pub open spec fn valid_leaf_indices(n: nat, leaf_indices: Seq<u32>) -> bool {
    &&& forall|k: int| 0 <= k < leaf_indices.len() ==> (leaf_indices[k] as nat) < n
    &&& leaf_indices.no_duplicates()
}

/// Builds the CBMT proof for the leaves at `leaf_indices`. Out-of-range or
/// duplicated positions, and an empty set of leaves or positions, are rejected.
pub fn build_merkle_proof(leaves: &Vec<H256>, leaf_indices: &Vec<u32>) -> (r: Option<MerkleProof>)
    requires
        2 * leaves@.len() <= u32::MAX,
    ensures
        r is Some <==> (leaves@.len() > 0 && leaf_indices@.len() > 0 && valid_leaf_indices(
            leaves@.len(),
            leaf_indices@,
        )),
        r matches Some(p) ==> (p.indices@, hashes_view(p.lemmas@)) == cbmt_proof(hashes_view(leaves@), leaf_indices@),
        r matches Some(p) ==> p.indices@.to_multiset()
            == leaf_indices@.map_values(|i: u32| tree_index(leaves@.len(), i)).to_multiset(),
{
    let n = leaves.len();
    let mut k: usize = 0;
    while k < leaf_indices.len()
        invariant
            0 <= k <= leaf_indices@.len(),
            n == leaves@.len(),
            forall|a: int| 0 <= a < k ==> (leaf_indices@[a] as nat) < n,
            forall|a: int, b: int| 0 <= a < b < k ==> leaf_indices@[a] != leaf_indices@[b],
        decreases leaf_indices@.len() - k,
    {
        if leaf_indices[k] as usize >= n {
            return None;
        }
        let mut j: usize = 0;
        while j < k
            invariant
                0 <= j <= k < leaf_indices@.len(),
                forall|a: int| 0 <= a < j ==> leaf_indices@[a] != leaf_indices@[k as int],
            decreases k - j,
        {
            if leaf_indices[j] == leaf_indices[k] {
                assert(!leaf_indices@.no_duplicates());
                return None;
            }
            j = j + 1;
        }
        k = k + 1;
    }
    cbmt_build_proof(leaves, leaf_indices)
}

/// What `retrieve_leaves` returns: the leaves at the proof's tree indices, in
/// the order of the indices, when all of them are leaf indices of a tree over
/// `leaves`.
pub open spec fn retrieved_leaves(leaves: Seq<H256>, indices: Seq<u32>) -> Option<Seq<H256>> {
    let n = leaves.len();
    if n == 0 || indices.len() == 0 || exists|k: int|
        0 <= k < indices.len() && !(n - 1 <= #[trigger] indices[k] < 2 * n - 1) {
        None
    } else {
        Some(indices.map_values(|t: u32| leaves[t + 1 - n]))
    }
}

/// The leaves that the proof's tree indices point at.
pub fn retrieve_leaves(leaves: &Vec<H256>, proof: &MerkleProof) -> (r: Option<Vec<H256>>)
    requires
        2 * leaves@.len() <= u32::MAX,
    ensures
        r matches Some(v) ==> retrieved_leaves(leaves@, proof.indices@) == Some(v@),
        r is None ==> retrieved_leaves(leaves@, proof.indices@) is None,
{
    let n = leaves.len();
    if n == 0 || proof.indices.len() == 0 {
        return None;
    }
    let mut out: Vec<H256> = Vec::new();
    let mut k: usize = 0;
    while k < proof.indices.len()
        invariant
            0 <= k <= proof.indices@.len(),
            n == leaves@.len(),
            n > 0,
            2 * n <= u32::MAX,
            out@.len() == k,
            forall|a: int| 0 <= a < k ==> n - 1 <= #[trigger] proof.indices@[a] < 2 * n - 1,
            forall|a: int| 0 <= a < k ==> out@[a] == leaves@[proof.indices@[a] + 1 - n],
        decreases proof.indices@.len() - k,
    {
        let t = proof.indices[k];
        if (t as usize) < n - 1 || (t as usize) >= 2 * n - 1 {
            return None;
        }
        out.push(leaves[t as usize + 1 - n]);
        k = k + 1;
    }
    assert(out@ =~= proof.indices@.map_values(|t: u32| leaves@[t + 1 - n]));
    Some(out)
}

/// The root that the proof reconstructs from `leaves` (given in the proof's
/// index order); `None` when it does not fit.
pub fn proof_root(proof: &MerkleProof, leaves: &Vec<H256>) -> (r: Option<H256>)
    ensures
        r matches Some(h) ==> cbmt_proof_root(proof.indices@, hashes_view(proof.lemmas@), hashes_view(leaves@)) == Some(h@),
        r is None ==> (cbmt_proof_root(proof.indices@, hashes_view(proof.lemmas@), hashes_view(leaves@)) is None
            || exists|k: int| 0 <= k < proof.indices@.len() && proof.indices@[k] == u32::MAX),
        (leaves@.len() != proof.indices@.len() || leaves@.len() == 0) ==> r is None,
        forall|l: Seq<Seq<u8>>, i: Seq<u32>|
            #![trigger proof_fits(l, i, proof.indices@, hashes_view(proof.lemmas@), hashes_view(leaves@))]
            proof_fits(l, i, proof.indices@, hashes_view(proof.lemmas@), hashes_view(leaves@))
                && proof.indices@.to_multiset() == i.map_values(|k: u32| tree_index(l.len(), k)).to_multiset()
                ==> (r is Some && r->Some_0@ == cbmt_root(l)),
{
    let mut k: usize = 0;
    while k < proof.indices.len()
        invariant
            0 <= k <= proof.indices@.len(),
            forall|a: int| 0 <= a < k ==> proof.indices@[a] < u32::MAX,
        decreases proof.indices@.len() - k,
    {
        if proof.indices[k] == u32::MAX {
            assert forall|l: Seq<Seq<u8>>, i: Seq<u32>|
                #![trigger proof_fits(l, i, proof.indices@, hashes_view(proof.lemmas@), hashes_view(leaves@))]
                proof_fits(l, i, proof.indices@, hashes_view(proof.lemmas@), hashes_view(leaves@))
                    && proof.indices@.to_multiset() == i.map_values(|j: u32| tree_index(l.len(), j)).to_multiset()
                    implies false by {
                lemma_tree_indices_in_range(proof.indices@, i, l.len());
                assert(proof.indices@[k as int] < 2 * l.len() - 1);
            }
            return None;
        }
        k = k + 1;
    }
    cbmt_proof_root_of(proof, leaves)
}

/// The outer transactions root: the two-leaf Merkle root of the raw
/// transactions root and the witnesses root.
pub open spec fn transactions_root_of(raw: Seq<u8>, witnesses: Seq<u8>) -> Seq<u8> {
    cbmt_root(seq![raw, witnesses])
}

pub fn transactions_root(raw: &H256, witnesses: &H256) -> (r: H256)
    ensures
        r@ == transactions_root_of(raw@, witnesses@),
{
    let pair: Vec<H256> = vec![*raw, *witnesses];
    let r = merkle_root(&pair);
    assert(hashes_view(pair@) =~= seq![raw@, witnesses@]);
    r
}

} // verus!
