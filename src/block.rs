//! Headers, transactions and blocks.
use vstd::prelude::*;
use crate::error::Error;
use crate::hash::{H256, U256};
use crate::merkle::{cbmt_root, merkle_root, transactions_root, transactions_root_of};

verus! {

/// A block header. `hash` is its identity, the hash of its canonical
/// serialization, which the serialization layer supplies.
#[derive(Clone, Debug)]
pub struct Header {
    pub hash: H256,
    pub version: u32,
    pub parent_hash: H256,
    /// Milliseconds since the Unix epoch.
    pub timestamp: u64,
    pub number: u64,
    /// CBMT root over the transaction hashes.
    pub txs_commit: H256,
    /// CBMT root over the witness hashes.
    pub witnesses_commit: H256,
    /// Two-leaf root of `txs_commit` and the witnesses root.
    pub transactions_root: H256,
    pub difficulty: U256,
    pub nonce: u128,
    pub proof: Vec<u8>,
}

impl Header {
    pub fn hash(&self) -> (r: H256)
        ensures
            r@ == self.hash@,
    {
        self.hash
    }

    pub fn number(&self) -> (r: u64)
        ensures
            r == self.number,
    {
        self.number
    }

    pub fn timestamp(&self) -> (r: u64)
        ensures
            r == self.timestamp,
    {
        self.timestamp
    }

    pub fn parent_hash(&self) -> (r: H256)
        ensures
            r@ == self.parent_hash@,
    {
        self.parent_hash
    }

    pub fn difficulty(&self) -> (r: U256)
        ensures
            r == self.difficulty,
    {
        self.difficulty
    }

    /// A header is the genesis header iff its number is 0.
    pub fn is_genesis(&self) -> (r: bool)
        ensures
            r == (self.number == 0),
    {
        self.number == 0
    }
}

/// A cell output: its capacity in shannons, the hash of its lock script and
/// the hash of its type script, if any.
#[derive(Clone, Copy, Debug)]
pub struct CellOutput {
    pub capacity: u64,
    pub lock_hash: H256,
    pub type_hash: Option<H256>,
}

/// A reference to output `index` of transaction `tx_hash`.
#[derive(Clone, Copy, Debug)]
pub struct OutPoint {
    pub tx_hash: H256,
    pub index: u32,
}

/// A transaction: its hash over the non-witness bytes, its witness hash if it
/// carries witnesses, its inputs, and its outputs with their data.
#[derive(Clone, Debug)]
pub struct Transaction {
    pub hash: H256,
    pub witness_hash: Option<H256>,
    pub inputs: Vec<OutPoint>,
    pub outputs: Vec<CellOutput>,
    pub outputs_data: Vec<Vec<u8>>,
}

/// A copy of a byte vector.
pub(crate) fn copy_bytes(v: &Vec<u8>) -> (r: Vec<u8>)
    ensures
        r@ == v@,
{
    let mut out: Vec<u8> = Vec::new();
    let mut i: usize = 0;
    while i < v.len()
        invariant
            0 <= i <= v@.len(),
            out@ == v@.subrange(0, i as int),
        decreases v@.len() - i,
    {
        out.push(v[i]);
        i = i + 1;
        assert(out@ =~= v@.subrange(0, i as int));
    }
    assert(v@.subrange(0, v@.len() as int) =~= v@);
    out
}

/// Whether two transactions hold the same values.
pub open spec fn same_transaction(a: Transaction, b: Transaction) -> bool {
    &&& a.hash == b.hash
    &&& a.witness_hash == b.witness_hash
    &&& a.inputs@ == b.inputs@
    &&& a.outputs@ == b.outputs@
    &&& a.outputs_data@.len() == b.outputs_data@.len()
    &&& forall|i: int| 0 <= i < a.outputs_data@.len() ==> (#[trigger] a.outputs_data@[i])@ == b.outputs_data@[i]@
}

impl Transaction {
    pub fn hash(&self) -> (r: H256)
        ensures
            r@ == self.hash@,
    {
        self.hash
    }

    /// A copy holding the same values.
    pub fn copy(&self) -> (r: Transaction)
        ensures
            same_transaction(r, *self),
    {
        let mut inputs: Vec<OutPoint> = Vec::new();
        let mut i: usize = 0;
        while i < self.inputs.len()
            invariant
                0 <= i <= self.inputs@.len(),
                inputs@ == self.inputs@.subrange(0, i as int),
            decreases self.inputs@.len() - i,
        {
            inputs.push(self.inputs[i]);
            i = i + 1;
            assert(inputs@ =~= self.inputs@.subrange(0, i as int));
        }
        let mut outputs: Vec<CellOutput> = Vec::new();
        let mut j: usize = 0;
        while j < self.outputs.len()
            invariant
                0 <= j <= self.outputs@.len(),
                outputs@ == self.outputs@.subrange(0, j as int),
            decreases self.outputs@.len() - j,
        {
            outputs.push(self.outputs[j]);
            j = j + 1;
            assert(outputs@ =~= self.outputs@.subrange(0, j as int));
        }
        let mut outputs_data: Vec<Vec<u8>> = Vec::new();
        let mut k: usize = 0;
        while k < self.outputs_data.len()
            invariant
                0 <= k <= self.outputs_data@.len(),
                outputs_data@.len() == k,
                forall|m: int| 0 <= m < k ==> (#[trigger] outputs_data@[m])@ == self.outputs_data@[m]@,
            decreases self.outputs_data@.len() - k,
        {
            outputs_data.push(copy_bytes(&self.outputs_data[k]));
            k = k + 1;
        }
        assert(inputs@ =~= self.inputs@);
        assert(outputs@ =~= self.outputs@);
        Transaction { hash: self.hash, witness_hash: self.witness_hash, inputs, outputs, outputs_data }
    }
}

/// The transaction hashes of a sequence of transactions.
pub open spec fn tx_hashes_of(txs: Seq<Transaction>) -> Seq<Seq<u8>> {
    txs.map_values(|t: Transaction| t.hash@)
}

/// Whether every transaction carries a witness hash (and there is one at least).
pub open spec fn carries_witnesses(txs: Seq<Transaction>) -> bool {
    txs.len() > 0 && forall|i: int| 0 <= i < txs.len() ==> (#[trigger] txs[i]).witness_hash is Some
}

/// The witness hashes of transactions that all carry one.
pub open spec fn witness_hashes_of(txs: Seq<Transaction>) -> Seq<Seq<u8>> {
    txs.map_values(|t: Transaction| t.witness_hash->Some_0@)
}

/// The witnesses root of a block's transactions: the CBMT root over their
/// witness hashes, or the zero hash when not every one carries one.
pub open spec fn witnesses_root_spec(txs: Seq<Transaction>) -> Seq<u8> {
    if carries_witnesses(txs) {
        cbmt_root(witness_hashes_of(txs))
    } else {
        crate::merkle::zero_hash()
    }
}

/// A block: its header and its transactions, the cellbase first.
#[derive(Clone, Debug)]
pub struct Block {
    pub header: Header,
    pub transactions: Vec<Transaction>,
}

impl Block {
    pub open spec fn txs_root_spec(&self) -> Seq<u8> {
        cbmt_root(tx_hashes_of(self.transactions@))
    }

    pub fn new(header: Header, transactions: Vec<Transaction>) -> (r: Block)
        ensures
            r.header == header,
            r.transactions@ == transactions@,
    {
        Block { header, transactions }
    }

    pub fn header(&self) -> (r: &Header)
        ensures
            *r == self.header,
    {
        &self.header
    }

    pub fn hash(&self) -> (r: H256)
        ensures
            r@ == self.header.hash@,
    {
        self.header.hash
    }

    pub fn is_genesis(&self) -> (r: bool)
        ensures
            r == (self.header.number == 0),
    {
        self.header.is_genesis()
    }

    /// Context-free validation; nothing to check beyond the roots.
    pub fn validate(&self) -> (r: Result<(), Error>)
        ensures
            r is Ok,
    {
        Ok(())
    }

    /// The transaction hashes, in block order.
    pub fn tx_hashes(&self) -> (r: Vec<H256>)
        ensures
            r@ == self.transactions@.map_values(|t: Transaction| t.hash),
            r@.map_values(|h: H256| h@) == tx_hashes_of(self.transactions@),
    {
        let mut out: Vec<H256> = Vec::new();
        let mut i: usize = 0;
        while i < self.transactions.len()
            invariant
                0 <= i <= self.transactions@.len(),
                out@.len() == i,
                forall|j: int| 0 <= j < i ==> (#[trigger] out@[j])@ == self.transactions@[j].hash@,
                forall|j: int| 0 <= j < i ==> (#[trigger] out@[j]) == self.transactions@[j].hash,
            decreases self.transactions@.len() - i,
        {
            out.push(self.transactions[i].hash);
            i = i + 1;
        }
        assert(out@.map_values(|h: H256| h@) =~= tx_hashes_of(self.transactions@));
        assert(out@ =~= self.transactions@.map_values(|t: Transaction| t.hash));
        out
    }

    /// The CBMT root over the transaction hashes.
    pub fn calc_txs_root(&self) -> (r: H256)
        ensures
            r@ == self.txs_root_spec(),
    {
        let hashes = self.tx_hashes();
        assert(crate::merkle::hashes_view(hashes@) == tx_hashes_of(self.transactions@));
        merkle_root(&hashes)
    }

    /// Checks that the transactions root commits to the transactions.
    pub fn check_txs_root(&self) -> (r: Result<(), Error>)
        ensures
            r is Ok <==> self.txs_root_spec() == self.header.txs_commit@,
            r matches Err(e) ==> (e matches Error::InvalidTransactionsRoot(exp, act)
                && exp@ == self.header.txs_commit@ && act@ == self.txs_root_spec()),
    {
        let txs_root = self.calc_txs_root();
        if txs_root.same(&self.header.txs_commit) {
            Ok(())
        } else {
            Err(Error::InvalidTransactionsRoot(self.header.txs_commit, txs_root))
        }
    }

    /// The witness hashes, when every transaction carries one.
    pub fn witness_hashes(&self) -> (r: Option<Vec<H256>>)
        ensures
            r is Some <==> carries_witnesses(self.transactions@),
            r matches Some(v) ==> v@.map_values(|h: H256| h@) == witness_hashes_of(self.transactions@),
    {
        if self.transactions.len() == 0 {
            return None;
        }
        let mut out: Vec<H256> = Vec::new();
        let mut i: usize = 0;
        while i < self.transactions.len()
            invariant
                0 <= i <= self.transactions@.len(),
                out@.len() == i,
                forall|j: int| 0 <= j < i ==> (#[trigger] self.transactions@[j]).witness_hash is Some,
                forall|j: int| 0 <= j < i ==> (#[trigger] out@[j])@ == self.transactions@[j].witness_hash->Some_0@,
            decreases self.transactions@.len() - i,
        {
            match self.transactions[i].witness_hash {
                Some(w) => out.push(w),
                None => return None,
            }
            i = i + 1;
        }
        assert(out@.map_values(|h: H256| h@) =~= witness_hashes_of(self.transactions@));
        Some(out)
    }

    /// The CBMT root over the witness hashes; the zero hash when not every
    /// transaction carries one.
    pub fn calc_witnesses_root(&self) -> (r: H256)
        ensures
            r@ == witnesses_root_spec(self.transactions@),
    {
        match self.witness_hashes() {
            Some(w) => {
                assert(crate::merkle::hashes_view(w@) == witness_hashes_of(self.transactions@));
                merkle_root(&w)
            },
            None => H256::zero(),
        }
    }

    /// Checks the two-level root: when the block carries witnesses, the
    /// header's `transactions_root` must be the two-leaf root of the
    /// transactions root and the witnesses root.
    pub fn check_transactions_root(&self) -> (r: Result<(), Error>)
        ensures
            r is Ok <==> (!carries_witnesses(self.transactions@) || self.header.transactions_root@
                == transactions_root_of(self.txs_root_spec(), cbmt_root(witness_hashes_of(self.transactions@)))),
            r matches Err(e) ==> (e matches Error::InvalidTransactionsRoot(exp, act)
                && exp@ == self.header.transactions_root@
                && act@ == transactions_root_of(self.txs_root_spec(), cbmt_root(witness_hashes_of(self.transactions@)))),
    {
        match self.witness_hashes() {
            None => Ok(()),
            Some(w) => {
                assert(crate::merkle::hashes_view(w@) == witness_hashes_of(self.transactions@));
                let witnesses_root = merkle_root(&w);
                let txs_root = self.calc_txs_root();
                let full = transactions_root(&txs_root, &witnesses_root);
                if full.same(&self.header.transactions_root) {
                    Ok(())
                } else {
                    Err(Error::InvalidTransactionsRoot(self.header.transactions_root, full))
                }
            },
        }
    }
}

} // verus!
