use ckb_core_chain::block::{Block, CellOutput, Header, OutPoint, Transaction};
use ckb_core_chain::block_verifier::{check_block, BlockVerifier};
use ckb_core_chain::error::{DifficultyError, Error, NumberError, PowError, TimestampError};
use ckb_core_chain::hash::{H256, U256};
use ckb_core_chain::header_verifier::{
    check_difficulty, check_header, check_number, check_timestamp, ChainProvider, DifficultyVerifier,
    HeaderResolver, HeaderVerifier, NumberVerifier, PowEngine, PowVerifier, TimestampVerifier,
};
use ckb_core_chain::merkle::{merkle_root, transactions_root};

fn hash(tag: u8, n: u8) -> H256 {
    let mut b = [0u8; 32];
    b[0] = tag;
    b[1] = n;
    H256::from_bytes(b)
}

fn header(number: u64, timestamp: u64) -> Header {
    Header {
        hash: hash(1, number as u8),
        version: 0,
        parent_hash: hash(1, number.wrapping_sub(1) as u8),
        timestamp,
        number,
        txs_commit: H256::zero(),
        witnesses_commit: H256::zero(),
        transactions_root: H256::zero(),
        difficulty: U256::from_u64(7),
        nonce: 0,
        proof: Vec::new(),
    }
}

fn tx(h: H256) -> Transaction {
    Transaction { hash: h, witness_hash: None, inputs: Vec::new(), outputs: Vec::new(), outputs_data: Vec::new() }
}

struct AlwaysPow(bool);

impl PowEngine for AlwaysPow {
    fn verify_header(&self, _header: &Header) -> bool {
        self.0
    }
}

#[derive(Clone)]
struct Median(Option<u64>);

impl ChainProvider for Median {
    fn block_median_time(&self, _hash: &H256) -> Option<u64> {
        self.0
    }
}

struct Resolver {
    header: Header,
    parent: Option<Header>,
    difficulty: Option<U256>,
}

impl HeaderResolver for Resolver {
    fn header(&self) -> &Header {
        &self.header
    }
    fn parent(&self) -> Option<&Header> {
        self.parent.as_ref()
    }
    fn calculate_difficulty(&self) -> Option<U256> {
        self.difficulty
    }
}

#[test]
fn timestamp_equal_to_median_is_too_early() {
    let h = header(5, 1_000_000);
    let r = check_timestamp(h.parent_hash, 1_000_000, Some(1_000_000), 2_000_000);
    assert_eq!(r, Err(Error::Timestamp(TimestampError::BlockTimeTooEarly { min: 1_000_000, found: 1_000_000 })));
}

#[test]
fn timestamp_just_after_median_is_accepted() {
    let h = header(5, 1_000_001);
    assert_eq!(check_timestamp(h.parent_hash, 1_000_001, Some(1_000_000), 2_000_000), Ok(()));
}

#[test]
fn timestamp_too_far_ahead_is_too_new() {
    let h = header(5, 2_015_001);
    let r = check_timestamp(h.parent_hash, 2_015_001, Some(1_000_000), 2_000_000);
    assert_eq!(r, Err(Error::Timestamp(TimestampError::BlockTimeTooNew { max: 2_015_000, found: 2_015_001 })));
    assert_eq!(check_timestamp(h.parent_hash, 2_015_000, Some(1_000_000), 2_000_000), Ok(()));
}

#[test]
fn timestamp_unknown_parent() {
    let h = header(5, 10);
    assert_eq!(check_timestamp(h.parent_hash, 10, None, 0), Err(Error::UnknownParent(h.parent_hash)));
}

#[test]
fn timestamp_clock_near_the_end_saturates() {
    let h = header(5, u64::MAX);
    assert_eq!(check_timestamp(h.parent_hash, u64::MAX, Some(1), u64::MAX - 3), Ok(()));
}

#[test]
fn timestamp_verifier_with_given_clock() {
    let h = header(5, 1_000_000);
    let v = TimestampVerifier::new(Median(Some(1_000_000)), &h, 2_000_000);
    assert!(matches!(v.verify(), Err(Error::Timestamp(TimestampError::BlockTimeTooEarly { .. }))));
    let h2 = header(5, 1_500_000);
    let v2 = TimestampVerifier::new(Median(Some(1_000_000)), &h2, 2_000_000);
    assert_eq!(v2.verify(), Ok(()));
}

#[test]
fn number_skipping_one_is_rejected() {
    let parent = header(42, 0);
    let h = header(44, 0);
    let r = NumberVerifier::new(&parent, &h).verify();
    assert_eq!(r, Err(Error::Number(NumberError { expected: 43, actual: 44 })));
    let next = header(43, 0);
    assert_eq!(NumberVerifier::new(&parent, &next).verify(), Ok(()));
}

#[test]
fn number_after_largest_parent() {
    assert_eq!(check_number(u64::MAX, 0), Err(Error::Number(NumberError { expected: u64::MAX, actual: 0 })));
}

#[test]
fn difficulty_checks() {
    let a = U256::from_u64(7);
    let b = U256::from_u64(8);
    assert_eq!(check_difficulty(Some(a), a), Ok(()));
    assert_eq!(check_difficulty(None, a), Err(Error::Difficulty(DifficultyError::AncestorNotFound)));
    assert_eq!(
        check_difficulty(Some(b), a),
        Err(Error::Difficulty(DifficultyError::MixMismatch { expected: b, actual: a }))
    );
    let r = Resolver { header: header(2, 0), parent: Some(header(1, 0)), difficulty: Some(b) };
    assert!(matches!(DifficultyVerifier::verify(&r), Err(Error::Difficulty(DifficultyError::MixMismatch { .. }))));
}

#[test]
fn pow_verifier_follows_engine() {
    let h = header(1, 0);
    let yes = AlwaysPow(true);
    let no = AlwaysPow(false);
    assert_eq!(PowVerifier::new(&h, &yes).verify(), Ok(()));
    assert_eq!(PowVerifier::new(&h, &no).verify(), Err(Error::Pow(PowError::InvalidProof)));
}

#[test]
fn header_checks_in_order() {
    let h = header(10, 5000);
    let seven = U256::from_u64(7);
    assert_eq!(check_header(&h, false, None, None, 0, None), Err(Error::Pow(PowError::InvalidProof)));
    assert_eq!(check_header(&h, true, None, None, 0, None), Err(Error::UnknownParent(h.parent_hash)));
    assert_eq!(
        check_header(&h, true, Some(3), None, 0, None),
        Err(Error::Number(NumberError { expected: 4, actual: 10 }))
    );
    assert_eq!(check_header(&h, true, Some(9), None, 0, None), Err(Error::UnknownParent(h.parent_hash)));
    assert_eq!(
        check_header(&h, true, Some(9), Some(100), 0, None),
        Err(Error::Difficulty(DifficultyError::AncestorNotFound))
    );
    assert_eq!(check_header(&h, true, Some(9), Some(100), 0, Some(seven)), Ok(()));
}

#[test]
fn header_verifier_with_stubs() {
    let r = Resolver { header: header(2, 1), parent: Some(header(1, 0)), difficulty: Some(U256::from_u64(7)) };
    let v = HeaderVerifier::new(Median(Some(0)), AlwaysPow(true));
    assert_eq!(v.verify(&r, 1_000), Ok(()));
    let bad = Resolver { header: header(2, 1), parent: None, difficulty: None };
    assert_eq!(v.verify(&bad, 1_000), Err(Error::UnknownParent(bad.header.parent_hash)));
    let late = Resolver { header: header(2, 20_000), parent: Some(header(1, 0)), difficulty: None };
    assert_eq!(
        v.verify(&late, 1_000),
        Err(Error::Timestamp(TimestampError::BlockTimeTooNew { max: 16_000, found: 20_000 }))
    );
}

#[test]
fn invalid_transactions_root_reports_both_roots() {
    let a = hash(9, 1);
    let b = hash(9, 2);
    let mut h = header(1, 0);
    let committed = merkle_root(&vec![a, a]);
    h.txs_commit = committed;
    let block = Block::new(h, vec![tx(a), tx(b)]);
    let actual = merkle_root(&vec![a, b]);
    assert_ne!(committed, actual);
    assert_eq!(block.check_txs_root(), Err(Error::InvalidTransactionsRoot(committed, actual)));
}

#[test]
fn valid_block_passes_and_changed_leaf_fails() {
    let a = hash(9, 1);
    let b = hash(9, 2);
    let c = hash(9, 3);
    let mut h = header(1, 0);
    h.txs_commit = merkle_root(&vec![a, b, c]);
    let block = Block::new(h.clone(), vec![tx(a), tx(b), tx(c)]);
    assert_eq!(block.check_txs_root(), Ok(()));
    assert_eq!(check_block(&block, Ok(())), Ok(()));
    let changed = Block::new(h, vec![tx(a), tx(hash(9, 4)), tx(c)]);
    assert!(matches!(check_block(&changed, Ok(())), Err(Error::InvalidTransactionsRoot(_, _))));
    assert_eq!(check_block(&changed, Err(Error::Pow(PowError::InvalidProof))), Err(Error::Pow(PowError::InvalidProof)));
}

#[test]
fn witnesses_root_is_checked_when_carried() {
    let a = hash(9, 1);
    let wa = hash(8, 1);
    let mut t = tx(a);
    t.witness_hash = Some(wa);
    let mut h = header(1, 0);
    h.txs_commit = merkle_root(&vec![a]);
    let block = Block::new(h.clone(), vec![t.clone()]);
    assert!(matches!(block.check_transactions_root(), Err(Error::InvalidTransactionsRoot(_, _))));
    h.transactions_root = transactions_root(&a, &wa);
    let good = Block::new(h, vec![t]);
    assert_eq!(good.calc_witnesses_root(), wa);
    assert_eq!(good.check_transactions_root(), Ok(()));
    let v = BlockVerifier::new(HeaderVerifier::new(Median(Some(0)), AlwaysPow(true)));
    let mut hd = good.header.clone();
    hd.timestamp = 1;
    let r = Resolver { header: hd, parent: Some(header(0, 0)), difficulty: Some(U256::from_u64(7)) };
    assert_eq!(v.verify(&r, &good, 10), Ok(()));
}

#[test]
fn block_accessors() {
    let h = header(0, 0);
    let block = Block::new(h.clone(), vec![]);
    assert!(block.is_genesis());
    assert_eq!(block.hash(), h.hash);
    assert_eq!(block.header().number, 0);
    assert_eq!(block.validate(), Ok(()));
    assert!(!Block::new(header(3, 0), vec![]).is_genesis());
    let _ = OutPoint { tx_hash: h.hash, index: 0 };
    let _ = CellOutput { capacity: 1, lock_hash: h.hash, type_hash: None };
}

struct CountingResolver {
    header: Header,
    difficulty_asked: std::cell::Cell<u32>,
}

impl HeaderResolver for CountingResolver {
    fn header(&self) -> &Header {
        &self.header
    }
    fn parent(&self) -> Option<&Header> {
        None
    }
    fn calculate_difficulty(&self) -> Option<U256> {
        self.difficulty_asked.set(self.difficulty_asked.get() + 1);
        None
    }
}

#[test]
fn header_verifier_stops_at_first_error() {
    let r = CountingResolver { header: header(2, 1), difficulty_asked: std::cell::Cell::new(0) };
    let v = HeaderVerifier::new(Median(Some(0)), AlwaysPow(true));
    assert_eq!(v.verify(&r, 1_000), Err(Error::UnknownParent(r.header.parent_hash)));
    assert_eq!(r.difficulty_asked.get(), 0);
    let no_pow = HeaderVerifier::new(Median(Some(0)), AlwaysPow(false));
    assert_eq!(no_pow.verify(&r, 1_000), Err(Error::Pow(PowError::InvalidProof)));
    assert_eq!(r.difficulty_asked.get(), 0);
}
