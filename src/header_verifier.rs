//! Header verification: proof of work, parent, number, timestamp and
//! difficulty, checked in that order; the first failure is returned.
use vstd::prelude::*;
use crate::block::Header;
use crate::error::{DifficultyError, Error, NumberError, PowError, TimestampError};
use crate::hash::{H256, U256};

verus! {

/// How far ahead of the local clock a header's timestamp may be, in ms.
pub const ALLOWED_FUTURE_BLOCKTIME: u64 = 15000;

/// The pluggable proof-of-work check.
pub trait PowEngine {
    fn verify_header(&self, header: &Header) -> bool;
}

/// Median time of the most recent ancestors of a block.
pub trait ChainProvider {
    fn block_median_time(&self, hash: &H256) -> Option<u64>;
}

/// What a header verification needs to know about the header's surroundings.
pub trait HeaderResolver {
    fn header(&self) -> &Header;

    /// The parent header, if known.
    fn parent(&self) -> Option<&Header>;

    /// The difficulty the header is expected to carry, if it can be computed.
    fn calculate_difficulty(&self) -> Option<U256>;
}

/// Outcome of the proof-of-work check given the engine's answer.
pub open spec fn pow_result(pow_ok: bool) -> Result<(), Error> {
    if pow_ok {
        Ok(())
    } else {
        Err(Error::Pow(PowError::InvalidProof))
    }
}

/// Outcome of the number check.
pub open spec fn number_result(parent_number: u64, number: u64) -> Result<(), Error> {
    if number as int == parent_number as int + 1 {
        Ok(())
    } else {
        Err(
            Error::Number(
                NumberError {
                    expected: if parent_number < u64::MAX {
                        (parent_number + 1) as u64
                    } else {
                        u64::MAX
                    },
                    actual: number,
                },
            ),
        )
    }
}

/// The latest acceptable timestamp when the clock reads `now`.
pub open spec fn max_timestamp(now: u64) -> u64 {
    if now as int + ALLOWED_FUTURE_BLOCKTIME as int <= u64::MAX as int {
        (now + ALLOWED_FUTURE_BLOCKTIME) as u64
    } else {
        u64::MAX
    }
}

/// Outcome of the timestamp check, given the parent's median time (`None`
/// when the parent is unknown) and the clock.
pub open spec fn timestamp_result(parent_hash: H256, timestamp: u64, median: Option<u64>, now: u64) -> Result<(), Error> {
    match median {
        None => Err(Error::UnknownParent(parent_hash)),
        Some(min) => if timestamp <= min {
            Err(Error::Timestamp(TimestampError::BlockTimeTooEarly { min, found: timestamp }))
        } else if timestamp as int > now as int + ALLOWED_FUTURE_BLOCKTIME as int {
            Err(Error::Timestamp(TimestampError::BlockTimeTooNew { max: max_timestamp(now), found: timestamp }))
        } else {
            Ok(())
        },
    }
}

/// Outcome of the difficulty check given the expected difficulty.
pub open spec fn difficulty_result(expected: Option<U256>, actual: U256) -> Result<(), Error> {
    match expected {
        None => Err(Error::Difficulty(DifficultyError::AncestorNotFound)),
        Some(e) => if e == actual {
            Ok(())
        } else {
            Err(Error::Difficulty(DifficultyError::MixMismatch { expected: e, actual }))
        },
    }
}

/// Outcome of the whole header verification, given what the engine, the
/// resolver, the chain provider and the clock answered.
pub open spec fn header_result(
    header: Header,
    pow_ok: bool,
    parent_number: Option<u64>,
    median: Option<u64>,
    now: u64,
    expected_difficulty: Option<U256>,
) -> Result<(), Error> {
    if !pow_ok {
        pow_result(pow_ok)
    } else if parent_number is None {
        Err(Error::UnknownParent(header.parent_hash))
    } else if number_result(parent_number->Some_0, header.number) is Err {
        number_result(parent_number->Some_0, header.number)
    } else if timestamp_result(header.parent_hash, header.timestamp, median, now) is Err {
        timestamp_result(header.parent_hash, header.timestamp, median, now)
    } else {
        difficulty_result(expected_difficulty, header.difficulty)
    }
}

/// The number check on a parent-child pair.
pub fn check_number(parent_number: u64, number: u64) -> (r: Result<(), Error>)
    ensures
        r == number_result(parent_number, number),
        r is Ok <==> number as int == parent_number as int + 1,
{
    if parent_number < u64::MAX && number == parent_number + 1 {
        Ok(())
    } else {
        let expected = if parent_number < u64::MAX {
            parent_number + 1
        } else {
            u64::MAX
        };
        Err(Error::Number(NumberError { expected, actual: number }))
    }
}

/// The timestamp check: strictly after the parent's median time and at most
/// `ALLOWED_FUTURE_BLOCKTIME` ms after `now`.
pub fn check_timestamp(parent_hash: H256, timestamp: u64, median: Option<u64>, now: u64) -> (r: Result<(), Error>)
    ensures
        r == timestamp_result(parent_hash, timestamp, median, now),
        median is Some ==> (r is Err <==> (timestamp <= median->Some_0 || timestamp as int > now as int
            + ALLOWED_FUTURE_BLOCKTIME as int)),
{
    match median {
        None => Err(Error::UnknownParent(parent_hash)),
        Some(min) => {
            if timestamp <= min {
                return Err(Error::Timestamp(TimestampError::BlockTimeTooEarly { min, found: timestamp }));
            }
            let max = now.saturating_add(ALLOWED_FUTURE_BLOCKTIME);
            if timestamp > max {
                return Err(Error::Timestamp(TimestampError::BlockTimeTooNew { max, found: timestamp }));
            }
            Ok(())
        },
    }
}

/// The difficulty check given the expected difficulty.
pub fn check_difficulty(expected: Option<U256>, actual: U256) -> (r: Result<(), Error>)
    ensures
        r == difficulty_result(expected, actual),
{
    match expected {
        None => Err(Error::Difficulty(DifficultyError::AncestorNotFound)),
        Some(e) => {
            if e == actual {
                Ok(())
            } else {
                Err(Error::Difficulty(DifficultyError::MixMismatch { expected: e, actual }))
            }
        },
    }
}

/// The whole header verification on the answers it depends on.
pub fn check_header(
    header: &Header,
    pow_ok: bool,
    parent_number: Option<u64>,
    median: Option<u64>,
    now: u64,
    expected_difficulty: Option<U256>,
) -> (r: Result<(), Error>)
    ensures
        r == header_result(*header, pow_ok, parent_number, median, now, expected_difficulty),
{
    if !pow_ok {
        return Err(Error::Pow(PowError::InvalidProof));
    }
    let parent_number = match parent_number {
        Some(p) => p,
        None => return Err(Error::UnknownParent(header.parent_hash)),
    };
    let n = check_number(parent_number, header.number);
    if n.is_err() {
        return n;
    }
    let t = check_timestamp(header.parent_hash, header.timestamp, median, now);
    if t.is_err() {
        return t;
    }
    check_difficulty(expected_difficulty, header.difficulty)
}

pub struct PowVerifier<'a, P: PowEngine> {
    pub header: &'a Header,
    pub pow: &'a P,
}

impl<'a, P: PowEngine> PowVerifier<'a, P> {
    pub fn new(header: &'a Header, pow: &'a P) -> (r: Self)
        ensures
            *r.header == *header,
    {
        PowVerifier { header, pow }
    }

    /// `Ok` iff the engine accepts the header.
    pub fn verify(&self) -> (r: Result<(), Error>)
        ensures
            r == pow_result(r is Ok),
    {
        let ok = self.pow.verify_header(self.header);
        if ok {
            Ok(())
        } else {
            Err(Error::Pow(PowError::InvalidProof))
        }
    }
}

pub struct NumberVerifier<'a> {
    pub parent: &'a Header,
    pub header: &'a Header,
}

impl<'a> NumberVerifier<'a> {
    pub fn new(parent: &'a Header, header: &'a Header) -> (r: Self)
        ensures
            *r.parent == *parent,
            *r.header == *header,
    {
        NumberVerifier { parent, header }
    }

    /// `Ok` iff the header's number is its parent's plus one.
    pub fn verify(&self) -> (r: Result<(), Error>)
        ensures
            r == number_result(self.parent.number, self.header.number),
            r is Ok <==> self.header.number as int == self.parent.number as int + 1,
    {
        check_number(self.parent.number, self.header.number)
    }
}

pub struct TimestampVerifier<'a, C: ChainProvider> {
    pub header: &'a Header,
    pub chain_provider: C,
    /// The clock reading, in ms.
    pub now: u64,
}

impl<'a, C: ChainProvider> TimestampVerifier<'a, C> {
    /// A verifier against the clock reading `now` (ms since the Unix epoch).
    pub fn new(chain_provider: C, header: &'a Header, now: u64) -> (r: Self)
        ensures
            *r.header == *header,
            r.chain_provider == chain_provider,
            r.now == now,
    {
        TimestampVerifier { chain_provider, header, now }
    }

    /// Rejects a timestamp not after the parent's median time or too far
    /// ahead of the clock.
    pub fn verify(&self) -> (r: Result<(), Error>)
        ensures
            exists|median: Option<u64>|
                r == timestamp_result(self.header.parent_hash, self.header.timestamp, median, self.now),
    {
        let median = self.chain_provider.block_median_time(&self.header.parent_hash);
        check_timestamp(self.header.parent_hash, self.header.timestamp, median, self.now)
    }
}

pub struct DifficultyVerifier {
}

impl DifficultyVerifier {
    /// Compares the header's difficulty with the one the resolver computes.
    pub fn verify<T: HeaderResolver>(resolver: &T) -> (r: Result<(), Error>)
        ensures
            exists|expected: Option<U256>, actual: U256| r == difficulty_result(expected, actual),
    {
        let expected = resolver.calculate_difficulty();
        let actual = resolver.header().difficulty;
        check_difficulty(expected, actual)
    }
}

pub struct HeaderVerifier<P: PowEngine, C: ChainProvider + Clone> {
    pub pow: P,
    pub chain_provider: C,
}

impl<P: PowEngine, C: ChainProvider + Clone> HeaderVerifier<P, C> {
    pub fn new(chain_provider: C, pow: P) -> (r: Self)
        ensures
            r.pow == pow,
            r.chain_provider == chain_provider,
    {
        HeaderVerifier { pow, chain_provider }
    }

    /// Proof of work, parent, number, timestamp (against the clock reading
    /// `now`) and difficulty, in that order; each collaborator is asked only
    /// once the checks before it have passed.
    pub fn verify<T: HeaderResolver>(&self, target: &T, now: u64) -> (r: Result<(), Error>)
        ensures
            exists|h: Header, pow_ok: bool, parent_number: Option<u64>, median: Option<u64>, expected: Option<U256>|
                r == header_result(h, pow_ok, parent_number, median, now, expected),
    {
        let header = target.header();
        if !self.pow.verify_header(header) {
            assert(header_result(*header, false, None, None, now, None) == Err::<(), Error>(
                Error::Pow(PowError::InvalidProof),
            ));
            return Err(Error::Pow(PowError::InvalidProof));
        }
        let parent_number = match target.parent() {
            Some(p) => p.number,
            None => {
                assert(header_result(*header, true, None, None, now, None) == Err::<(), Error>(
                    Error::UnknownParent(header.parent_hash),
                ));
                return Err(Error::UnknownParent(header.parent_hash));
            },
        };
        let n = check_number(parent_number, header.number);
        if n.is_err() {
            assert(header_result(*header, true, Some(parent_number), None, now, None) == n);
            return n;
        }
        let median = self.chain_provider.block_median_time(&header.parent_hash);
        let t = check_timestamp(header.parent_hash, header.timestamp, median, now);
        if t.is_err() {
            assert(header_result(*header, true, Some(parent_number), median, now, None) == t);
            return t;
        }
        let expected = target.calculate_difficulty();
        let r = check_difficulty(expected, header.difficulty);
        assert(r == header_result(*header, true, Some(parent_number), median, now, expected));
        r
    }
}

} // verus!
