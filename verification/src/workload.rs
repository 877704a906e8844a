use vstd::prelude::*;

use crate::errors::BatchError;
use crate::numbers::digit_char;

verus! {

/// Whether `hash` is a well-formed bcrypt hash string: 60 characters,
/// `$2{a,b,x,y}$` version prefix, two cost digits in bcrypt's allowed
/// range, and valid base64 salt and digest parts. bcrypt's verification
/// reaches a verdict exactly on such strings, and its hashing only ever
/// produces them.
pub uninterp spec fn bcrypt_parses(hash: Seq<char>) -> bool;

/// Whether bcrypt accepts `password` as matching the bcrypt hash string
/// `hash`. This is the (deterministic) outcome of recomputing the hash from
/// the password with the cost and salt embedded in `hash` and comparing.
pub uninterp spec fn bcrypt_accepts(password: Seq<char>, hash: Seq<char>) -> bool;

/// The lowest cost factor bcrypt allows.
pub const MIN_HASH_COST: u32 = 4;

/// The highest cost factor bcrypt allows.
pub const MAX_HASH_COST: u32 = 31;

/// The cost factor the engine uses by default.
pub const DEFAULT_HASH_COST: u32 = 10;

/// The version-and-cost prefix every hash produced at `cost` carries:
/// `$2b$` followed by the two zero-padded cost digits and another `$`.
pub open spec fn hash_prefix_for_cost(hash: Seq<char>, cost: int) -> bool {
    &&& hash.len() >= 7
    &&& hash[0] == '$'
    &&& hash[1] == '2'
    &&& hash[2] == 'b'
    &&& hash[3] == '$'
    &&& hash[4] == digit_char(cost / 10 % 10)
    &&& hash[5] == digit_char(cost % 10)
    &&& hash[6] == '$'
}

#[verifier::external_type_specification]
#[verifier::external_body]
pub struct ExBcryptError(bcrypt::BcryptError);

/// Relies on `bcrypt::hash`: generates a random salt, hashes `password` at
/// the given cost and formats the result as a 60-character hash string of
/// the form `$2b$` + two zero-padded cost digits + `$` + base64 salt and
/// digest. By construction the returned hash string is well-formed and
/// verifies against `password` (`bcrypt::verify` re-derives the same digest
/// from the embedded cost and salt). A cost outside bcrypt's allowed range
/// is rejected with an error.
#[verifier::external_body]
fn bcrypt_hash(password: &String, cost: u32) -> (r: Result<String, bcrypt::BcryptError>)
    ensures
        r matches Ok(h) ==> {
            &&& h@.len() == 60
            &&& hash_prefix_for_cost(h@, cost as int)
            &&& bcrypt_parses(h@)
            &&& bcrypt_accepts(password@, h@)
        },
        cost < MIN_HASH_COST || cost > MAX_HASH_COST ==> r is Err,
{
    bcrypt::hash(password, cost)
}

/// Relies on `bcrypt::verify`: splits `hash` into cost, salt and digest,
/// recomputes the digest from `password`, and compares; both the verdict
/// and whether a verdict is reached at all are deterministic functions of
/// the arguments, with success depending on the hash string alone. A
/// malformed hash string is reported as an error, never as a mismatch.
#[verifier::external_body]
fn bcrypt_check(password: &String, hash: &str) -> (r: Result<bool, bcrypt::BcryptError>)
    ensures
        r is Ok <==> bcrypt_parses(hash@),
        r matches Ok(b) ==> b == bcrypt_accepts(password@, hash@),
{
    bcrypt::verify(password, hash)
}

/// The per-item computation: bcrypt password hashing at a fixed cost factor.
/// Pure and self-contained, so it is safe to run concurrently from any
/// number of workers.
#[derive(Clone, Copy, Debug)]
pub struct HashWorkload {
    cost: u32,
}

impl HashWorkload {
    /// A workload's cost factor always stays in bcrypt's allowed range.
    pub closed spec fn well_formed(self) -> bool {
        MIN_HASH_COST <= self.cost <= MAX_HASH_COST
    }

    pub closed spec fn spec_cost(self) -> u32 {
        self.cost
    }

    /// Builds a workload with the requested cost factor, clamped into
    /// bcrypt's allowed range.
    pub fn new(cost: u32) -> (r: HashWorkload)
        ensures
            r.well_formed(),
            r.spec_cost() == if cost < MIN_HASH_COST {
                MIN_HASH_COST
            } else if cost > MAX_HASH_COST {
                MAX_HASH_COST
            } else {
                cost
            },
    {
        let clamped: u32 = if cost < MIN_HASH_COST {
            MIN_HASH_COST
        } else if cost > MAX_HASH_COST {
            MAX_HASH_COST
        } else {
            cost
        };
        HashWorkload { cost: clamped }
    }

    /// The workload at the engine's default cost factor.
    pub fn standard() -> (r: HashWorkload)
        ensures
            r.well_formed(),
            r.spec_cost() == DEFAULT_HASH_COST,
    {
        HashWorkload { cost: DEFAULT_HASH_COST }
    }

    pub fn cost(&self) -> (r: u32)
        ensures
            r == self.spec_cost(),
    {
        self.cost
    }

    /// Hashes one item. On success the returned hash is a well-formed
    /// 60-character bcrypt hash string carrying this workload's cost factor
    /// in its prefix, and it verifies against the item.
    pub fn hash(&self, item: &String) -> (r: Result<String, BatchError>)
        requires
            self.well_formed(),
        ensures
            r matches Ok(h) ==> {
                &&& h@.len() == 60
                &&& hash_prefix_for_cost(h@, self.spec_cost() as int)
                &&& bcrypt_parses(h@)
                &&& bcrypt_accepts(item@, h@)
            },
            r matches Err(e) ==> e == BatchError::Computation,
    {
        match bcrypt_hash(item, self.cost) {
            Ok(h) => Ok(h),
            Err(_) => Err(BatchError::Computation),
        }
    }
}

/// Checks a previously produced hash against an item: a verdict exactly
/// when `hash` is a well-formed bcrypt hash string, and an error otherwise.
pub fn hash_matches(item: &String, hash: &String) -> (r: Result<bool, BatchError>)
    ensures
        r is Ok <==> bcrypt_parses(hash@),
        r matches Ok(b) ==> b == bcrypt_accepts(item@, hash@),
        r matches Err(e) ==> e == BatchError::Computation,
{
    match bcrypt_check(item, hash.as_str()) {
        Ok(b) => Ok(b),
        Err(_) => Err(BatchError::Computation),
    }
}

} // verus!
