use vstd::prelude::*;
use vstd::string::*;

use rayon::iter::IntoParallelRefIterator;
use rayon::iter::ParallelIterator;

use crate::errors::BatchError;
use crate::workload::bcrypt_accepts;
use crate::workload::HashWorkload;

verus! {

/// How a batch is executed: one item at a time on the caller's thread, or
/// spread over the global worker pool.
#[derive(Clone, Copy, Debug, PartialEq, Eq, Structural)]
pub enum Mode {
    Sequential,
    Parallel,
}

impl Mode {
    /// The wire name of the effective mode.
    pub fn as_str(&self) -> (r: &'static str)
        ensures
            self is Sequential ==> r@ == "sequential"@,
            self is Parallel ==> r@ == "parallel"@,
    {
        match self {
            Mode::Sequential => "sequential",
            Mode::Parallel => "parallel",
        }
    }
}

/// Resolves a requested mode string: "sequential" and "parallel" are
/// honored exactly; anything else (including "auto") picks parallel
/// execution precisely when more than one worker is configured.
pub fn resolve_mode(requested: &String, workers: usize) -> (r: Mode)
    ensures
        r is Parallel <==> (requested@ == "parallel"@ || (requested@ != "sequential"@
            && workers > 1)),
{
    proof {
        reveal_strlit("sequential");
        reveal_strlit("parallel");
        assert("sequential"@.len() == 10);
        assert("parallel"@.len() == 8);
    }
    let sequential_word = String::from_str("sequential");
    let parallel_word = String::from_str("parallel");
    if requested.eq(&sequential_word) {
        Mode::Sequential
    } else if requested.eq(&parallel_word) {
        Mode::Parallel
    } else if workers > 1 {
        Mode::Parallel
    } else {
        Mode::Sequential
    }
}

/// Hashes every item in order on the calling thread. Exactly one thread
/// ever touches the data, so the reported distinct-thread count is 1.
pub fn process_sequential(items: &Vec<String>, workload: &HashWorkload) -> (r: Result<
    (Vec<String>, usize),
    BatchError,
>)
    requires
        workload.well_formed(),
    ensures
        r matches Ok(p) ==> {
            &&& p.0@.len() == items@.len()
            &&& forall|i: int|
                0 <= i < items@.len() ==> #[trigger] bcrypt_accepts(items@[i]@, p.0@[i]@)
            &&& p.1 == 1
        },
        r matches Err(e) ==> e == BatchError::Computation,
{
    let mut hashes: Vec<String> = Vec::new();
    let mut idx: usize = 0;
    while idx < items.len()
        invariant
            workload.well_formed(),
            idx <= items@.len(),
            hashes@.len() == idx,
            forall|i: int| 0 <= i < idx ==> #[trigger] bcrypt_accepts(items@[i]@, hashes@[i]@),
        decreases items@.len() - idx,
    {
        match workload.hash(&items[idx]) {
            Ok(h) => hashes.push(h),
            Err(e) => {
                return Err(e);
            },
        }
        idx = idx + 1;
    }
    Ok((hashes, 1))
}

/// Relies on rayon's `par_iter`/`map`/`collect`: runs the workload's hash
/// over every item on the global worker pool; `collect` on an indexed
/// parallel iterator keeps the submission order of the items, so position `i` of the
/// output is the hash of item `i`. Before hashing, each closure invocation
/// records the executing worker's identity (`rayon::current_thread_index`)
/// in a mutex-guarded witness set; the second component is the size of that
/// set. Every recorded identity comes from a closure invocation and each
/// item is mapped at most once, so the count never exceeds the item count,
/// and a successful run of a nonempty batch mapped every item, so at least
/// one identity was recorded.
#[verifier::external_body]
fn pool_hash_all(items: &Vec<String>, workload: &HashWorkload) -> (r: (
    Result<Vec<String>, BatchError>,
    usize,
))
    requires
        workload.well_formed(),
    ensures
        r.0 matches Ok(hs) ==> {
            &&& hs@.len() == items@.len()
            &&& forall|i: int|
                0 <= i < items@.len() ==> #[trigger] bcrypt_accepts(items@[i]@, hs@[i]@)
        },
        r.0 matches Err(e) ==> e == BatchError::Computation,
        r.1 <= items@.len(),
        r.0 is Ok && items@.len() > 0 ==> r.1 >= 1,
{
    let ids = std::sync::Mutex::new(std::collections::HashSet::new());
    let results: Result<Vec<String>, BatchError> = items
        .par_iter()
        .map(|item| {
            ids.lock().unwrap().insert(rayon::current_thread_index());
            workload.hash(item)
        })
        .collect();
    let threads = ids.lock().unwrap().len();
    (results, threads)
}

/// Hashes every item on the global worker pool and reports how many
/// distinct workers participated.
///
/// Policy: parallel dispatch does not fail for want of a pool. If the
/// global pool was never built, rayon builds a default-sized pool on first
/// use, so the batch still runs; only the pool size then differs from the
/// configured one. The one corner this leaves open is an earlier build
/// attempt that itself failed (possible only when spawning threads fails):
/// that consumes rayon's one-time initialization, and parallel dispatch
/// afterwards panics inside rayon rather than falling back.
pub fn process_parallel(items: &Vec<String>, workload: &HashWorkload) -> (r: Result<
    (Vec<String>, usize),
    BatchError,
>)
    requires
        workload.well_formed(),
    ensures
        r matches Ok(p) ==> {
            &&& p.0@.len() == items@.len()
            &&& forall|i: int|
                0 <= i < items@.len() ==> #[trigger] bcrypt_accepts(items@[i]@, p.0@[i]@)
            &&& p.1 <= items@.len()
            &&& items@.len() > 0 ==> p.1 >= 1
        },
        r matches Err(e) ==> e == BatchError::Computation,
{
    let (results, threads) = pool_hash_all(items, workload);
    match results {
        Ok(hs) => Ok((hs, threads)),
        Err(e) => Err(e),
    }
}

/// Runs the workload over all items in the given mode. Either every item is
/// hashed and each position of the result corresponds to its item, or the
/// whole dispatch fails with the first computation error and no partial
/// result is returned.
pub fn dispatch(items: &Vec<String>, mode: Mode, workload: &HashWorkload) -> (r: Result<
    (Vec<String>, usize),
    BatchError,
>)
    requires
        workload.well_formed(),
    ensures
        r matches Ok(p) ==> {
            &&& p.0@.len() == items@.len()
            &&& forall|i: int|
                0 <= i < items@.len() ==> #[trigger] bcrypt_accepts(items@[i]@, p.0@[i]@)
            &&& mode is Sequential ==> p.1 == 1
            &&& p.1 <= if items@.len() > 0 {
                items@.len()
            } else {
                1
            }
            &&& items@.len() > 0 ==> p.1 >= 1
        },
        r matches Err(e) ==> e == BatchError::Computation,
{
    match mode {
        Mode::Sequential => process_sequential(items, workload),
        Mode::Parallel => process_parallel(items, workload),
    }
}

} // verus!
