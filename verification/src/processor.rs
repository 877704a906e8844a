use vstd::prelude::*;

use crate::dispatch::dispatch;
use crate::dispatch::resolve_mode;
use crate::dispatch::Mode;
use crate::errors::BatchError;
use crate::labels::build_work_items;
use crate::metrics::clock_elapsed_ms;
use crate::metrics::clock_start;
use crate::pool::clamp_workers;
use crate::pool::detected_cpu_count;
use crate::pool::get_worker_count;
use crate::pool::override_value;
use crate::pool::MAX_WORKERS;
use crate::pool::MIN_WORKERS;
use crate::workload::HashWorkload;

verus! {

/// The hard ceiling on a batch's item count, protecting a shared-pool
/// process against runaway resource consumption.
pub const MAX_BATCH_COUNT: usize = 1000;

/// One inbound invocation: how many items to process and in which mode.
#[derive(Debug)]
pub struct ProcessRequest {
    pub count: usize,
    pub mode: String,
}

/// What one processed batch reports back. Derived once after dispatch and
/// never mutated.
#[derive(Clone, Copy, Debug, PartialEq, Eq, Structural)]
pub struct ProcessResponse {
    /// How many items were actually hashed.
    pub processed: usize,
    /// Wall-clock time of the dispatch, in milliseconds.
    pub duration_ms: u128,
    /// The effective mode the batch ran under, never the raw request.
    pub mode: Mode,
    /// The worker count the batch was configured with; reported as 1 when
    /// the effective mode was sequential.
    pub workers: usize,
    /// The hardware's logical CPU count, regardless of any override.
    pub detected_cpus: usize,
    /// Resident memory at the time of the report, in kilobytes.
    pub memory_used_kb: u64,
    /// How many distinct workers provably touched the batch's items.
    pub threads_used: usize,
}

impl ProcessResponse {
    /// Stamps the caller's resident-memory reading into the report, leaving
    /// every other field as it was. The reading is taken from the execution
    /// environment once the batch has finished, so it arrives after the
    /// report is assembled.
    pub fn with_memory_reading(self, memory_used_kb: u64) -> (r: ProcessResponse)
        ensures
            r.memory_used_kb == memory_used_kb,
            r.processed == self.processed,
            r.duration_ms == self.duration_ms,
            r.mode == self.mode,
            r.workers == self.workers,
            r.detected_cpus == self.detected_cpus,
            r.threads_used == self.threads_used,
    {
        ProcessResponse { memory_used_kb, ..self }
    }
}

/// Validates a request, synthesizes its work items, resolves mode and
/// worker count, dispatches the batch, and assembles the measured result.
///
/// The resident-memory reading comes from the execution environment after
/// the batch has run, so it is not taken here: the assembled report carries
/// zero (the best-effort default) until the caller stamps the reading in
/// with `with_memory_reading`.
pub fn process_batch(
    request: &ProcessRequest,
    workload: &HashWorkload,
    worker_override: &Option<String>,
) -> (r: Result<ProcessResponse, BatchError>)
    requires
        workload.well_formed(),
    ensures
        request.count == 0 ==> (r matches Err(e) && e == BatchError::CountZero),
        request.count > MAX_BATCH_COUNT ==> (r matches Err(e) && e == BatchError::CountTooLarge),
        r matches Err(e) && e.is_validation() ==> (request.count == 0 || request.count
            > MAX_BATCH_COUNT),
        r matches Err(e) && e == BatchError::Computation ==> 1 <= request.count
            <= MAX_BATCH_COUNT,
        r matches Ok(o) ==> {
            &&& 1 <= request.count <= MAX_BATCH_COUNT
            &&& o.processed == request.count
            &&& (request.mode@ == "sequential"@ ==> o.mode is Sequential)
            &&& (request.mode@ == "parallel"@ ==> o.mode is Parallel)
            &&& (o.mode is Sequential ==> o.workers == 1 && o.threads_used == 1)
            &&& (o.mode is Parallel ==> MIN_WORKERS <= o.workers <= MAX_WORKERS && 1
                <= o.threads_used <= request.count)
            &&& (request.mode@ != "sequential"@ && request.mode@ != "parallel"@ ==> (
            o.mode is Parallel <==> o.workers > 1))
            &&& (override_value(*worker_override) matches Some(n) ==> {
                &&& (o.mode is Parallel ==> o.workers == clamp_workers(n))
                &&& ((request.mode@ != "sequential"@ && request.mode@ != "parallel"@) ==> (
                o.mode is Parallel <==> clamp_workers(n) > 1))
            })
            &&& o.detected_cpus >= 1
            &&& o.memory_used_kb == 0
        },
{
    proof {
        reveal_strlit("sequential");
        reveal_strlit("parallel");
        assert("sequential"@.len() == 10);
        assert("parallel"@.len() == 8);
    }
    if request.count == 0 {
        return Err(BatchError::CountZero);
    }
    if request.count > MAX_BATCH_COUNT {
        return Err(BatchError::CountTooLarge);
    }
    let items = build_work_items(request.count);
    let workers = get_worker_count(worker_override);
    let mode = resolve_mode(&request.mode, workers);
    let start = clock_start();
    let (hashes, threads_used) = match dispatch(&items, mode, workload) {
        Ok(p) => p,
        Err(e) => {
            return Err(e);
        },
    };
    let duration_ms = clock_elapsed_ms(&start);
    let detected_cpus = detected_cpu_count();
    Ok(
        ProcessResponse {
            processed: hashes.len(),
            duration_ms,
            mode,
            workers: if mode == Mode::Parallel {
                workers
            } else {
                1
            },
            detected_cpus,
            memory_used_kb: 0,
            threads_used,
        },
    )
}

} // verus!
