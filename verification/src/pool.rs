use vstd::prelude::*;

use crate::numbers::decimal_value;
use crate::numbers::digit_part;
use crate::numbers::is_decimal_literal;
use crate::numbers::parse_u64;

verus! {

/// The fewest workers the sizer ever picks: a floor so at least one worker
/// always exists.
pub const MIN_WORKERS: usize = 1;

/// The most workers the sizer ever picks: a deliberate ceiling that bounds
/// resource usage in a constrained execution environment.
pub const MAX_WORKERS: usize = 6;

/// The sizing clamp: any candidate worker count is forced into the
/// inclusive range [MIN_WORKERS, MAX_WORKERS].
pub open spec fn clamp_workers(n: int) -> int {
    if n < MIN_WORKERS as int {
        MIN_WORKERS as int
    } else if n > MAX_WORKERS as int {
        MAX_WORKERS as int
    } else {
        n
    }
}

/// Relies on `num_cpus::get`: detects the number of logical CPUs available
/// to the process (honoring affinity masks and cgroup limits); its
/// documentation guarantees a result of at least 1.
#[verifier::external_body]
pub fn detected_cpu_count() -> (r: usize)
    ensures
        1 <= r,
{
    num_cpus::get()
}

/// Relies on `rayon::ThreadPoolBuilder::build_global`: builds the global
/// worker pool with `workers` threads. rayon initializes the global pool
/// exactly once per process; a later call returns an error and leaves the
/// first configuration in place. The error is deliberately ignored — a
/// failed or repeated initialization degrades to a no-op, since a working
/// single-threaded path always exists — which makes this call idempotent:
/// only the first successful call's size ever takes effect.
#[verifier::external_body]
pub fn init_thread_pool(workers: usize) {
    let _ = rayon::ThreadPoolBuilder::new().num_threads(workers).build_global();
}

/// The numeric value a worker-count override carries, if it carries one:
/// an override counts only when it parses as an unsigned decimal whose
/// value fits a `u64`.
pub open spec fn override_value(o: Option<String>) -> Option<int> {
    match o {
        Some(s) => if is_decimal_literal(s@) && decimal_value(digit_part(s@)) <= u64::MAX {
            Some(decimal_value(digit_part(s@)))
        } else {
            None
        },
        None => None,
    }
}

/// The sizing policy on plain values: a parsable override is clamped into
/// [MIN_WORKERS, MAX_WORKERS]; an absent or unparsable override falls back
/// to the detected logical CPU count, clamped the same way. Invalid
/// overrides are ignored silently, never surfaced.
pub fn resolve_worker_count(override_raw: &Option<String>, detected_cpus: usize) -> (r: usize)
    ensures
        r == (match override_value(*override_raw) {
            Some(n) => clamp_workers(n),
            None => clamp_workers(detected_cpus as int),
        }),
{
    let parsed: Option<u64> = match override_raw {
        Some(s) => parse_u64(s.as_str()),
        None => None,
    };
    match parsed {
        Some(v) => {
            if v < MIN_WORKERS as u64 {
                MIN_WORKERS
            } else if v > MAX_WORKERS as u64 {
                MAX_WORKERS
            } else {
                v as usize
            }
        },
        None => {
            if detected_cpus < MIN_WORKERS {
                MIN_WORKERS
            } else if detected_cpus > MAX_WORKERS {
                MAX_WORKERS
            } else {
                detected_cpus
            }
        },
    }
}

/// Picks the number of workers: the sizing policy of
/// `resolve_worker_count`, applied to the detected logical CPU count. Only
/// the override path can be pinned here; what detection returns is the
/// machine's to decide, so the fallback is stated exactly over the
/// detected value in `resolve_worker_count`'s contract.
pub fn get_worker_count(override_raw: &Option<String>) -> (r: usize)
    ensures
        MIN_WORKERS <= r <= MAX_WORKERS,
        override_value(*override_raw) matches Some(n) ==> r == clamp_workers(n),
{
    let detected = detected_cpu_count();
    resolve_worker_count(override_raw, detected)
}

} // verus!
