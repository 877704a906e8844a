use batch_hasher::dispatch::process_parallel;
use batch_hasher::dispatch::process_sequential;
use batch_hasher::dispatch::Mode;
use batch_hasher::errors::BatchError;
use batch_hasher::labels::build_work_items;
use batch_hasher::processor::process_batch;
use batch_hasher::processor::ProcessRequest;
use batch_hasher::workload::hash_matches;
use batch_hasher::workload::HashWorkload;

fn cheap_workload() -> HashWorkload {
    HashWorkload::new(4)
}

#[test]
fn zero_count_is_a_validation_error() {
    let request = ProcessRequest { count: 0, mode: String::from("sequential") };
    let r = process_batch(&request, &cheap_workload(), &None);
    assert_eq!(r.unwrap_err(), BatchError::CountZero);
}

#[test]
fn over_limit_count_is_a_validation_error() {
    let request = ProcessRequest { count: 1001, mode: String::from("parallel") };
    let r = process_batch(&request, &cheap_workload(), &None);
    assert_eq!(r.unwrap_err(), BatchError::CountTooLarge);
}

#[test]
fn the_limit_itself_succeeds() {
    let request = ProcessRequest { count: 1000, mode: String::from("parallel") };
    let response = process_batch(&request, &cheap_workload(), &None).unwrap();
    assert_eq!(response.processed, 1000);
    assert_eq!(response.mode, Mode::Parallel);
    assert!(response.threads_used >= 1);
    assert!(response.threads_used <= 1000);
}

#[test]
fn sequential_batches_use_one_thread() {
    let request = ProcessRequest { count: 5, mode: String::from("sequential") };
    let response = process_batch(&request, &cheap_workload(), &None).unwrap();
    assert_eq!(response.processed, 5);
    assert_eq!(response.mode, Mode::Sequential);
    assert_eq!(response.threads_used, 1);
    assert_eq!(response.workers, 1);
}

#[test]
fn auto_resolves_by_worker_count() {
    let request = ProcessRequest { count: 2, mode: String::from("auto") };
    let parallel = process_batch(&request, &cheap_workload(), &Some(String::from("4"))).unwrap();
    assert_eq!(parallel.mode, Mode::Parallel);
    assert_eq!(parallel.workers, 4);

    let sequential =
        process_batch(&request, &cheap_workload(), &Some(String::from("1"))).unwrap();
    assert_eq!(sequential.mode, Mode::Sequential);
    assert_eq!(sequential.workers, 1);
}

#[test]
fn unrecognized_mode_resolves_like_auto() {
    let request = ProcessRequest { count: 2, mode: String::from("zigzag") };
    let response = process_batch(&request, &cheap_workload(), &Some(String::from("3"))).unwrap();
    assert_eq!(response.mode, Mode::Parallel);
    assert_eq!(response.workers, 3);
}

#[test]
fn memory_reading_is_stamped_in_after_the_batch() {
    let request = ProcessRequest { count: 1, mode: String::from("sequential") };
    let response = process_batch(&request, &cheap_workload(), &None).unwrap();
    // Until the caller takes a reading, the report carries the best-effort
    // default of zero.
    assert_eq!(response.memory_used_kb, 0);
    assert_eq!(response.detected_cpus, num_cpus::get());

    let stamped = response.with_memory_reading(12345);
    assert_eq!(stamped.memory_used_kb, 12345);
    assert_eq!(stamped.processed, response.processed);
    assert_eq!(stamped.duration_ms, response.duration_ms);
    assert_eq!(stamped.mode, response.mode);
    assert_eq!(stamped.workers, response.workers);
    assert_eq!(stamped.detected_cpus, response.detected_cpus);
    assert_eq!(stamped.threads_used, response.threads_used);
}

#[test]
fn sequential_hashes_correspond_to_their_items() {
    let workload = cheap_workload();
    let items = build_work_items(3);
    let (hashes, threads) = process_sequential(&items, &workload).unwrap();
    assert_eq!(hashes.len(), 3);
    assert_eq!(threads, 1);
    for (item, hash) in items.iter().zip(hashes.iter()) {
        assert_eq!(hash_matches(item, hash), Ok(true));
    }
    // Position matters: item 0's hash does not verify against item 1.
    assert_eq!(hash_matches(&items[1], &hashes[0]), Ok(false));
}

#[test]
fn parallel_hashes_correspond_to_their_items() {
    let workload = cheap_workload();
    let items = build_work_items(24);
    let (hashes, threads) = process_parallel(&items, &workload).unwrap();
    assert_eq!(hashes.len(), 24);
    assert!(threads >= 1);
    assert!(threads <= 24);
    for (item, hash) in items.iter().zip(hashes.iter()) {
        assert_eq!(hash_matches(item, hash), Ok(true));
    }
}
