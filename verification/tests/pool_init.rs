use batch_hasher::dispatch::Mode;
use batch_hasher::pool::init_thread_pool;
use batch_hasher::processor::process_batch;
use batch_hasher::processor::ProcessRequest;
use batch_hasher::workload::HashWorkload;

// Everything about the global pool lives in one test: the pool is a
// process-wide singleton, so the order of initializations must be fixed.
#[test]
fn first_initialization_wins_and_bounds_parallelism() {
    init_thread_pool(2);
    init_thread_pool(4);

    let workload = HashWorkload::new(4);
    let request = ProcessRequest { count: 64, mode: String::from("parallel") };
    let response = process_batch(&request, &workload, &Some(String::from("4"))).unwrap();

    assert_eq!(response.processed, 64);
    assert_eq!(response.mode, Mode::Parallel);
    // Only the first initialization took effect: the pool has 2 workers,
    // so no more than 2 distinct threads can ever touch a batch.
    assert!(response.threads_used >= 1);
    assert!(response.threads_used <= 2);

    // A later attempt to grow the pool is still a no-op.
    init_thread_pool(6);
    let again = process_batch(&request, &workload, &Some(String::from("4"))).unwrap();
    assert!(again.threads_used <= 2);
}
