use std::collections::HashMap;
use std::sync::Arc;
use std::sync::Mutex;

use scan_core::counters::RunCounters;
use scan_core::dispatch::complete_job;
use scan_core::result::ScanResult;
use threadpool::ThreadPool;

#[test]
fn pool_completes_every_job_exactly_once() {
    // more jobs than workers: every job must complete exactly once
    let workers = 4;
    let jobs = 16;
    let pool = ThreadPool::new(workers);

    let counters = Arc::new(Mutex::new(RunCounters::new()));
    let invocations: Arc<Mutex<HashMap<String, u32>>> = Arc::new(Mutex::new(HashMap::new()));

    for i in 0..jobs {
        let path = format!("/root/file-{}.exe", i);
        let counters = Arc::clone(&counters);
        let invocations = Arc::clone(&invocations);
        pool.execute(move || {
            // mock detection capability: counts invocations per path and
            // flags every fourth file
            let mut seen = invocations.lock().unwrap();
            *seen.entry(path.clone()).or_insert(0) += 1;
            drop(seen);
            let res = if i % 4 == 0 {
                ScanResult { detected: true, tags: vec!["EICAR".to_string()], error: None }
            } else {
                ScanResult { detected: false, tags: vec![], error: None }
            };
            let mut totals = counters.lock().unwrap();
            complete_job(&mut totals, &path, &res);
        });
    }
    pool.join();

    let totals = counters.lock().unwrap();
    assert_eq!(totals.scanned, jobs as u64);
    assert_eq!(totals.detected, 4);

    let seen = invocations.lock().unwrap();
    assert_eq!(seen.len(), jobs);
    for i in 0..jobs {
        let path = format!("/root/file-{}.exe", i);
        assert_eq!(seen.get(&path), Some(&1), "job ran a wrong number of times");
    }
}
