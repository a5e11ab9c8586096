use clobber::config::ConfigBuilder;
use clobber::engine::{merge_all, should_stop};
use clobber::stats::Stats;

fn sample(conns: usize, attempts: usize, start: u64, end: u64) -> Stats {
    Stats {
        bytes_read: attempts,
        bytes_written: 2 * attempts,
        connections: conns,
        connection_attempts: attempts,
        start_time: start,
        end_time: end,
    }
}

#[test]
fn unbounded_run_stops_only_on_cancellation() {
    let config = ConfigBuilder::new(b"127.0.0.1:8000".to_vec()).build().unwrap();
    assert!(!should_stop(&config, 0, u64::MAX, u64::MAX, false));
    assert!(should_stop(&config, 0, 0, 0, true));
}

#[test]
fn duration_bound_trips_on_elapse() {
    let config = ConfigBuilder::new(b"127.0.0.1:8000".to_vec())
        .duration(1_000)
        .build()
        .unwrap();
    assert!(!should_stop(&config, 500, 1_499, 0, false));
    assert!(should_stop(&config, 500, 1_500, 0, false));
    // A clock sample before the start counts as no elapsed time.
    assert!(!should_stop(&config, 500, 0, 0, false));
}

#[test]
fn attempt_budget_trips_on_exhaustion() {
    let config = ConfigBuilder::new(b"127.0.0.1:8000".to_vec())
        .max_connections(100)
        .build()
        .unwrap();
    assert!(!should_stop(&config, 0, 0, 99, false));
    assert!(should_stop(&config, 0, 0, 100, false));
    assert!(should_stop(&config, 0, 0, 101, false));
}

#[test]
fn merge_all_of_no_records_is_the_seed() {
    let seed = sample(0, 0, 10, 10);
    assert_eq!(merge_all(seed, &Vec::new()), seed);
}

#[test]
fn merge_all_folds_every_worker() {
    let seed = sample(0, 0, 500, 500);
    let results = vec![sample(1, 2, 400, 600), sample(3, 3, 450, 700), sample(0, 4, 300, 550)];
    let total = merge_all(seed, &results);
    assert_eq!(total.connections, 4);
    assert_eq!(total.connection_attempts, 9);
    assert_eq!(total.bytes_read, 9);
    assert_eq!(total.bytes_written, 18);
    assert_eq!(total.start_time, 300);
    assert_eq!(total.end_time, 700);
}

#[test]
fn merge_all_is_order_independent() {
    let seed = sample(0, 0, 500, 500);
    let forward = vec![sample(1, 2, 400, 600), sample(3, 3, 450, 700), sample(0, 4, 300, 550)];
    let backward = vec![sample(0, 4, 300, 550), sample(3, 3, 450, 700), sample(1, 2, 400, 600)];
    assert_eq!(merge_all(seed, &forward), merge_all(seed, &backward));
}
