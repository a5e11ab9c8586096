use clobber::stats::Stats;

fn sample(br: usize, bw: usize, conns: usize, attempts: usize, start: u64, end: u64) -> Stats {
    Stats {
        bytes_read: br,
        bytes_written: bw,
        connections: conns,
        connection_attempts: attempts,
        start_time: start,
        end_time: end,
    }
}

#[test]
fn new_is_zeroed_with_one_instant() {
    let s = Stats::new();
    assert_eq!(s.bytes_read, 0);
    assert_eq!(s.bytes_written, 0);
    assert_eq!(s.connections, 0);
    assert_eq!(s.connection_attempts, 0);
    assert_eq!(s.start_time, s.end_time);
    assert_eq!(s.duration(), 0);
}

#[test]
fn default_matches_new() {
    let s: Stats = Default::default();
    assert_eq!(s.connections, 0);
    assert_eq!(s.connection_attempts, 0);
    assert_eq!(s.start_time, s.end_time);
}

#[test]
fn merge_sums_counters_and_widens_span() {
    let a = sample(10, 20, 1, 2, 100, 200);
    let b = sample(5, 7, 3, 4, 50, 150);
    let m = a.merge(b);
    assert_eq!(m.bytes_read, 15);
    assert_eq!(m.bytes_written, 27);
    assert_eq!(m.connections, 4);
    assert_eq!(m.connection_attempts, 6);
    assert_eq!(m.start_time, 50);
    assert_eq!(m.end_time, 200);
}

#[test]
fn merge_commutes() {
    let a = sample(10, 20, 1, 2, 100, 200);
    let b = sample(5, 7, 3, 4, 50, 150);
    assert_eq!(a.merge(b), b.merge(a));
}

#[test]
fn merge_associates() {
    let a = sample(10, 20, 1, 2, 100, 200);
    let b = sample(5, 7, 3, 4, 50, 150);
    let c = sample(1, 1, 0, 9, 300, 400);
    assert_eq!(a.merge(b).merge(c), a.merge(b.merge(c)));
}

#[test]
fn merge_saturates_at_machine_word() {
    let a = sample(usize::MAX - 1, 0, 0, 0, 0, 0);
    let b = sample(5, 0, 0, 0, 0, 0);
    assert_eq!(a.merge(b).bytes_read, usize::MAX);
}

#[test]
fn merge_of_failed_workers_keeps_connections_zero() {
    // Workers of a run against a dead target: attempts, no connections.
    let a = sample(0, 0, 0, 7, 100, 200);
    let b = sample(0, 0, 0, 5, 90, 210);
    let m = a.merge(b);
    assert_eq!(m.connections, 0);
    assert_eq!(m.connection_attempts, 12);
}

#[test]
fn merge_of_flawless_workers_keeps_their_relations() {
    // Workers of a run where every attempt connected and wrote one 40-byte
    // payload per connection.
    let a = sample(0, 3 * 40, 3, 3, 100, 200);
    let b = sample(0, 2 * 40, 2, 2, 90, 210);
    let m = a.merge(b);
    assert_eq!(m.connections, m.connection_attempts);
    assert_eq!(m.bytes_written, m.connections * 40);
}

#[test]
fn duration_is_span() {
    let s = sample(0, 0, 0, 0, 1_000, 4_500);
    assert_eq!(s.duration(), 3_500);
}

#[test]
fn duration_of_reversed_samples_is_zero() {
    let s = sample(0, 0, 0, 0, 4_500, 1_000);
    assert_eq!(s.duration(), 0);
}
