use miniload::outcome::RequestOutcome;
use miniload::plan::{partition, PlanError};
use miniload::stats::{new, should_redraw, UI};

fn status_count(ui: &UI, code: u16) -> u64 {
    let snap = ui.snapshot();
    snap.status_rows
        .iter()
        .filter(|r| r.0 == code)
        .map(|r| r.1)
        .sum()
}

#[test]
fn partition_spreads_remainder_first() {
    assert_eq!(partition(10, 3), Ok(vec![4, 3, 3]));
}

#[test]
fn partition_even_split() {
    assert_eq!(partition(12, 4), Ok(vec![3, 3, 3, 3]));
}

#[test]
fn partition_more_workers_than_requests() {
    assert_eq!(partition(2, 5), Ok(vec![1, 1, 0, 0, 0]));
}

#[test]
fn partition_zero_requests_is_all_zero() {
    assert_eq!(partition(0, 4), Ok(vec![0, 0, 0, 0]));
}

#[test]
fn partition_zero_workers_is_refused() {
    assert_eq!(partition(10, 0), Err(PlanError::ContractViolation));
    assert_eq!(partition(0, 0), Err(PlanError::ContractViolation));
}

#[test]
fn partition_sums_and_balances() {
    for n in [0u32, 1, 7, 100, 1001] {
        for c in [1u32, 2, 3, 8, 13] {
            let q = partition(n, c).unwrap();
            assert_eq!(q.len(), c as usize);
            assert_eq!(q.iter().map(|x| *x as u64).sum::<u64>(), n as u64);
            let max = *q.iter().max().unwrap();
            let min = *q.iter().min().unwrap();
            assert!(max - min <= 1);
        }
    }
}

#[test]
fn partition_largest_count() {
    let q = partition(u32::MAX, 2).unwrap();
    assert_eq!(q, vec![u32::MAX / 2 + 1, u32::MAX / 2]);
}

#[test]
fn empty_run_is_done_at_start() {
    let mut ui = new(0);
    assert!(ui.done());
    ui.start(5000);
    let snap = ui.snapshot();
    assert!(snap.done);
    assert_eq!(snap.completed, 0);
    assert!(snap.ttfb.is_empty());
    assert!(snap.total.is_empty());
    assert!(snap.status_rows.is_empty());
    assert!(snap.error_rows.is_empty());
}

#[test]
fn ten_successes_on_one_worker() {
    let plan = partition(10, 1).unwrap();
    assert_eq!(plan, vec![10]);
    let mut ui = new(10);
    ui.start(0);
    for i in 0..10u64 {
        assert!(!ui.done());
        ui.record(RequestOutcome::from_timings(i, i + 5, 200), 10 * i);
    }
    assert!(ui.done());
    let snap = ui.snapshot();
    assert_eq!(snap.status_rows, vec![(200, 10)]);
    assert!(snap.error_rows.is_empty());
    assert_eq!(snap.completed, 10);
    assert_eq!(snap.ttfb.len(), 10);
    assert_eq!(snap.total[3], 8);
}

#[test]
fn mixed_successes_and_failures() {
    let plan = partition(5, 2).unwrap();
    assert_eq!(plan, vec![3, 2]);
    let mut ui = new(5);
    ui.start(0);
    ui.record(RequestOutcome::from_timings(3, 9, 200), 1);
    ui.record(RequestOutcome::Failure { description: "connection reset".to_string() }, 2);
    ui.record(RequestOutcome::from_timings(4, 4, 200), 3);
    ui.record(RequestOutcome::Failure { description: "connection reset".to_string() }, 4);
    assert!(!ui.done());
    ui.record(RequestOutcome::from_timings(2, 7, 200), 5);
    assert!(ui.done());
    let snap = ui.snapshot();
    assert_eq!(snap.status_rows, vec![(200, 3)]);
    assert_eq!(snap.error_rows, vec![("connection reset".to_string(), 2)]);
    assert_eq!(snap.completed, 5);
    assert_eq!(snap.ttfb.len() as u64 + snap.error_rows[0].1, 5);
}

#[test]
fn errors_grouped_by_exact_text() {
    let mut ui = new(3);
    ui.add_error("timeout".to_string(), 0);
    ui.add_error("Timeout".to_string(), 0);
    ui.add_error("timeout".to_string(), 0);
    let snap = ui.snapshot();
    assert_eq!(
        snap.error_rows,
        vec![("timeout".to_string(), 2), ("Timeout".to_string(), 1)]
    );
}

#[test]
fn status_codes_counted_apart() {
    let mut ui = new(4);
    ui.add_point(1, 2, 200, 0);
    ui.add_point(1, 2, 404, 0);
    ui.add_point(1, 2, 200, 0);
    ui.add_point(1, 2, 500, 0);
    assert_eq!(status_count(&ui, 200), 2);
    assert_eq!(status_count(&ui, 404), 1);
    assert_eq!(status_count(&ui, 500), 1);
    assert_eq!(status_count(&ui, 301), 0);
}

#[test]
fn success_total_not_below_ttfb() {
    match RequestOutcome::from_timings(12, 30, 200) {
        RequestOutcome::Success { ttfb_ms, total_ms, status_code } => {
            assert_eq!((ttfb_ms, total_ms, status_code), (12, 30, 200));
        }
        RequestOutcome::Failure { .. } => panic!("expected a success"),
    }
    match RequestOutcome::from_timings(12, 10, 503) {
        RequestOutcome::Success { ttfb_ms, total_ms, status_code } => {
            assert_eq!((ttfb_ms, total_ms, status_code), (12, 12, 503));
        }
        RequestOutcome::Failure { .. } => panic!("expected a success"),
    }
}

#[test]
fn snapshot_twice_is_identical() {
    let mut ui = new(3);
    ui.start(0);
    ui.add_point(5, 9, 200, 10);
    ui.add_error("refused".to_string(), 20);
    let a = ui.snapshot();
    let b = ui.snapshot();
    assert_eq!(a.completed, b.completed);
    assert_eq!(a.done, b.done);
    assert_eq!(a.throughput, b.throughput);
    assert_eq!(a.ttfb, b.ttfb);
    assert_eq!(a.total, b.total);
    assert_eq!(a.status_rows, b.status_rows);
    assert_eq!(a.error_rows, b.error_rows);
}

#[test]
fn redraw_is_rate_limited() {
    assert!(!should_redraw(1000, 1000));
    assert!(!should_redraw(1000, 1300));
    assert!(should_redraw(1000, 1301));
    assert!(!should_redraw(2000, 1000));
    let mut ui = new(4);
    ui.start(1000);
    assert!(!ui.add_point(1, 2, 200, 1100));
    assert!(ui.add_point(1, 2, 200, 1400));
    assert!(!ui.add_point(1, 2, 200, 1450));
}

#[test]
fn completion_always_redraws() {
    let mut ui = new(1);
    ui.start(1000);
    assert!(ui.add_error("reset".to_string(), 1001));
    assert!(ui.done());
}

#[test]
fn throughput_over_whole_seconds() {
    let mut ui = new(4);
    ui.start(1000);
    for _ in 0..3 {
        ui.add_point(1, 2, 200, 1500);
        assert_eq!(ui.throughput(), None);
    }
    ui.add_error("reset".to_string(), 3500);
    assert_eq!(ui.throughput(), Some(2));
    assert_eq!(ui.snapshot().throughput, Some(2));
}

#[test]
fn throughput_of_sub_second_run_is_none() {
    let mut ui = new(1);
    ui.start(1000);
    ui.add_point(1, 2, 200, 1900);
    assert!(ui.done());
    assert_eq!(ui.throughput(), None);
}

#[test]
fn interleaved_workers_account_for_every_request() {
    let plan = partition(20, 3).unwrap();
    assert_eq!(plan, vec![7, 7, 6]);
    let mut left = plan.clone();
    let mut ui = new(20);
    ui.start(0);
    let mut t: u64 = 0;
    while !ui.done() {
        for (w, q) in left.iter_mut().enumerate() {
            if *q == 0 {
                continue;
            }
            *q -= 1;
            t += 50;
            if w == 2 {
                ui.record(RequestOutcome::Failure { description: "timed out".to_string() }, t);
            } else {
                ui.record(RequestOutcome::from_timings(w as u64, 10, 200), t);
            }
        }
    }
    let snap = ui.snapshot();
    assert_eq!(snap.completed, 20);
    assert_eq!(snap.status_rows, vec![(200, 14)]);
    assert_eq!(snap.error_rows, vec![("timed out".to_string(), 6)]);
    assert_eq!(snap.ttfb.len() as u64 + snap.error_rows[0].1, 20);
    assert_eq!(snap.throughput, Some(20));
}
