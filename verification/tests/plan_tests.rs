use rust_client::measure::{FAIRNESS_FILE, FAIRNESS_RUNS, FILE_COUNT, TIMING_ROUNDS};
use rust_client::measure::TimingTable;
use rust_client::plan::DownloadPlan;

#[test]
fn timing_plan_order() {
    let mut p = DownloadPlan::timing();
    let mut got = Vec::new();
    while let Some(f) = p.next_file() {
        got.push(f);
    }
    let expected: Vec<usize> = (0..TIMING_ROUNDS).flat_map(|_| 0..FILE_COUNT).collect();
    assert_eq!(got, expected);
    assert_eq!(got.len(), 40);
    for f in 0..FILE_COUNT {
        assert_eq!(got.iter().filter(|x| **x == f).count(), TIMING_ROUNDS);
    }
    assert_eq!(p.next_file(), None);
}

#[test]
fn fairness_plan_order() {
    let mut p = DownloadPlan::fairness();
    assert_eq!(p.next_file(), Some(FAIRNESS_FILE));
    assert_eq!(p.next_file(), Some(7));
    assert_eq!(p.next_file(), None);
    assert_eq!(FAIRNESS_RUNS, 2);
}

#[test]
fn timing_run_fills_each_row() {
    let mut p = DownloadPlan::timing();
    let mut t = TimingTable::new();
    let mut k: u64 = 0;
    while let Some(f) = p.next_file() {
        t.record(f, k);
        k += 1;
    }
    for f in 0..FILE_COUNT {
        let expected: Vec<u64> = (0..TIMING_ROUNDS as u64).map(|r| r * FILE_COUNT as u64 + f as u64).collect();
        assert_eq!(t.row(f), &expected);
    }
}
