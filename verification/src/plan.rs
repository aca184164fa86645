use vstd::prelude::*;

use crate::measure::{empty_rows, lemma_rows_hold_their_files, record_all, times_of, FAIRNESS_FILE, FAIRNESS_RUNS, FILE_COUNT, TIMING_ROUNDS};

verus! {

/// The downloads of a timing run, in order: every benchmark file once, from
/// the smallest to the largest, and that `TIMING_ROUNDS` times over.
pub open spec fn timing_order() -> Seq<usize> {
    Seq::new((TIMING_ROUNDS * FILE_COUNT) as nat, |k: int| (k % (FILE_COUNT as int)) as usize)
}

/// The downloads of a fairness run: the largest file, `FAIRNESS_RUNS` times.
pub open spec fn fairness_order() -> Seq<usize> {
    Seq::new(FAIRNESS_RUNS as nat, |k: int| FAIRNESS_FILE)
}

/// The order in which a run fetches the benchmark files, and how far it got.
pub struct DownloadPlan {
    order: Vec<usize>,
    next: usize,
}

impl DownloadPlan {
    /// The downloads still to come, in order.
    pub closed spec fn remaining(&self) -> Seq<usize> {
        self.order@.skip(self.next as int)
    }

    #[verifier::type_invariant]
    spec fn well_formed(&self) -> bool {
        self.next <= self.order@.len()
    }

    /// The plan of a timing run.
    pub fn timing() -> (p: DownloadPlan)
        ensures
            p.remaining() == timing_order(),
    {
        let mut order: Vec<usize> = Vec::new();
        let mut round: usize = 0;
        while round < TIMING_ROUNDS
            invariant
                round <= TIMING_ROUNDS,
                order@ == timing_order().take((round * FILE_COUNT) as int),
            decreases TIMING_ROUNDS - round,
        {
            let mut file: usize = 0;
            while file < FILE_COUNT
                invariant
                    round < TIMING_ROUNDS,
                    file <= FILE_COUNT,
                    order@ == timing_order().take((round * FILE_COUNT + file) as int),
                decreases FILE_COUNT - file,
            {
                let ghost k = (round * FILE_COUNT + file) as int;
                assert(k % (FILE_COUNT as int) == file as int) by (nonlinear_arith)
                    requires k == round * 8 + file, file < 8, FILE_COUNT == 8, round >= 0;
                order.push(file);
                assert(order@ =~= timing_order().take(k + 1));
                file = file + 1;
            }
            round = round + 1;
        }
        assert(order@ =~= timing_order());
        let p = DownloadPlan { order, next: 0 };
        assert(p.order@.skip(0) =~= p.order@);
        p
    }

    /// The plan of a fairness run.
    pub fn fairness() -> (p: DownloadPlan)
        ensures
            p.remaining() == fairness_order(),
            p.remaining() == seq![FAIRNESS_FILE, FAIRNESS_FILE],
    {
        let mut order: Vec<usize> = Vec::new();
        let mut run: usize = 0;
        while run < FAIRNESS_RUNS
            invariant
                run <= FAIRNESS_RUNS,
                order@ == fairness_order().take(run as int),
            decreases FAIRNESS_RUNS - run,
        {
            order.push(FAIRNESS_FILE);
            assert(order@ =~= fairness_order().take(run + 1));
            run = run + 1;
        }
        assert(order@ =~= fairness_order());
        let p = DownloadPlan { order, next: 0 };
        assert(p.order@.skip(0) =~= p.order@);
        p
    }

    /// Takes the next download of the plan, if any is left.
    pub fn next_file(&mut self) -> (f: Option<usize>)
        ensures
            old(self).remaining().len() == 0 ==> f is None && final(self).remaining() == old(self).remaining(),
            old(self).remaining().len() > 0 ==> f == Some(old(self).remaining()[0])
                && final(self).remaining() == old(self).remaining().drop_first(),
    {
        proof { use_type_invariant(&*self); }
        if self.next < self.order.len() {
            let f = self.order[self.next];
            self.next = self.next + 1;
            assert(self.order@.skip(self.next as int) =~= old(self).remaining().drop_first());
            Some(f)
        } else {
            None
        }
    }
}

/// A timing run downloads each benchmark file exactly `TIMING_ROUNDS`
/// times: the download number `r * FILE_COUNT + f` of the run is file `f`,
/// for each round `r` and file `f`, and there are no other downloads.
pub proof fn lemma_timing_covers_each_file()
    ensures
        timing_order().len() == TIMING_ROUNDS * FILE_COUNT,
        forall|r: int, f: int| 0 <= r < TIMING_ROUNDS && 0 <= f < FILE_COUNT ==>
            #[trigger] timing_order()[r * (FILE_COUNT as int) + f] == f,
        forall|k: int| 0 <= k < timing_order().len() ==> #[trigger] timing_order()[k] < FILE_COUNT,
{
    assert forall|r: int, f: int| 0 <= r < TIMING_ROUNDS && 0 <= f < FILE_COUNT implies
        #[trigger] timing_order()[r * (FILE_COUNT as int) + f] == f by {
        assert((r * 8 + f) % 8 == f) by (nonlinear_arith) requires 0 <= f < 8, 0 <= r;
        assert(0 <= r * 8 + f < 40) by (nonlinear_arith) requires 0 <= f < 8, 0 <= r < 5;
    }
}

} // verus!

verus! {

/// The measurements of a timing run whose downloads took the times `ts`,
/// in order: the `k`-th download fetched file `timing_order()[k]`.
pub open spec fn timing_measurements(ts: Seq<u64>) -> Seq<(usize, u64)> {
    Seq::new(ts.len(), |k: int| (timing_order()[k], ts[k]))
}

/// How many of the first `n` downloads of a timing run fetched file `f`.
pub open spec fn downloads_of_file_before(n: int, f: int) -> int {
    (n + (FILE_COUNT as int) - 1 - f) / (FILE_COUNT as int)
}

proof fn lemma_timing_prefix_rows(ts: Seq<u64>, n: int, f: int)
    requires
        ts.len() == TIMING_ROUNDS * FILE_COUNT,
        0 <= n <= ts.len(),
        0 <= f < FILE_COUNT,
    ensures
        times_of(timing_measurements(ts).take(n), f) == Seq::new(
            downloads_of_file_before(n, f) as nat,
            |r: int| ts[r * (FILE_COUNT as int) + f],
        ),
    decreases n,
{
    let ms = timing_measurements(ts);
    if n == 0 {
        assert(downloads_of_file_before(0, f) == 0);
        assert(times_of(ms.take(0), f) =~= Seq::<u64>::empty());
    } else {
        lemma_timing_prefix_rows(ts, n - 1, f);
        let pre = ms.take(n);
        assert(pre.drop_last() =~= ms.take(n - 1));
        assert(pre.last() == (((n - 1) % 8) as usize, ts[n - 1]));
        let c = downloads_of_file_before(n - 1, f);
        if (n - 1) % 8 == f {
            assert(downloads_of_file_before(n, f) == c + 1 && c * 8 + f == n - 1) by (nonlinear_arith)
                requires (n - 1) % 8 == f, 0 <= f < 8, n >= 1, c == (n - 1 + 8 - 1 - f) / 8;
            assert(times_of(pre, f) =~= Seq::new(
                downloads_of_file_before(n, f) as nat,
                |r: int| ts[r * (FILE_COUNT as int) + f],
            ));
        } else {
            assert(downloads_of_file_before(n, f) == c) by (nonlinear_arith)
                requires (n - 1) % 8 != f, 0 <= f < 8, n >= 1, c == (n - 1 + 8 - 1 - f) / 8;
        }
    }
}

/// After a whole timing run recorded into an empty table, the row of every
/// benchmark file holds exactly `TIMING_ROUNDS` times, the one of each
/// round, in round order.
pub proof fn lemma_timing_run_fills_each_row(ts: Seq<u64>)
    requires
        ts.len() == TIMING_ROUNDS * FILE_COUNT,
    ensures
        record_all(empty_rows(), timing_measurements(ts)).len() == FILE_COUNT,
        forall|f: int| 0 <= f < FILE_COUNT ==>
            (#[trigger] record_all(empty_rows(), timing_measurements(ts))[f]).len() == TIMING_ROUNDS,
        forall|f: int, r: int| 0 <= f < FILE_COUNT && 0 <= r < TIMING_ROUNDS ==>
            #[trigger] record_all(empty_rows(), timing_measurements(ts))[f][r] == ts[r * (FILE_COUNT as int) + f],
{
    let ms = timing_measurements(ts);
    lemma_rows_hold_their_files(ms);
    assert(ms.take(ms.len() as int) =~= ms);
    assert forall|f: int| 0 <= f < FILE_COUNT implies
        (#[trigger] record_all(empty_rows(), ms)[f]).len() == TIMING_ROUNDS
        && (forall|r: int| 0 <= r < TIMING_ROUNDS ==> record_all(empty_rows(), ms)[f][r] == ts[r * (FILE_COUNT as int) + f]) by {
        lemma_timing_prefix_rows(ts, ms.len() as int, f);
        assert(downloads_of_file_before(40, f) == 5);
    }
}

/// A fairness run downloads the largest benchmark file, and only that one,
/// `FAIRNESS_RUNS` times.
pub proof fn law_fairness_downloads_largest_file()
    ensures
        fairness_order().len() == FAIRNESS_RUNS,
        forall|k: int| 0 <= k < fairness_order().len() ==> #[trigger] fairness_order()[k] == FILE_COUNT - 1,
{
}

} // verus!
