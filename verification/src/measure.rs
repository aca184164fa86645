use vstd::prelude::*;

verus! {

// ---------------------------------------------------------------------------
// The benchmark plan
// ---------------------------------------------------------------------------

/// How many benchmark files the server offers (`rand0.dat` to `rand7.dat`).
pub const FILE_COUNT: usize = 8;

/// How many times each file is fetched in a timing run.
pub const TIMING_ROUNDS: usize = 5;

/// How many connections a fairness run opens, one after the other.
pub const FAIRNESS_RUNS: usize = 2;

/// The file fetched in a fairness run (the largest).
pub const FAIRNESS_FILE: usize = 7;

/// The size of each benchmark file, by index.
pub open spec fn size_label_text(index: int) -> Seq<char> {
    if index == 0 {
        "5KB"@
    } else if index == 1 {
        "10KB"@
    } else if index == 2 {
        "100KB"@
    } else if index == 3 {
        "200KB"@
    } else if index == 4 {
        "500KB"@
    } else if index == 5 {
        "1MB"@
    } else if index == 6 {
        "10MB"@
    } else {
        "100MB"@
    }
}

/// The size of the benchmark file with this index, as it is reported.
pub fn size_label(index: usize) -> (label: &'static str)
    requires
        index < FILE_COUNT,
    ensures
        label@ == size_label_text(index as int),
        index == 0 ==> label@ == "5KB"@,
        index == 1 ==> label@ == "10KB"@,
        index == 2 ==> label@ == "100KB"@,
        index == 3 ==> label@ == "200KB"@,
        index == 4 ==> label@ == "500KB"@,
        index == 5 ==> label@ == "1MB"@,
        index == 6 ==> label@ == "10MB"@,
        index == 7 ==> label@ == "100MB"@,
{
    if index == 0 {
        "5KB"
    } else if index == 1 {
        "10KB"
    } else if index == 2 {
        "100KB"
    } else if index == 3 {
        "200KB"
    } else if index == 4 {
        "500KB"
    } else if index == 5 {
        "1MB"
    } else if index == 6 {
        "10MB"
    } else {
        "100MB"
    }
}

// ---------------------------------------------------------------------------
// Download times per file
// ---------------------------------------------------------------------------

/// Download times, in nanoseconds, grouped by benchmark file.
pub struct TimingTable {
    rows: Vec<Vec<u64>>,
}

pub open spec fn empty_rows() -> Seq<Seq<u64>> {
    Seq::new(FILE_COUNT as nat, |i: int| Seq::<u64>::empty())
}

/// The table after one measurement: it joins the row of its file; a
/// measurement for an index past the last file is not kept.
pub open spec fn record_spec(rows: Seq<Seq<u64>>, index: int, nanos: u64) -> Seq<Seq<u64>> {
    if 0 <= index < rows.len() {
        rows.update(index, rows[index].push(nanos))
    } else {
        rows
    }
}

impl View for TimingTable {
    type V = Seq<Seq<u64>>;

    closed spec fn view(&self) -> Seq<Seq<u64>> {
        self.rows@.map_values(|r: Vec<u64>| r@)
    }
}

impl TimingTable {
    /// A table with no measurements.
    pub fn new() -> (t: TimingTable)
        ensures
            t@ == empty_rows(),
            t@.len() == FILE_COUNT,
            forall|k: int| 0 <= k < FILE_COUNT ==> (#[trigger] t@[k]).len() == 0,
    {
        let mut rows: Vec<Vec<u64>> = Vec::new();
        let mut i: usize = 0;
        while i < FILE_COUNT
            invariant
                i <= FILE_COUNT,
                rows@.len() == i,
                forall|k: int| 0 <= k < i ==> (#[trigger] rows@[k])@ == Seq::<u64>::empty(),
            decreases FILE_COUNT - i,
        {
            rows.push(Vec::new());
            i = i + 1;
        }
        let t = TimingTable { rows };
        assert(t@ =~= empty_rows());
        t
    }

    /// Records the download time of the file with this index. Only the
    /// indices of the benchmark files are kept.
    pub fn record(&mut self, index: usize, nanos: u64)
        ensures
            final(self)@ == record_spec(old(self)@, index as int, nanos),
            final(self)@.len() == old(self)@.len(),
            index < old(self)@.len() ==> final(self)@[index as int] == old(self)@[index as int].push(nanos),
            forall|k: int| 0 <= k < old(self)@.len() && k != index ==> #[trigger] final(self)@[k] == old(self)@[k],
    {
        if index < self.rows.len() {
            let mut row: Vec<u64> = self.rows[index].clone();
            row.push(nanos);
            self.rows.set(index, row);
            assert(self@ =~= record_spec(old(self)@, index as int, nanos));
        }
    }

    /// The number of rows, one per benchmark file.
    pub fn len(&self) -> (n: usize)
        ensures
            n == self@.len(),
    {
        self.rows.len()
    }

    /// The download times recorded for the file with this index, in the
    /// order they were recorded.
    pub fn row(&self, index: usize) -> (r: &Vec<u64>)
        requires
            index < self@.len(),
        ensures
            r@ == self@[index as int],
    {
        &self.rows[index]
    }
}

/// The table after a sequence of measurements, each a file index and a time.
pub open spec fn record_all(rows: Seq<Seq<u64>>, ms: Seq<(usize, u64)>) -> Seq<Seq<u64>>
    decreases ms.len(),
{
    if ms.len() == 0 {
        rows
    } else {
        record_all(record_spec(rows, ms[0].0 as int, ms[0].1), ms.drop_first())
    }
}

/// The times measured for file `k`, in the order they were taken.
pub open spec fn times_of(ms: Seq<(usize, u64)>, k: int) -> Seq<u64>
    decreases ms.len(),
{
    if ms.len() == 0 {
        seq![]
    } else {
        let rest = times_of(ms.drop_last(), k);
        if ms.last().0 == k {
            rest.push(ms.last().1)
        } else {
            rest
        }
    }
}

proof fn lemma_record_all_push(rows: Seq<Seq<u64>>, ms: Seq<(usize, u64)>, m: (usize, u64))
    ensures
        record_all(rows, ms.push(m)) == record_spec(record_all(rows, ms), m.0 as int, m.1),
    decreases ms.len(),
{
    if ms.len() == 0 {
        assert(ms.push(m).drop_first() =~= Seq::<(usize, u64)>::empty());
        assert(ms.push(m)[0] == m);
        assert(record_all(record_spec(rows, m.0 as int, m.1), Seq::<(usize, u64)>::empty()) == record_spec(rows, m.0 as int, m.1));
    } else {
        assert(ms.push(m).drop_first() =~= ms.drop_first().push(m));
        assert(ms.push(m)[0] == ms[0]);
        lemma_record_all_push(record_spec(rows, ms[0].0 as int, ms[0].1), ms.drop_first(), m);
    }
}

/// Whatever sequence of measurements is recorded into an empty table, the
/// row of each file holds exactly the times measured for that file, in the
/// order they were measured, and measurements for other indices are lost.
pub proof fn lemma_rows_hold_their_files(ms: Seq<(usize, u64)>)
    ensures
        record_all(empty_rows(), ms).len() == FILE_COUNT,
        forall|k: int| 0 <= k < FILE_COUNT ==> #[trigger] record_all(empty_rows(), ms)[k] == times_of(ms, k),
    decreases ms.len(),
{
    if ms.len() > 0 {
        let init = ms.drop_last();
        let m = ms.last();
        lemma_rows_hold_their_files(init);
        assert(init.push(m) =~= ms);
        lemma_record_all_push(empty_rows(), init, m);
    } else {
        assert forall|k: int| 0 <= k < FILE_COUNT implies #[trigger] record_all(empty_rows(), ms)[k] == times_of(ms, k) by {
            assert(record_all(empty_rows(), ms)[k] =~= Seq::<u64>::empty());
        }
    }
}

// ---------------------------------------------------------------------------
// Bytes on the wire
// ---------------------------------------------------------------------------

/// The bytes a connection has moved, counting a 32-byte overhead for each
/// packet: received bytes plus sent bytes plus 32 per packet either way.
pub open spec fn transferred_spec(recv_bytes: int, sent_bytes: int, recv_packets: int, sent_packets: int) -> int {
    recv_bytes + sent_bytes + (recv_packets + sent_packets) * 32
}

/// Computes the traffic of a connection from its packet and byte counters.
pub fn transferred_bytes(recv_bytes: u64, sent_bytes: u64, recv_packets: usize, sent_packets: usize) -> (t: u128)
    ensures
        t == transferred_spec(recv_bytes as int, sent_bytes as int, recv_packets as int, sent_packets as int),
        t == recv_bytes + sent_bytes + 32 * recv_packets + 32 * sent_packets,
{
    (recv_bytes as u128) + (sent_bytes as u128) + ((recv_packets as u128) + (sent_packets as u128)) * 32
}

// ---------------------------------------------------------------------------
// Throughput samples of a fairness run
// ---------------------------------------------------------------------------

/// The length of a sampling interval, in nanoseconds: a sample is taken
/// once strictly more than one second has passed since the last one.
pub const SAMPLE_INTERVAL_NS: u128 = 1_000_000_000;

/// One throughput sample: its ordinal (counting from 1), the traffic since
/// the previous sample and the time since the previous sample.
#[derive(Debug, Clone, Copy, PartialEq, Eq, Structural)]
pub struct Sample {
    pub ordinal: u64,
    pub bytes: i128,
    pub interval_ns: u128,
}

/// Takes throughput samples during a transfer.
pub struct ThroughputMeter {
    pub last_elapsed_ns: u128,
    pub last_bytes: u128,
    pub next_ordinal: u64,
}

/// The largest traffic count the meter takes: differences of such counts
/// fit in an `i128`.
pub open spec fn bytes_bound() -> int {
    i128::MAX as int
}

/// A meter and the sample, if any, after observing the elapsed time and
/// the traffic so far.
pub open spec fn observe_spec(m: ThroughputMeter, elapsed_ns: u128, bytes: u128) -> (ThroughputMeter, Option<Sample>) {
    if elapsed_ns > m.last_elapsed_ns && elapsed_ns - m.last_elapsed_ns > SAMPLE_INTERVAL_NS {
        (
            ThroughputMeter { last_elapsed_ns: elapsed_ns, last_bytes: bytes, next_ordinal: (m.next_ordinal + 1) as u64 },
            Some(Sample {
                ordinal: m.next_ordinal,
                bytes: (bytes - m.last_bytes) as i128,
                interval_ns: (elapsed_ns - m.last_elapsed_ns) as u128,
            }),
        )
    } else {
        (m, None)
    }
}

impl ThroughputMeter {
    /// A meter that starts counting at the given time and traffic; its
    /// first sample has the ordinal 1.
    pub fn new(elapsed_ns: u128, bytes: u128) -> (m: ThroughputMeter)
        ensures
            m == (ThroughputMeter { last_elapsed_ns: elapsed_ns, last_bytes: bytes, next_ordinal: 1 }),
    {
        ThroughputMeter { last_elapsed_ns: elapsed_ns, last_bytes: bytes, next_ordinal: 1 }
    }

    /// Observes the elapsed time and the traffic so far; returns a sample
    /// when more than one second passed since the last one.
    pub fn observe(&mut self, elapsed_ns: u128, bytes: u128) -> (s: Option<Sample>)
        requires
            old(self).next_ordinal < u64::MAX,
            old(self).last_bytes <= bytes_bound(),
            bytes <= bytes_bound(),
        ensures
            (*final(self), s) == observe_spec(*old(self), elapsed_ns, bytes),
            elapsed_ns > old(self).last_elapsed_ns + SAMPLE_INTERVAL_NS ==> (s matches Some(x)
                && x.ordinal == old(self).next_ordinal
                && x.bytes == bytes - old(self).last_bytes
                && x.interval_ns == elapsed_ns - old(self).last_elapsed_ns)
                && final(self).last_elapsed_ns == elapsed_ns && final(self).last_bytes == bytes
                && final(self).next_ordinal == old(self).next_ordinal + 1,
            elapsed_ns <= old(self).last_elapsed_ns + SAMPLE_INTERVAL_NS ==> s is None
                && *final(self) == *old(self),
    {
        if elapsed_ns > self.last_elapsed_ns && elapsed_ns - self.last_elapsed_ns > SAMPLE_INTERVAL_NS {
            let sample = Sample {
                ordinal: self.next_ordinal,
                bytes: (bytes as i128) - (self.last_bytes as i128),
                interval_ns: elapsed_ns - self.last_elapsed_ns,
            };
            self.last_elapsed_ns = elapsed_ns;
            self.last_bytes = bytes;
            self.next_ordinal = self.next_ordinal + 1;
            Some(sample)
        } else {
            None
        }
    }
}

/// The meter after a sequence of observations, each an elapsed time and a
/// traffic count.
pub open spec fn observe_all(m: ThroughputMeter, obs: Seq<(u128, u128)>) -> ThroughputMeter
    decreases obs.len(),
{
    if obs.len() == 0 {
        m
    } else {
        observe_all(observe_spec(m, obs[0].0, obs[0].1).0, obs.drop_first())
    }
}

/// The samples taken during a sequence of observations.
pub open spec fn samples_of(m: ThroughputMeter, obs: Seq<(u128, u128)>) -> Seq<Sample>
    decreases obs.len(),
{
    if obs.len() == 0 {
        seq![]
    } else {
        let (m1, s) = observe_spec(m, obs[0].0, obs[0].1);
        match s {
            Some(x) => seq![x] + samples_of(m1, obs.drop_first()),
            None => samples_of(m1, obs.drop_first()),
        }
    }
}

pub open spec fn total_bytes(ss: Seq<Sample>) -> int
    decreases ss.len(),
{
    if ss.len() == 0 {
        0
    } else {
        ss[0].bytes + total_bytes(ss.drop_first())
    }
}

pub open spec fn total_interval(ss: Seq<Sample>) -> int
    decreases ss.len(),
{
    if ss.len() == 0 {
        0
    } else {
        ss[0].interval_ns + total_interval(ss.drop_first())
    }
}

proof fn lemma_sum_prepend(x: Sample, ss: Seq<Sample>)
    ensures
        total_bytes(seq![x] + ss) == x.bytes + total_bytes(ss),
        total_interval(seq![x] + ss) == x.interval_ns + total_interval(ss),
{
    assert((seq![x] + ss).drop_first() =~= ss);
}

/// The samples of a run account for all traffic and time between the first
/// and the last sample: their byte counts add up to the traffic counted at
/// the last sample minus the traffic the meter started from, their
/// intervals to the time between the two, and they are numbered
/// consecutively.
pub proof fn lemma_samples_telescope(m: ThroughputMeter, obs: Seq<(u128, u128)>)
    requires
        m.last_bytes <= bytes_bound(),
        forall|i: int| 0 <= i < obs.len() ==> (#[trigger] obs[i]).1 <= bytes_bound(),
        m.next_ordinal + obs.len() < u64::MAX,
    ensures
        total_bytes(samples_of(m, obs)) == observe_all(m, obs).last_bytes - m.last_bytes,
        total_interval(samples_of(m, obs)) == observe_all(m, obs).last_elapsed_ns - m.last_elapsed_ns,
        observe_all(m, obs).next_ordinal == m.next_ordinal + samples_of(m, obs).len(),
        forall|i: int| 0 <= i < samples_of(m, obs).len() ==>
            (#[trigger] samples_of(m, obs)[i]).ordinal == m.next_ordinal + i,
    decreases obs.len(),
{
    if obs.len() > 0 {
        let (m1, s) = observe_spec(m, obs[0].0, obs[0].1);
        let rest = obs.drop_first();
        assert forall|i: int| 0 <= i < rest.len() implies (#[trigger] rest[i]).1 <= bytes_bound() by {
            assert(rest[i] == obs[i + 1]);
        }
        assert(obs[0].1 <= bytes_bound());
        lemma_samples_telescope(m1, rest);
        match s {
            Some(x) => {
                lemma_sum_prepend(x, samples_of(m1, rest));
                let all = samples_of(m, obs);
                assert(all == seq![x] + samples_of(m1, rest));
                assert forall|i: int| 0 <= i < all.len() implies (#[trigger] all[i]).ordinal == m.next_ordinal + i by {
                    if i > 0 {
                        assert(all[i] == samples_of(m1, rest)[i - 1]);
                    }
                }
            },
            None => {},
        }
    }
}

/// Every sample of a run spans strictly more than one second: two samples
/// are never taken within the same second.
pub proof fn lemma_samples_spaced(m: ThroughputMeter, obs: Seq<(u128, u128)>)
    ensures
        forall|i: int| 0 <= i < samples_of(m, obs).len() ==>
            (#[trigger] samples_of(m, obs)[i]).interval_ns > SAMPLE_INTERVAL_NS,
    decreases obs.len(),
{
    if obs.len() > 0 {
        let (m1, s) = observe_spec(m, obs[0].0, obs[0].1);
        let rest = obs.drop_first();
        lemma_samples_spaced(m1, rest);
        match s {
            Some(x) => {
                let all = samples_of(m, obs);
                assert(all == seq![x] + samples_of(m1, rest));
                assert forall|i: int| 0 <= i < all.len() implies (#[trigger] all[i]).interval_ns > SAMPLE_INTERVAL_NS by {
                    if i > 0 {
                        assert(all[i] == samples_of(m1, rest)[i - 1]);
                    }
                }
            },
            None => {},
        }
    }
}

/// A meter started afresh for a connection numbers the samples of that
/// connection 1, 2, 3, ... with no gap and no repetition.
pub proof fn lemma_fresh_meter_numbers_from_one(elapsed_ns: u128, bytes: u128, obs: Seq<(u128, u128)>)
    requires
        bytes <= bytes_bound(),
        forall|i: int| 0 <= i < obs.len() ==> (#[trigger] obs[i]).1 <= bytes_bound(),
        1 + obs.len() < u64::MAX,
    ensures
        forall|i: int| 0 <= i < samples_of(ThroughputMeter { last_elapsed_ns: elapsed_ns, last_bytes: bytes, next_ordinal: 1 }, obs).len() ==>
            (#[trigger] samples_of(ThroughputMeter { last_elapsed_ns: elapsed_ns, last_bytes: bytes, next_ordinal: 1 }, obs)[i]).ordinal == i + 1,
{
    lemma_samples_telescope(ThroughputMeter { last_elapsed_ns: elapsed_ns, last_bytes: bytes, next_ordinal: 1 }, obs);
}

/// Where the traffic counts never decrease (and none is below the count the
/// meter started from), no sample reports negative traffic.
pub proof fn lemma_growing_traffic_gives_nonnegative_samples(m: ThroughputMeter, obs: Seq<(u128, u128)>)
    requires
        m.last_bytes <= bytes_bound(),
        forall|i: int| 0 <= i < obs.len() ==> (#[trigger] obs[i]).1 <= bytes_bound(),
        forall|i: int| 0 <= i < obs.len() ==> m.last_bytes <= (#[trigger] obs[i]).1,
        forall|i: int, j: int| 0 <= i <= j < obs.len() ==> (#[trigger] obs[i]).1 <= (#[trigger] obs[j]).1,
    ensures
        forall|k: int| 0 <= k < samples_of(m, obs).len() ==> (#[trigger] samples_of(m, obs)[k]).bytes >= 0,
    decreases obs.len(),
{
    if obs.len() > 0 {
        let (m1, s) = observe_spec(m, obs[0].0, obs[0].1);
        let rest = obs.drop_first();
        assert forall|i: int| 0 <= i < rest.len() implies (#[trigger] rest[i]).1 <= bytes_bound() by {
            assert(rest[i] == obs[i + 1]);
        }
        assert forall|i: int| 0 <= i < rest.len() implies m1.last_bytes <= (#[trigger] rest[i]).1 by {
            assert(rest[i] == obs[i + 1]);
            assert(obs[0].1 <= obs[i + 1].1);
        }
        assert forall|i: int, j: int| 0 <= i <= j < rest.len() implies (#[trigger] rest[i]).1 <= (#[trigger] rest[j]).1 by {
            assert(rest[i] == obs[i + 1]);
            assert(rest[j] == obs[j + 1]);
        }
        assert(obs[0].1 <= bytes_bound());
        assert(m.last_bytes <= obs[0].1);
        lemma_growing_traffic_gives_nonnegative_samples(m1, rest);
        match s {
            Some(x) => {
                let all = samples_of(m, obs);
                assert(all == seq![x] + samples_of(m1, rest));
                assert(x.bytes >= 0);
                assert forall|k: int| 0 <= k < all.len() implies (#[trigger] all[k]).bytes >= 0 by {
                    if k > 0 {
                        assert(all[k] == samples_of(m1, rest)[k - 1]);
                    }
                }
            },
            None => {},
        }
    }
}

/// A sample is taken whenever strictly more than one second has passed
/// since the last one, however many samples came before: it carries the
/// meter's next ordinal, the traffic and the time since the last sample,
/// and the meter moves on to the observed time and traffic. Otherwise no
/// sample is taken and the meter is left as it was. (The bounds are those
/// of the meter's integer fields.)
pub proof fn law_sample_after_each_second(m: ThroughputMeter, elapsed_ns: u128, bytes: u128)
    requires
        m.next_ordinal < u64::MAX,
        m.last_bytes <= bytes_bound(),
        bytes <= bytes_bound(),
    ensures
        elapsed_ns > m.last_elapsed_ns + SAMPLE_INTERVAL_NS ==> {
            let (m2, s) = observe_spec(m, elapsed_ns, bytes);
            &&& s matches Some(x)
            &&& x.ordinal == m.next_ordinal
            &&& x.bytes == bytes - m.last_bytes
            &&& x.interval_ns == elapsed_ns - m.last_elapsed_ns
            &&& m2.last_elapsed_ns == elapsed_ns
            &&& m2.last_bytes == bytes
            &&& m2.next_ordinal == m.next_ordinal + 1
        },
        elapsed_ns <= m.last_elapsed_ns + SAMPLE_INTERVAL_NS ==> observe_spec(m, elapsed_ns, bytes) == (m, None::<Sample>),
{
}

/// Recording a time changes only the row of its file, which grows by
/// exactly that time at its end; a time for an index past the last file
/// changes nothing.
pub proof fn law_record_touches_one_row(rows: Seq<Seq<u64>>, index: int, nanos: u64)
    ensures
        record_spec(rows, index, nanos).len() == rows.len(),
        0 <= index < rows.len() ==> record_spec(rows, index, nanos)[index] == rows[index].push(nanos),
        forall|k: int| 0 <= k < rows.len() && k != index ==> #[trigger] record_spec(rows, index, nanos)[k] == rows[k],
{
}

/// The traffic count adds both byte counters and 32 bytes for every packet
/// sent or received.
pub proof fn law_traffic_count(recv_bytes: int, sent_bytes: int, recv_packets: int, sent_packets: int)
    ensures
        transferred_spec(recv_bytes, sent_bytes, recv_packets, sent_packets)
            == recv_bytes + sent_bytes + 32 * recv_packets + 32 * sent_packets,
        transferred_spec(recv_bytes, sent_bytes, recv_packets + 1, sent_packets)
            == transferred_spec(recv_bytes, sent_bytes, recv_packets, sent_packets) + 32,
{
}

} // verus!
