use rust_client::config::{bind_address, client_settings, peer_address, MAX_DATAGRAM_SIZE, RECV_BUFFER_SIZE};
use rust_client::conn_id::{connection_id_from, random_connection_id};
use rust_client::measure::{size_label, transferred_bytes, Sample, ThroughputMeter, TimingTable, FILE_COUNT, SAMPLE_INTERVAL_NS};

#[test]
fn labels() {
    let all: Vec<&str> = (0..FILE_COUNT).map(size_label).collect();
    assert_eq!(all, vec!["5KB", "10KB", "100KB", "200KB", "500KB", "1MB", "10MB", "100MB"]);
}

#[test]
fn timing_rows() {
    let mut t = TimingTable::new();
    assert_eq!(t.len(), FILE_COUNT);
    t.record(0, 10);
    t.record(3, 30);
    t.record(0, 11);
    t.record(8, 99); // not a benchmark file: dropped
    assert_eq!(t.row(0), &vec![10, 11]);
    assert_eq!(t.row(3), &vec![30]);
    for k in [1, 2, 4, 5, 6, 7] {
        assert!(t.row(k).is_empty());
    }
    assert_eq!(t.len(), FILE_COUNT);
}

#[test]
fn traffic_count() {
    assert_eq!(transferred_bytes(1000, 200, 3, 2), 1000 + 200 + 5 * 32);
    assert_eq!(transferred_bytes(0, 0, 0, 0), 0);
    assert_eq!(
        transferred_bytes(u64::MAX, u64::MAX, usize::MAX, usize::MAX),
        2 * (u64::MAX as u128) + 2 * (usize::MAX as u128) * 32
    );
}

#[test]
fn samples_once_per_second() {
    let mut m = ThroughputMeter::new(0, 100);
    assert_eq!(m.observe(500_000_000, 200), None);
    assert_eq!(m.observe(1_000_000_000, 300), None); // exactly one second: not yet
    assert_eq!(
        m.observe(1_000_000_001, 400),
        Some(Sample { ordinal: 1, bytes: 300, interval_ns: 1_000_000_001 })
    );
    assert_eq!(m.observe(1_500_000_000, 450), None);
    assert_eq!(
        m.observe(2_500_000_000, 1000),
        Some(Sample { ordinal: 2, bytes: 600, interval_ns: 1_499_999_999 })
    );
    assert_eq!(m.next_ordinal, 3);
    assert_eq!(m.last_bytes, 1000);
}

#[test]
fn samples_add_up() {
    let mut m = ThroughputMeter::new(7, 50);
    let mut total: i128 = 0;
    let mut count = 0;
    for k in 1..=40u128 {
        if let Some(s) = m.observe(7 + k * 300_000_000, 50 + k * k * 1000) {
            total += s.bytes;
            count += 1;
            assert_eq!(s.ordinal, count);
        }
    }
    assert_eq!(total, (m.last_bytes - 50) as i128);
    assert_eq!(m.next_ordinal, count + 1);
}

#[test]
fn clock_going_back_takes_no_sample() {
    let mut m = ThroughputMeter::new(5_000_000_000, 0);
    assert_eq!(m.observe(1_000_000_000, 10), None);
    assert_eq!(m.last_elapsed_ns, 5_000_000_000);
}

#[test]
fn settings() {
    let s = client_settings("bbr2");
    assert_eq!(s.cc_algorithm, "bbr2");
    assert_eq!(s.application_protos, vec![b"h3".to_vec()]);
    assert_eq!(s.max_idle_timeout_ms, 15000);
    assert_eq!(s.max_recv_udp_payload_size, 8192);
    assert_eq!(s.max_send_udp_payload_size, 8192);
    assert_eq!(s.initial_max_data, 10_000_000);
    assert_eq!(s.initial_max_stream_data_bidi_local, 1_000_000);
    assert_eq!(s.initial_max_stream_data_bidi_remote, 1_000_000);
    assert_eq!(s.initial_max_stream_data_uni, 1_000_000);
    assert_eq!(s.initial_max_streams_bidi, 100);
    assert_eq!(s.initial_max_streams_uni, 100);
    assert!(!s.verify_peer);
    assert!(s.early_data);
    assert_eq!(MAX_DATAGRAM_SIZE, 8192);
    assert_eq!(RECV_BUFFER_SIZE, 65535);
}

#[test]
fn addresses() {
    assert_eq!(bind_address(false), "0.0.0.0:0");
    assert_eq!(bind_address(true), "[::]:0");
    assert_eq!(peer_address(), "10.0.0.2:6653");
}

#[test]
fn connection_ids() {
    let a = random_connection_id(20).expect("system randomness");
    let b = random_connection_id(20).expect("system randomness");
    assert_eq!(a.len(), 20);
    assert_ne!(a, b);
    assert_eq!(random_connection_id(0), Some(vec![]));
}

#[test]
fn connection_id_from_fill_result() {
    assert_eq!(connection_id_from(true, vec![1, 2, 3]), Some(vec![1, 2, 3]));
    assert_eq!(connection_id_from(false, vec![1, 2, 3]), None);
}

#[test]
fn growing_traffic_samples_spaced_and_nonnegative() {
    let mut m = ThroughputMeter::new(0, 10);
    let mut ordinals = Vec::new();
    for k in 1..=25u128 {
        if let Some(s) = m.observe(k * 450_000_000, 10 + k * 777) {
            assert!(s.bytes >= 0);
            assert!(s.interval_ns > SAMPLE_INTERVAL_NS);
            ordinals.push(s.ordinal);
        }
    }
    assert_eq!(ordinals, (1..=ordinals.len() as u64).collect::<Vec<u64>>());
    assert!(!ordinals.is_empty());
}
