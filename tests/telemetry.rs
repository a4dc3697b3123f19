use can_telemetry::{
    encode_frame, decode_frame, ingest_frame, process_frame, sample_from_payload, unpack_fields,
    CanDlc, CanFrame, Divisor, ProtocolError, RateEstimator, TelemetryConfig, TelemetryHistory,
    TelemetryRow,
};

fn example_payload() -> Vec<u8> {
    vec![
        0x01, 0x00, 0x64, 0x00, 0x00, 0xC8, 0x00, 0x00, 0x2C, 0x01, 0x00, 0x90, 0x01, 0x00, 0xF4,
        0x01, 0x00, 0x58, 0x02, 0x00, 0xE8, 0x03, 0x64, 0x00, 0x9C, 0xFF, 0x32, 0x00, 0xCE, 0xFF,
        0x00, 0x00,
    ]
}

fn row(t: u64, v: i32) -> TelemetryRow {
    TelemetryRow { time_ns: t, pressure: [v; 6], accel: [v; 3], gyro: [v; 3] }
}

#[test]
fn decode_example_payload() {
    let values = unpack_fields(&example_payload()).unwrap();
    assert_eq!(values, vec![1, 100, 200, 300, 400, 500, 600, 1000, 100, -100, 50, -50, 0]);
}

#[test]
fn wide_fields_use_all_three_bytes() {
    let mut p = vec![0u8; 32];
    p[0] = 0xFF;
    p[1] = 0xFF;
    p[2] = 0x01;
    p[3] = 0x02;
    p[4] = 0x03;
    p[30] = 0x00;
    p[31] = 0x80;
    let values = unpack_fields(&p).unwrap();
    assert_eq!(values[0], 65535);
    assert_eq!(values[1], 0x030201);
    assert_eq!(values[12], -32768);
}

#[test]
fn payload_of_wrong_length_is_malformed() {
    assert_eq!(unpack_fields(&[0u8; 31]), Err(ProtocolError::MalformedPayload));
    assert_eq!(unpack_fields(&[0u8; 33]), Err(ProtocolError::MalformedPayload));
    assert_eq!(unpack_fields(&[]), Err(ProtocolError::MalformedPayload));
    assert_eq!(sample_from_payload(&[0u8; 8], 0), Err(ProtocolError::MalformedPayload));
}

#[test]
fn sample_skips_reserved_lead_value() {
    let r = sample_from_payload(&example_payload(), 42).unwrap();
    assert_eq!(r.time_ns, 42);
    assert_eq!(r.pressure, [100, 200, 300, 400, 500, 600]);
    assert_eq!(r.accel, [1000, 100, -100]);
    assert_eq!(r.gyro, [50, -50, 0]);
    for c in 0..12 {
        let expected = [100, 200, 300, 400, 500, 600, 1000, 100, -100, 50, -50, 0][c];
        assert_eq!(r.channel(c), expected);
    }
}

#[test]
fn rate_of_steady_intervals() {
    let mut est = RateEstimator::new(50, 0);
    assert_eq!(est.rate_millihertz(), 0);
    for k in 1..=50u64 {
        est.record_arrival(k * 100_000_000);
    }
    assert_eq!(est.len(), 50);
    assert_eq!(est.total_nanos(), 5_000_000_000);
    assert_eq!(est.rate_millihertz(), 10_000);
    let hz = est.len() as f64 / (est.total_nanos() as f64 / 1e9);
    assert!((hz - 10.0).abs() < 1e-9);
    est.record_arrival(51 * 100_000_000);
    assert_eq!(est.len(), 50);
    assert_eq!(est.rate_millihertz(), 10_000);
}

#[test]
fn rate_with_one_outlier() {
    let mut est = RateEstimator::new(50, 0);
    let mut t = 0u64;
    for _ in 0..49 {
        t += 100_000_000;
        est.record_arrival(t);
    }
    t += 1_000_000_000;
    est.record_arrival(t);
    assert_eq!(est.total_nanos(), 5_900_000_000);
    // 50 / 5.9 s = 8.4745... Hz
    assert_eq!(est.rate_millihertz(), 8_474);
}

#[test]
fn rate_edge_cases() {
    let mut est = RateEstimator::new(3, 1_000);
    est.record_arrival(1_000);
    assert_eq!(est.rate_millihertz(), u64::MAX);
    // a clock reading earlier than the last arrival counts as no time
    est.record_arrival(500);
    assert_eq!(est.total_nanos(), 0);
    est.record_arrival(2_500);
    assert_eq!(est.total_nanos(), 2_000);
    // 3 intervals over 2 microseconds: 1.5 MHz
    assert_eq!(est.rate_millihertz(), 1_500_000_000);
}

#[test]
fn history_keeps_newest_thousand() {
    let mut h = TelemetryHistory::new();
    assert_eq!(h.capacity(), 1000);
    for k in 0..1001u64 {
        h.append_sample(row(k, k as i32), 7);
    }
    assert_eq!(h.len(), 1000);
    for c in 0..12 {
        let ch = h.channel(c);
        assert_eq!(ch.len(), 1000);
        assert_eq!(ch[0], (1, 1));
        assert_eq!(ch[999], (1000, 1000));
    }
    assert_eq!(h.row(0).time_ns, 1);
    assert_eq!(h.rate_millihertz(), 7);
}

#[test]
fn history_small_capacity() {
    let mut h = TelemetryHistory::with_capacity(2);
    h.append_sample(row(1, 10), 1);
    h.append_sample(row(2, 20), 2);
    h.append_sample(row(3, 30), 3);
    assert_eq!(h.channel(5), vec![(2, 20), (3, 30)]);
    assert_eq!(h.rate_millihertz(), 3);
}

fn telemetry_frame(id: u16) -> CanFrame {
    let bytes = encode_frame(id, &example_payload(), CanDlc::Size32).unwrap();
    decode_frame(&bytes).unwrap().0
}

#[test]
fn other_ids_leave_history_alone() {
    let mut est = RateEstimator::new(50, 0);
    let mut h = TelemetryHistory::new();
    process_frame(&mut est, &mut h, &telemetry_frame(1), 100, 100).unwrap();
    assert_eq!(h.len(), 1);
    process_frame(&mut est, &mut h, &telemetry_frame(2), 200, 200).unwrap();
    process_frame(&mut est, &mut h, &telemetry_frame(0x7FF), 300, 300).unwrap();
    assert_eq!(est.len(), 3);
    for c in 0..12 {
        assert_eq!(h.channel(c).len(), 1);
    }
}

#[test]
fn telemetry_frame_appends_sample_and_rate() {
    let mut est = RateEstimator::new(50, 0);
    let mut h = TelemetryHistory::new();
    process_frame(&mut est, &mut h, &telemetry_frame(1), 1_000_000, 5).unwrap();
    assert_eq!(h.channel(0), vec![(5, 100)]);
    assert_eq!(h.channel(11), vec![(5, 0)]);
    assert_eq!(h.rate_millihertz(), 1_000_000);
}

#[test]
fn malformed_telemetry_frame_is_reported() {
    let mut est = RateEstimator::new(50, 0);
    let mut h = TelemetryHistory::new();
    let frame = CanFrame { id: 1, dlc: CanDlc::Size8, data: vec![0; 8] };
    assert_eq!(
        process_frame(&mut est, &mut h, &frame, 10, 10),
        Err(ProtocolError::MalformedPayload)
    );
    assert_eq!(h.len(), 0);
    assert_eq!(est.len(), 1);
    let other = CanFrame { id: 3, dlc: CanDlc::Size8, data: vec![0; 8] };
    assert_eq!(ingest_frame(&mut est, &other, 20, 20), Ok(None));
}

#[test]
fn default_config_values() {
    let c = TelemetryConfig::default();
    assert_eq!(c.pressure_divisor, Divisor { numerator: 40960, denominator: 1 });
    assert_eq!(c.accel_divisor, Divisor { numerator: 8192, denominator: 1 });
    assert_eq!(c.gyro_divisor, Divisor { numerator: 655, denominator: 10 });
    assert_eq!(c.history_capacity, 1000);
    assert_eq!(c.rate_window, 50);
    assert!(c.is_valid());
    let bad = TelemetryConfig { rate_window: 0, ..c };
    assert!(!bad.is_valid());
}
