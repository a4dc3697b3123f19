use can_telemetry::{TelemetryHistory, TelemetryRow};
use std::sync::{Arc, Mutex};

fn check_snapshot(snap: &TelemetryHistory) {
    let channels: Vec<Vec<(u64, i32)>> = (0..12).map(|c| snap.channel(c)).collect();
    for ch in &channels {
        assert_eq!(ch.len(), channels[0].len());
        assert_eq!(ch.last(), channels[0].last());
    }
}

#[test]
fn snapshots_never_see_torn_appends() {
    let history = Arc::new(Mutex::new(TelemetryHistory::new()));
    let writer_history = Arc::clone(&history);
    for k in 0..10_000u64 {
        let v = k as i32;
        let row = TelemetryRow { time_ns: k, pressure: [v; 6], accel: [v; 3], gyro: [v; 3] };
        writer_history.lock().unwrap().append_sample(row, k);
        if k % 7 == 0 {
            let snap = history.lock().unwrap().clone();
            check_snapshot(&snap);
            assert_eq!(snap.len() as u64, (k + 1).min(1000));
        }
    }
    let done = history.lock().unwrap();
    check_snapshot(&done);
    assert_eq!(done.len(), 1000);
    assert_eq!(done.rate_millihertz(), 9_999);
}
