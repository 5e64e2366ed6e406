use geoclue_prometheus_exporter::monitor::{GaugeWrite, MonitorCore, RawReading, UpdateTracker};
use geoclue_prometheus_exporter::reading::FieldKind;
use std::sync::{Arc, Mutex};

#[test]
fn main_test_update_tracker() {
    let tracker = Arc::new(Mutex::new(UpdateTracker { received_updates: 0 }));

    // Simulate receiving updates
    {
        let mut tracker_guard = tracker.lock().unwrap();
        tracker_guard.received_updates += 1;
        assert_eq!(tracker_guard.received_updates, 1);
    }

    // Simulate another update
    {
        let mut tracker_guard = tracker.lock().unwrap();
        tracker_guard.received_updates += 1;
        assert_eq!(tracker_guard.received_updates, 2);
    }
}

#[test]
fn tests_test_update_tracker() {
    let tracker = Arc::new(Mutex::new(UpdateTracker { received_updates: 0 }));

    // Simulate receiving updates
    {
        let mut tracker_guard = tracker.lock().unwrap();
        tracker_guard.received_updates += 1;
        assert_eq!(tracker_guard.received_updates, 1);
    }

    // Simulate another update
    {
        let mut tracker_guard = tracker.lock().unwrap();
        tracker_guard.received_updates += 1;
        assert_eq!(tracker_guard.received_updates, 2);
    }
}

#[test]
fn test_counter_counts_across_reconnects() {
    // The counter is owned by the monitor's enclosing scope and is not
    // reset between sessions: k notifications give exactly k, however
    // they are split across reconnections.
    let mut core = MonitorCore::new();
    let reading = RawReading {
        latitude: (35.123f64).to_bits(),
        longitude: (135.456f64).to_bits(),
        accuracy: (10.5f64).to_bits(),
        altitude: (-1.0f64).to_bits(),
        speed: (-1.0f64).to_bits(),
        heading: (270.0f64).to_bits(),
    };
    // First session: three notifications.
    for _ in 0..3 {
        let w = core.note_notification();
        assert!(matches!(w, GaugeWrite::UpdateCount(_)));
        core.process_reading(&reading);
    }
    assert_eq!(core.tracker.received_updates, 3);
    // Reconnect; second session: four more notifications, one of which
    // fails to decode (counted, nothing published).
    for _ in 0..3 {
        core.note_notification();
        core.process_reading(&reading);
    }
    core.note_notification();
    assert_eq!(core.tracker.received_updates, 7);
    let w = core.note_notification();
    assert!(matches!(w, GaugeWrite::UpdateCount(8)));
}

#[test]
fn test_end_to_end_reading_pipeline() {
    // A notification carrying latitude 35.123, longitude 135.456,
    // accuracy 10.5, altitude -1, speed -1, heading 270 publishes
    // latitude, longitude, accuracy and heading, no altitude or speed,
    // and turns data availability on.
    let mut core = MonitorCore::new();
    assert!(!core.data_available);

    let count_write = core.note_notification();
    assert_eq!(count_write, GaugeWrite::UpdateCount(1));

    let lat = (35.123f64).to_bits();
    let lon = (135.456f64).to_bits();
    let acc = (10.5f64).to_bits();
    let head = (270.0f64).to_bits();
    let reading = RawReading {
        latitude: lat,
        longitude: lon,
        accuracy: acc,
        altitude: (-1.0f64).to_bits(),
        speed: (-1.0f64).to_bits(),
        heading: head,
    };
    let writes = core.process_reading(&reading);
    assert_eq!(
        writes,
        vec![
            GaugeWrite::Sample(FieldKind::Latitude, lat),
            GaugeWrite::DataAvailable,
            GaugeWrite::Sample(FieldKind::Longitude, lon),
            GaugeWrite::Sample(FieldKind::Accuracy, acc),
            GaugeWrite::Sample(FieldKind::Heading, head),
        ]
    );
    assert!(core.data_available);
}

#[test]
fn test_rejected_latitude_leaves_data_unavailable() {
    let mut core = MonitorCore::new();
    core.note_notification();
    let reading = RawReading {
        latitude: (91.0f64).to_bits(),
        longitude: (135.456f64).to_bits(),
        accuracy: f64::NAN.to_bits(),
        altitude: (123.4f64).to_bits(),
        speed: (5.2f64).to_bits(),
        heading: f64::INFINITY.to_bits(),
    };
    let writes = core.process_reading(&reading);
    assert_eq!(
        writes,
        vec![
            GaugeWrite::Sample(FieldKind::Longitude, (135.456f64).to_bits()),
            GaugeWrite::Sample(FieldKind::Altitude, (123.4f64).to_bits()),
            GaugeWrite::Sample(FieldKind::Speed, (5.2f64).to_bits()),
        ]
    );
    assert!(!core.data_available);
}
