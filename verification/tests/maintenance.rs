use chrono::{DateTime, TimeDelta, Utc};
use nerd_watch::maintenance::{
    judge_marker, marker_file_name, read_marker, should_skip_for_maintenance,
    should_skip_for_maintenance_at, MaintenanceFinding, MaintenanceMarker, MarkerFields,
    MarkerReading, Timestamp,
};

fn reading(content: &str) -> MarkerReading {
    let value: serde_json::Value = serde_json::from_str(content).unwrap();
    MarkerReading::Fields(MarkerFields {
        expires_at: value["expires_at"].as_str().unwrap().to_string(),
        reason: value["reason"].as_str().map(|s| s.to_string()),
    })
}

fn fields(expires_at: &str) -> MarkerReading {
    MarkerReading::Fields(MarkerFields { expires_at: expires_at.to_string(), reason: None })
}

fn stamp(secs: i64, nanos: u32) -> Timestamp {
    Timestamp { secs, nanos }
}

#[test]
fn active_maintenance_marker_suppresses_restart() {
    assert_eq!(marker_file_name("test"), "test.json");
    let expires_at = (Utc::now() + TimeDelta::minutes(30)).to_rfc3339();
    let content = format!(r#"{{"expires_at":"{expires_at}","reason":"backup"}}"#);
    let finding = should_skip_for_maintenance(reading(&content));
    assert!(finding.suppresses_restart());
    assert!(matches!(finding, MaintenanceFinding::Active { reason, .. } if reason == "backup"));
}

#[test]
fn expired_maintenance_marker_does_not_suppress_restart() {
    assert_eq!(marker_file_name("test"), "test.json");
    let expires_at = (Utc::now() - TimeDelta::minutes(30)).to_rfc3339();
    let content = format!(r#"{{"expires_at":"{expires_at}","reason":"backup"}}"#);
    let finding = should_skip_for_maintenance(reading(&content));
    assert!(!finding.suppresses_restart());
    assert!(matches!(finding, MaintenanceFinding::Expired { .. }));
}

#[test]
fn missing_maintenance_marker_does_not_suppress_restart() {
    assert!(!should_skip_for_maintenance(MarkerReading::NotFound).suppresses_restart());
}

#[test]
fn broken_markers_are_ignored() {
    let now = stamp(0, 0);
    let none = should_skip_for_maintenance_at(MarkerReading::NoDirectory, now);
    assert!(matches!(none, MaintenanceFinding::NoMarker));
    let unreadable = should_skip_for_maintenance_at(MarkerReading::Unreadable, now);
    assert!(matches!(unreadable, MaintenanceFinding::Unreadable));
    assert!(!unreadable.suppresses_restart());
    let malformed = should_skip_for_maintenance_at(MarkerReading::Malformed, now);
    assert!(matches!(malformed, MaintenanceFinding::Malformed));
    assert!(!malformed.suppresses_restart());
    let bad = should_skip_for_maintenance_at(fields("tomorrow"), now);
    assert!(!bad.suppresses_restart());
    assert!(matches!(bad, MaintenanceFinding::BadExpiry { .. }));
}

#[test]
fn expiry_text_is_read_as_a_time() {
    let expected: DateTime<Utc> = "2031-05-06T07:08:09.5Z".parse().unwrap();
    for text in ["2031-05-06T07:08:09.5Z", "2031-05-06 09:08:09.5+02:00"] {
        match should_skip_for_maintenance_at(fields(text), stamp(0, 0)) {
            MaintenanceFinding::Active { expires_at, reason } => {
                assert_eq!(expires_at, stamp(expected.timestamp(), 500_000_000));
                assert_eq!(expires_at.secs, 1_935_817_689);
                assert_eq!(reason, "unspecified");
            }
            _ => panic!("the marker is in force"),
        }
    }
}

#[test]
fn marker_expires_at_its_very_time() {
    let marker = MaintenanceMarker { expires_at: stamp(100, 7), reason: None };
    assert!(marker.is_active(stamp(99, 999_999_999)));
    assert!(marker.is_active(stamp(100, 6)));
    assert!(!marker.is_active(stamp(100, 7)));
    assert!(!marker.is_active(stamp(100, 8)));
    assert!(!marker.is_active(stamp(101, 0)));
    assert!(matches!(
        judge_marker(marker, stamp(100, 7)),
        MaintenanceFinding::Expired { expires_at } if expires_at == stamp(100, 7)
    ));
}

#[test]
fn marker_from_before_the_epoch_is_void() {
    let finding = should_skip_for_maintenance(fields("1969-12-31T23:59:59Z"));
    assert!(!finding.suppresses_restart());
    assert!(matches!(
        finding,
        MaintenanceFinding::Expired { expires_at } if expires_at == stamp(-1, 0)
    ));
}

#[test]
fn times_are_written_in_rfc_3339() {
    assert_eq!(stamp(0, 0).to_rfc3339().unwrap(), "1970-01-01T00:00:00+00:00");
    let text = "2031-05-06T07:08:09.500+00:00";
    assert_eq!(stamp(1_935_817_689, 500_000_000).to_rfc3339().unwrap(), text);
    assert_eq!(stamp(i64::MAX, 0).to_rfc3339(), None);
    assert_eq!(stamp(0, 2_000_000_000).to_rfc3339(), None);
}

#[test]
fn marker_is_read_without_a_clock() {
    let marker = read_marker(reading(r#"{"expires_at":"1970-01-01T00:00:05Z","reason":"x"}"#));
    match marker {
        Ok(marker) => {
            assert_eq!(marker.expires_at, stamp(5, 0));
            assert_eq!(marker.reason.as_deref(), Some("x"));
        }
        Err(_) => panic!("the marker is well formed"),
    }
    assert!(matches!(read_marker(MarkerReading::NotFound), Err(MaintenanceFinding::NoMarker)));
    assert!(matches!(read_marker(fields("")), Err(MaintenanceFinding::BadExpiry { .. })));
}
