use m365::tracker::{same_address, DeviceRegistry, ScannerEvent, TrackedDevice, UNKNOWN_NAME, VENDOR_SERVICE_UUID};

const A: [u8; 6] = [1, 2, 3, 4, 5, 6];
const B: [u8; 6] = [1, 2, 3, 4, 5, 7];

fn device(addr: [u8; 6], name: Option<&str>, service: bool) -> TrackedDevice {
    TrackedDevice { addr, name: name.map(|n| n.to_string()), has_xiaomi_service: service }
}

#[test]
fn scooter_by_service() {
    assert!(device(A, None, true).is_scooter());
    assert!(device(A, Some("Headphones"), true).is_scooter());
}

#[test]
fn scooter_by_name_prefix() {
    assert!(device(A, Some("MIScooter1234"), false).is_scooter());
    assert!(device(A, Some("MIScooter"), false).is_scooter());
    assert!(!device(A, Some("MIScoote"), false).is_scooter());
    assert!(!device(A, Some("miscooter1"), false).is_scooter());
    assert!(!device(A, Some("X MIScooter"), false).is_scooter());
    assert!(!device(A, None, false).is_scooter());
}

#[test]
fn equality_is_by_address() {
    assert!(device(A, Some("one"), true) == device(A, None, false));
    assert!(device(A, Some("one"), true) != device(B, Some("one"), true));
    assert!(same_address(&A, &A));
    assert!(!same_address(&A, &B));
}

#[test]
fn first_sighting_wins() {
    let mut r = DeviceRegistry::new();
    let first = r.track_device(A, Some("MIScooter7".to_string()), &vec![], &vec![]).unwrap();
    assert_eq!(first.name.as_deref(), Some("MIScooter7"));
    assert!(r.track_device(A, Some("Other".to_string()), &vec![VENDOR_SERVICE_UUID], &vec![]).is_none());
    assert_eq!(r.len(), 1);
    let all = r.devices();
    assert_eq!(all[0].name.as_deref(), Some("MIScooter7"));
    assert!(!all[0].has_xiaomi_service);
}

#[test]
fn unknown_name_and_service_flag() {
    let mut r = DeviceRegistry::new();
    let d = r.track_device(A, None, &vec![], &vec![7, VENDOR_SERVICE_UUID]).unwrap();
    assert_eq!(d.name.as_deref(), Some(UNKNOWN_NAME));
    assert!(d.has_xiaomi_service);
    let e = r.track_device(B, None, &vec![VENDOR_SERVICE_UUID], &vec![]).unwrap();
    assert!(e.has_xiaomi_service);
    assert!(r.contains(&A) && r.contains(&B));
    assert!(!r.contains(&[0; 6]));
}

#[test]
fn one_event_per_address() {
    let mut r = DeviceRegistry::new();
    let mut events = 0;
    for _ in 0..5 {
        if let Some(ScannerEvent::DiscoveredScooter(d)) =
            r.discover(A, Some("MIScooter1".to_string()), &vec![], &vec![])
        {
            assert_eq!(d.addr, A);
            events += 1;
        }
    }
    assert_eq!(events, 1);
    assert_eq!(r.len(), 1);
}

#[test]
fn non_scooter_is_tracked_but_not_reported() {
    let mut r = DeviceRegistry::new();
    assert!(r.discover(B, Some("Speaker".to_string()), &vec![], &vec![]).is_none());
    assert!(r.contains(&B));
    // A later sighting with the vendor service does not reclassify it.
    assert!(r.discover(B, Some("MIScooter9".to_string()), &vec![VENDOR_SERVICE_UUID], &vec![]).is_none());
    assert!(r.scooters().is_empty());
}

#[test]
fn snapshots() {
    let mut r = DeviceRegistry::new();
    r.track_device(A, Some("Speaker".to_string()), &vec![], &vec![]);
    r.track_device(B, Some("MIScooter2".to_string()), &vec![], &vec![]);
    let c = [9u8; 6];
    r.track_device(c, None, &vec![VENDOR_SERVICE_UUID], &vec![]);
    let all: Vec<[u8; 6]> = r.devices().iter().map(|d| d.addr).collect();
    assert_eq!(all, vec![A, B, c]);
    let scooters: Vec<[u8; 6]> = r.scooters().iter().map(|d| d.addr).collect();
    assert_eq!(scooters, vec![B, c]);
}
