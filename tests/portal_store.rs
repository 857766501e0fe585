use wifi_connect::portal::{PortalStore, SubmitError};
use wifi_connect::scan::AccessPoint;

fn scan(names: &[&str]) -> Vec<AccessPoint> {
    names.iter().map(|n| AccessPoint { ssid: n.to_string(), strength: 70, secured: true }).collect()
}

#[test]
fn new_store_is_empty() {
    let store = PortalStore::new();
    assert!(store.latest_scan.points.is_empty());
    assert!(store.pending.is_none());
}

#[test]
fn list_networks_refreshes_and_encodes() {
    let mut store = PortalStore::new();
    let body = store.list_networks(scan(&["HomeNet", "", "CafeWifi"]));
    assert_eq!(body, Some("[\"HomeNet\",\"CafeWifi\"]".to_string()));
    assert_eq!(store.latest_scan.points.len(), 2);
    let body = store.list_networks(scan(&["Other"]));
    assert_eq!(body, Some("[\"Other\"]".to_string()));
    assert_eq!(store.latest_scan.points.len(), 1);
}

#[test]
fn submit_for_scanned_network_is_recorded() {
    let mut store = PortalStore::new();
    store.refresh(scan(&["HomeNet", "CafeWifi"]));
    assert_eq!(store.submit("HomeNet".to_string(), "correct".to_string()), Ok(()));
    let sub = store.pending.as_ref().unwrap();
    assert_eq!(sub.ssid, "HomeNet");
    assert_eq!(sub.password, "correct");
}

#[test]
fn submit_for_unknown_network_is_refused() {
    let mut store = PortalStore::new();
    store.refresh(scan(&["HomeNet", "CafeWifi"]));
    assert_eq!(store.submit("Unknown".to_string(), "x".to_string()), Err(SubmitError::UnknownNetwork));
    assert!(store.pending.is_none());
}

#[test]
fn submit_before_any_scan_is_refused() {
    let mut store = PortalStore::new();
    assert_eq!(store.submit("HomeNet".to_string(), "x".to_string()), Err(SubmitError::UnknownNetwork));
    assert!(store.pending.is_none());
}

#[test]
fn second_submit_is_refused() {
    let mut store = PortalStore::new();
    store.refresh(scan(&["HomeNet"]));
    assert_eq!(store.submit("HomeNet".to_string(), "a".to_string()), Ok(()));
    assert_eq!(store.submit("HomeNet".to_string(), "b".to_string()), Err(SubmitError::AlreadyPending));
    assert_eq!(store.pending.as_ref().unwrap().password, "a");
}

#[test]
fn take_submission_hands_it_out_once() {
    let mut store = PortalStore::new();
    store.refresh(scan(&["HomeNet"]));
    store.submit("HomeNet".to_string(), "pw".to_string()).unwrap();
    let sub = store.take_submission().unwrap();
    assert_eq!(sub.ssid, "HomeNet");
    assert!(store.take_submission().is_none());
    assert!(store.pending.is_none());
}

#[test]
fn refresh_keeps_pending_submission() {
    let mut store = PortalStore::new();
    store.refresh(scan(&["HomeNet"]));
    store.submit("HomeNet".to_string(), "pw".to_string()).unwrap();
    store.refresh(scan(&["CafeWifi"]));
    assert!(store.pending.is_some());
}

#[test]
fn submit_error_status_codes() {
    assert_eq!(SubmitError::UnknownNetwork.status_code(), 400);
    assert_eq!(SubmitError::AlreadyPending.status_code(), 409);
}
