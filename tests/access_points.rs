use wifi_connect::scan::{AccessPoint, AccessPoints};

fn ap(ssid: &str) -> AccessPoint {
    AccessPoint { ssid: ssid.to_string(), strength: 50, secured: true }
}

fn names(points: &AccessPoints) -> Vec<String> {
    points.points.iter().map(|p| p.ssid.clone()).collect()
}

#[test]
fn hidden_networks_are_left_out_in_order() {
    let points = AccessPoints::from_scan(vec![ap(""), ap("HomeNet"), ap(""), ap("CafeWifi")]);
    assert_eq!(names(&points), vec!["HomeNet".to_string(), "CafeWifi".to_string()]);
    assert!(points.points.iter().all(|p| !p.ssid.is_empty()));
}

#[test]
fn empty_scan_gives_no_access_points() {
    assert!(AccessPoints::from_scan(Vec::new()).points.is_empty());
    assert!(AccessPoints::from_scan(vec![ap(""), ap("")]).points.is_empty());
}

#[test]
fn scan_keeps_metadata() {
    let scan = vec![AccessPoint { ssid: "HomeNet".to_string(), strength: 87, secured: false }];
    let points = AccessPoints::from_scan(scan);
    assert_eq!(points.points[0].strength, 87);
    assert!(!points.points[0].secured);
}

#[test]
fn contains_ssid_matches_whole_names() {
    let points = AccessPoints::from_scan(vec![ap("HomeNet"), ap("CafeWifi")]);
    assert!(points.contains_ssid(&"CafeWifi".to_string()));
    assert!(!points.contains_ssid(&"Cafe".to_string()));
    assert!(!points.contains_ssid(&"".to_string()));
}

#[test]
fn ssids_lists_names_in_order() {
    let points = AccessPoints::from_scan(vec![ap("B"), ap("A")]);
    assert_eq!(points.ssids(), vec!["B".to_string(), "A".to_string()]);
}

#[test]
fn ssids_json_is_a_json_array() {
    let points = AccessPoints::from_scan(vec![ap("HomeNet"), ap("Cafe \"Wifi\"")]);
    assert_eq!(points.ssids_json(), Some("[\"HomeNet\",\"Cafe \\\"Wifi\\\"\"]".to_string()));
    let empty = AccessPoints::from_scan(Vec::new());
    assert_eq!(empty.ssids_json(), Some("[]".to_string()));
}
