use wifi_connect::device::{select_device, Device, DeviceKind};

fn dev(name: &str, kind: DeviceKind) -> Device {
    Device { interface: name.to_string(), kind }
}

#[test]
fn first_wifi_device_is_chosen_without_interface() {
    let devices = vec![dev("eth0", DeviceKind::Ethernet), dev("wlan0", DeviceKind::WiFi), dev("wlan1", DeviceKind::WiFi)];
    assert_eq!(select_device(&devices, &None), Some(1));
}

#[test]
fn named_interface_is_chosen() {
    let devices = vec![dev("wlan0", DeviceKind::WiFi), dev("wlan1", DeviceKind::WiFi)];
    assert_eq!(select_device(&devices, &Some("wlan1".to_string())), Some(1));
}

#[test]
fn named_interface_must_be_wifi() {
    let devices = vec![dev("eth0", DeviceKind::Ethernet), dev("wlan0", DeviceKind::WiFi)];
    assert_eq!(select_device(&devices, &Some("eth0".to_string())), None);
}

#[test]
fn no_wifi_device_gives_none() {
    let devices = vec![dev("eth0", DeviceKind::Ethernet), dev("lo", DeviceKind::Other)];
    assert_eq!(select_device(&devices, &None), None);
    assert_eq!(select_device(&Vec::new(), &None), None);
}
