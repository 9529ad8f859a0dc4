use orbi_helpers::config::Config;
use orbi_helpers::device::AttachedDevices;
use orbi_helpers::device::Device;
use orbi_helpers::error::Error;
use orbi_helpers::overrides::resolve_overrides;

fn sample_device(name: &str, ip: &str, kind: &str, mac: &str) -> Device {
    Device {
        mac: mac.to_string(),
        kind: kind.to_string(),
        model: "RBS50".to_string(),
        name: name.to_string(),
        ip: ip.to_string(),
        connection_type: "wireless".to_string(),
        connected_orbi: "Office".to_string(),
        connected_orbi_mac: "AA:BB:CC:00:11:22".to_string(),
        connection_img: "img".to_string(),
        backhaul_status_style: "good".to_string(),
        backhaul_status: "Good".to_string(),
        category: "client".to_string(),
        status: 1,
        sat_type: 0,
        led_status: 2,
        led_brightness: 100,
        led_sync: 1,
        voice_reg: "no".to_string(),
    }
}

fn wrap(devices: Vec<Device>) -> AttachedDevices {
    AttachedDevices { satellites: Vec::new(), devices }
}

#[test]
fn mac_override_rewrites_name() {
    let mut config = Config::empty();
    config.set_override("AA:00".to_string(), "Kitchen Laptop".to_string());
    let mut response = wrap(vec![sample_device("old name", "10.0.0.5", "WSTA", "AA:00")]);
    resolve_overrides(&mut response, &config);
    assert_eq!(response.devices[0].name, "Kitchen Laptop");
}

#[test]
fn mac_override_wins_over_name_override() {
    let mut config = Config::empty();
    config.set_override("AA:00".to_string(), "by mac".to_string());
    config.set_override("Laptop".to_string(), "by name".to_string());
    let mut response = wrap(vec![sample_device("Laptop", "10.0.0.5", "WSTA", "AA:00")]);
    resolve_overrides(&mut response, &config);
    assert_eq!(response.devices[0].name, "by mac");
}

#[test]
fn name_override_applies_without_mac_match() {
    let mut config = Config::empty();
    config.set_override("Laptop".to_string(), "renamed".to_string());
    let mut response = wrap(vec![sample_device("Laptop", "10.0.0.5", "WSTA", "AA:00")]);
    resolve_overrides(&mut response, &config);
    assert_eq!(response.devices[0].name, "renamed");
}

#[test]
fn unmatched_device_keeps_its_name() {
    let mut config = Config::empty();
    config.set_override("BB:11".to_string(), "other".to_string());
    let mut response = wrap(vec![sample_device("Laptop", "10.0.0.5", "WSTA", "AA:00")]);
    resolve_overrides(&mut response, &config);
    assert_eq!(response.devices[0].name, "Laptop");
}

#[test]
fn satellites_are_not_renamed() {
    let mut config = Config::empty();
    config.set_override("AA:00".to_string(), "renamed".to_string());
    let mut response = AttachedDevices {
        satellites: vec![sample_device("Office", "10.0.0.2", "SAT", "AA:00")],
        devices: Vec::new(),
    };
    resolve_overrides(&mut response, &config);
    assert_eq!(response.satellites[0].name, "Office");
}

#[test]
fn set_and_clear_override_round_trip() {
    let mut config = Config::empty();
    config.set_override("k".to_string(), "v1".to_string());
    config.set_override("k".to_string(), "v2".to_string());
    assert_eq!(config.device_name_overrides.len(), 1);
    assert_eq!(config.lookup_override(&"k".to_string()), Some(&"v2".to_string()));
    config.clear_override(&"k".to_string());
    assert_eq!(config.lookup_override(&"k".to_string()), None);
    assert!(config.device_name_overrides.is_empty());
}

#[test]
fn credentials_setters_change_only_their_field() {
    let mut config = Config::empty();
    config.set_username("admin");
    config.set_password("hunter2");
    assert_eq!(config.username, "admin");
    assert_eq!(config.password, "hunter2");
    assert!(config.device_name_overrides.is_empty());
}

#[test]
fn missing_config_error_message_names_path() {
    let err = Error::ConfigMissing("/tmp/orbi/config.toml".to_string());
    let msg = err.message();
    assert!(msg.contains("/tmp/orbi/config.toml"));
}
