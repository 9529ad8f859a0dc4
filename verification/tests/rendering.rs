use orbi_helpers::device::AttachedDevices;
use orbi_helpers::device::Device;
use orbi_helpers::error::Error;
use orbi_helpers::paths::resolve_config_path;
use orbi_helpers::pipeline::transform_response;
use orbi_helpers::render::DeviceField;
use orbi_helpers::render::construct_row_from;
use orbi_helpers::render::render_config_dump;
use orbi_helpers::render::render_simple;
use orbi_helpers::render::render_table;

fn sample_device(name: &str, ip: &str, kind: &str, mac: &str) -> Device {
    Device {
        mac: mac.to_string(),
        kind: kind.to_string(),
        model: "RBS50".to_string(),
        name: name.to_string(),
        ip: ip.to_string(),
        connection_type: "wireless".to_string(),
        connected_orbi: "Office".to_string(),
        connected_orbi_mac: "AA:BB:CC:00:11:22".to_string(),
        connection_img: "img".to_string(),
        backhaul_status_style: "good".to_string(),
        backhaul_status: "Good".to_string(),
        category: "client".to_string(),
        status: 1,
        sat_type: 0,
        led_status: 2,
        led_brightness: 100,
        led_sync: 1,
        voice_reg: "no".to_string(),
    }
}

#[test]
fn row_for_name_and_ip_is_exactly_those_values() {
    let device = sample_device("Laptop", "10.0.0.5", "WSTA", "AA:00");
    let row = construct_row_from(&[DeviceField::Name, DeviceField::Ip], &device);
    assert_eq!(row, vec!["Laptop", "10.0.0.5"]);
}

#[test]
fn row_order_follows_field_order() {
    let device = sample_device("Laptop", "10.0.0.5", "WSTA", "AA:00");
    let row = construct_row_from(
        &[DeviceField::Ip, DeviceField::Mac, DeviceField::Orbi, DeviceField::Connection],
        &device,
    );
    assert_eq!(row, vec!["10.0.0.5", "AA:00", "Office", "wireless"]);
}

#[test]
fn field_labels_are_stable() {
    assert_eq!(DeviceField::Mac.label(), "Mac");
    assert_eq!(DeviceField::Kind.label(), "Kind");
    assert_eq!(DeviceField::Model.label(), "Model");
    assert_eq!(DeviceField::Name.label(), "Name");
    assert_eq!(DeviceField::Ip.label(), "Ip");
    assert_eq!(DeviceField::Orbi.label(), "Orbi");
    assert_eq!(DeviceField::Connection.label(), "Connection");
}

#[test]
fn simple_output_is_name_colon_ip_lines() {
    let attached = AttachedDevices {
        satellites: Vec::new(),
        devices: vec![
            sample_device("Laptop", "10.0.0.5", "WSTA", "AA:00"),
            sample_device("Phone", "10.0.0.6", "WSTA", "AA:01"),
        ],
    };
    assert_eq!(render_simple(&attached), "Laptop: 10.0.0.5\nPhone: 10.0.0.6\n");
}

#[test]
fn table_defaults_to_name_ip_connection_kind() {
    let attached = AttachedDevices {
        satellites: Vec::new(),
        devices: vec![sample_device("Laptop", "10.0.0.5", "WSTA", "AA:00")],
    };
    let table = render_table(&attached, &[]);
    for cell in ["Name", "Ip", "Connection", "Kind", "Laptop", "10.0.0.5", "wireless", "WSTA"] {
        assert!(table.contains(cell), "missing {cell} in:\n{table}");
    }
    assert!(!table.contains("AA:00"));
}

#[test]
fn json_accept_returns_decodable_body() {
    let attached = AttachedDevices {
        satellites: Vec::new(),
        devices: vec![sample_device("Laptop", "10.0.0.5", "WSTA", "AA:00")],
    };
    let body = transform_response(&attached, "application", "json").expect("json is satisfiable");
    let decoded =
        orbi_helpers::devicejson::decode_attached_devices(&body).expect("body must decode");
    assert_eq!(decoded, attached);
}

#[test]
fn plain_text_accept_lists_every_display_name() {
    let attached = AttachedDevices {
        satellites: Vec::new(),
        devices: vec![
            sample_device("Laptop", "10.0.0.5", "WSTA", "AA:00"),
            sample_device("Phone", "10.0.0.6", "WSTA", "AA:01"),
        ],
    };
    let body = transform_response(&attached, "text", "plain").expect("plain is satisfiable");
    assert!(body.contains("Laptop"));
    assert!(body.contains("Phone"));
}

#[test]
fn image_accept_is_rejected() {
    let attached = AttachedDevices { satellites: Vec::new(), devices: Vec::new() };
    assert!(transform_response(&attached, "image", "png").is_none());
    assert!(transform_response(&attached, "application", "xml").is_none());
}

#[test]
fn missing_file_resolves_to_missing_error_with_path() {
    let r = resolve_config_path(Some("/home/user/.config/orbi-helper".to_string()), false);
    match r {
        Err(Error::ConfigMissing(p)) => {
            assert_eq!(p, "/home/user/.config/orbi-helper/config.toml");
            let msg = Error::ConfigMissing(p).message();
            assert!(msg.contains("/home/user/.config/orbi-helper/config.toml"));
        },
        other => panic!("expected a missing-file error, got {other:?}"),
    }
}

#[test]
fn unresolved_config_dir_is_its_own_error() {
    assert!(matches!(resolve_config_path(None, true), Err(Error::ConfigPathUnresolved)));
}

#[test]
fn existing_file_resolves_to_its_path() {
    let r = resolve_config_path(Some("/etc/orbi".to_string()), true);
    assert_eq!(r.unwrap(), "/etc/orbi/config.toml");
}

#[test]
fn config_dump_masks_the_password_unless_asked() {
    let mut config = orbi_helpers::config::Config::empty();
    config.set_username("admin");
    config.set_password("secret");
    config.set_override("AA:00".to_string(), "Kitchen".to_string());
    let masked = render_config_dump(&config, false);
    assert_eq!(masked, "username: admin\npassword: ******\noverrides:\n  AA:00 -> Kitchen\n");
    let shown = render_config_dump(&config, true);
    assert_eq!(shown, "username: admin\npassword: secret\noverrides:\n  AA:00 -> Kitchen\n");
}
