use orbi_helpers::conffile::parse_config;
use orbi_helpers::conffile::serialize_config;
use orbi_helpers::config::Config;
use orbi_helpers::device::AttachedDevices;
use orbi_helpers::device::Device;
use orbi_helpers::devicejson::decode_attached_devices;
use orbi_helpers::devicejson::encode_attached_devices;
use orbi_helpers::error::Error;

fn sample_device(name: &str, ip: &str, kind: &str, mac: &str) -> Device {
    Device {
        mac: mac.to_string(),
        kind: kind.to_string(),
        model: "RBS50".to_string(),
        name: name.to_string(),
        ip: ip.to_string(),
        connection_type: "wireless".to_string(),
        connected_orbi: "Office".to_string(),
        connected_orbi_mac: "AA:BB:CC:00:11:22".to_string(),
        connection_img: "img".to_string(),
        backhaul_status_style: "good".to_string(),
        backhaul_status: "Good".to_string(),
        category: "client".to_string(),
        status: 1,
        sat_type: 0,
        led_status: 2,
        led_brightness: 100,
        led_sync: 1,
        voice_reg: "no".to_string(),
    }
}

#[test]
fn config_save_then_load_is_identity() {
    let mut config = Config::empty();
    config.set_username("admin");
    config.set_password("pa ss\"word\\with\nodd\tchars");
    config.set_override("AA:BB".to_string(), "Kitchen".to_string());
    config.set_override("Old \"Name\"".to_string(), "New\nName".to_string());
    let text = serialize_config(&config);
    let loaded = parse_config(&text).expect("canonical text must parse");
    assert_eq!(loaded, config);
}

#[test]
fn serialized_config_is_toml_the_toml_crate_accepts() {
    let mut config = Config::empty();
    config.set_username("admin");
    config.set_password("secret");
    config.set_override("AA:BB".to_string(), "Kitchen".to_string());
    let text = serialize_config(&config);
    let value: toml::Table = text.parse().expect("valid TOML");
    assert_eq!(value["username"].as_str(), Some("admin"));
    assert_eq!(value["password"].as_str(), Some("secret"));
    assert_eq!(value["device_name_overrides"]["AA:BB"].as_str(), Some("Kitchen"));
}

#[test]
fn malformed_config_is_a_parse_error() {
    assert!(matches!(parse_config("not a config"), Err(Error::ConfigParseError)));
    assert!(matches!(parse_config("username = \"open"), Err(Error::ConfigParseError)));
    assert!(matches!(parse_config(""), Err(Error::ConfigParseError)));
}

#[test]
fn config_with_duplicate_override_keys_is_rejected() {
    let text = "username = \"u\"\npassword = \"p\"\n[device_name_overrides]\n\"k\" = \"a\"\n\"k\" = \"b\"\n";
    assert!(matches!(parse_config(text), Err(Error::ConfigParseError)));
}

#[test]
fn json_encode_then_decode_is_identity() {
    let attached = AttachedDevices {
        satellites: vec![sample_device("Office", "10.0.0.2", "SAT", "CC:DD")],
        devices: vec![
            sample_device("Laptop", "10.0.0.5", "WSTA", "AA:00"),
            sample_device("Phone \"mine\"\\", "10.0.0.6", "WSTA", "AA:01"),
        ],
    };
    let body = encode_attached_devices(&attached);
    let decoded = decode_attached_devices(&body).expect("canonical body must decode");
    assert_eq!(decoded, attached);
}

#[test]
fn encoded_json_is_json_the_serde_crate_accepts() {
    let attached = AttachedDevices {
        satellites: Vec::new(),
        devices: vec![sample_device("Laptop", "10.0.0.5", "WSTA", "AA:00")],
    };
    let body = encode_attached_devices(&attached);
    let value: serde_json::Value = serde_json::from_str(&body).expect("valid JSON");
    assert_eq!(value["devices"][0]["name"].as_str(), Some("Laptop"));
    assert_eq!(value["devices"][0]["ip"].as_str(), Some("10.0.0.5"));
    assert_eq!(value["devices"][0]["type"].as_str(), Some("WSTA"));
    assert_eq!(value["devices"][0]["ledBrightness"].as_u64(), Some(100));
    assert_eq!(value["satellites"].as_array().map(|a| a.len()), Some(0));
}

#[test]
fn decode_accepts_historical_spellings_and_extras() {
    let body = "{ \"firmware\": \"V2.5\", \"satellites\": [],\n \"devices\": [ {\n  \"mac\": \"AA:00\", \"type\": \"WSTA\", \"model\": \"M\", \"name\": \"Laptop\",\n  \"ip\": \"10.0.0.5\", \"connectionType\": \"wireless\",\n  \"ConnectedOrbi\": \"Office\", \"ConnectedOrbiMAC\": \"CC:DD\",\n  \"connectionImg\": \"i\", \"backhaulStatusStyle\": \"s\",\n  \"backhaulStatus\": \"Good\", \"category\": \"c\", \"status\": 1,\n  \"sat_type\": 2, \"led_status\": 3, \"led_brightness\": 4,\n  \"led_sync\": 5, \"voice_reg\": \"no\", \"unknownExtra\": true } ] }";
    let decoded = decode_attached_devices(body).expect("aliased body must decode");
    let d = &decoded.devices[0];
    assert_eq!(d.name, "Laptop");
    assert_eq!(d.kind, "WSTA");
    assert_eq!(d.connected_orbi, "Office");
    assert_eq!(d.connected_orbi_mac, "CC:DD");
    assert_eq!(d.sat_type, 2);
    assert_eq!(d.led_sync, 5);
}

#[test]
fn decode_rejects_malformed_bodies() {
    assert!(matches!(decode_attached_devices("not json"), Err(Error::ResponseParseError)));
    assert!(matches!(decode_attached_devices("{}"), Err(Error::ResponseParseError)));
    assert!(matches!(
        decode_attached_devices("{\"satellites\": [], \"devices\": [ {\"mac\": \"AA\"} ]}"),
        Err(Error::ResponseParseError)
    ));
    assert!(matches!(
        decode_attached_devices("{\"satellites\": [], \"devices\": [}"),
        Err(Error::ResponseParseError)
    ));
}

#[test]
fn decode_ignores_unknown_members_of_any_shape() {
    let body = "{\"firmware\": {\"version\": \"V2.5\", \"build\": [1, 2]},\n \"uptime\": 99999999999, \"drift\": -3.5e2, \"tags\": [\"a\", null],\n \"satellites\": [], \"devices\": []}";
    let decoded = decode_attached_devices(body).expect("unknown members are ignored");
    assert!(decoded.devices.is_empty());
    assert!(decoded.satellites.is_empty());
}

#[test]
fn decode_accepts_the_full_json_escape_set() {
    let body = "{\"satellites\": [], \"devices\": [], \"note\": \"caf\\u00e9 \\/ \\b\\f\"}";
    assert!(decode_attached_devices(body).is_ok());
    let named = "{ \"satellites\": [], \"devices\": [ {\n  \"mac\": \"AA:00\", \"type\": \"WSTA\", \"model\": \"M\", \"name\": \"caf\\u00e9\",\n  \"ip\": \"10.0.0.5\", \"connectionType\": \"w\", \"connectedOrbi\": \"O\",\n  \"connectedOrbiMac\": \"C\", \"connectionImg\": \"i\", \"backhaulStatusStyle\": \"s\",\n  \"backhaulStatus\": \"G\", \"category\": \"c\", \"status\": 1, \"satType\": 2,\n  \"ledStatus\": 3, \"ledBrightness\": 4, \"ledSync\": 5, \"voiceReg\": \"no\" } ] }";
    let decoded = decode_attached_devices(named).expect("unicode escapes decode");
    assert_eq!(decoded.devices[0].name, "caf\u{e9}");
}

#[test]
fn known_field_of_the_wrong_shape_is_rejected() {
    // the original's decoder errors when a modeled field has the wrong type
    let body = "{\"satellites\": [], \"devices\": [ {\n  \"mac\": {\"oui\": \"AA\"}, \"type\": \"WSTA\", \"model\": \"M\", \"name\": \"L\",\n  \"ip\": \"i\", \"connectionType\": \"w\", \"connectedOrbi\": \"O\",\n  \"connectedOrbiMac\": \"C\", \"connectionImg\": \"i\", \"backhaulStatusStyle\": \"s\",\n  \"backhaulStatus\": \"G\", \"category\": \"c\", \"status\": 1, \"satType\": 2,\n  \"ledStatus\": 3, \"ledBrightness\": 4, \"ledSync\": 5, \"voiceReg\": \"no\" } ] }";
    assert!(matches!(decode_attached_devices(body), Err(Error::ResponseParseError)));
}

#[test]
fn control_characters_survive_both_codecs() {
    let mut config = Config::empty();
    config.set_password("a\u{1}b\u{8}c\u{c}d");
    let text = serialize_config(&config);
    assert_eq!(parse_config(&text).expect("parses").password, "a\u{1}b\u{8}c\u{c}d");
    let value: toml::Table = text.parse().expect("valid TOML");
    assert_eq!(value["password"].as_str(), Some("a\u{1}b\u{8}c\u{c}d"));
    let mut d = sample_device("n\u{0}l", "10.0.0.5", "WSTA", "AA:00");
    d.name = "bell\u{7}".to_string();
    let attached = AttachedDevices { satellites: Vec::new(), devices: vec![d] };
    let body = encode_attached_devices(&attached);
    let json: serde_json::Value = serde_json::from_str(&body).expect("valid JSON");
    assert_eq!(json["devices"][0]["name"].as_str(), Some("bell\u{7}"));
    assert_eq!(decode_attached_devices(&body).expect("decodes"), attached);
}

#[test]
fn decode_accepts_empty_lists() {
    let decoded = decode_attached_devices("{\"satellites\":[],\"devices\":[]}").expect("decodes");
    assert!(decoded.satellites.is_empty());
    assert!(decoded.devices.is_empty());
    let spaced = decode_attached_devices(" {\n \"satellites\" : [ ] , \"devices\" : [ ] }\n")
        .expect("blanks are tolerated");
    assert!(spaced.devices.is_empty());
}

#[test]
fn numeric_fields_cover_the_whole_range() {
    let mut d = sample_device("Laptop", "10.0.0.5", "WSTA", "AA:00");
    d.status = u32::MAX;
    d.led_brightness = 0;
    let attached = AttachedDevices { satellites: Vec::new(), devices: vec![d] };
    let body = encode_attached_devices(&attached);
    assert!(body.contains("4294967295"));
    let decoded = decode_attached_devices(&body).expect("decodes");
    assert_eq!(decoded, attached);
    let too_big = body.replace("4294967295", "4294967296");
    assert!(matches!(decode_attached_devices(&too_big), Err(Error::ResponseParseError)));
}

#[test]
fn every_error_has_a_message() {
    for e in [
        Error::ConfigPathUnresolved,
        Error::ConfigMissing("/x".to_string()),
        Error::ConfigParseError,
        Error::ConfigWriteError,
        Error::NetworkError,
        Error::ResponseParseError,
    ] {
        assert!(!e.message().is_empty());
    }
}

#[test]
fn config_written_by_the_toml_crate_parses() {
    // toml's pretty printer writes a blank line before the table and leaves
    // simple keys bare
    let text = "username = \"admin\"\npassword = \"secret\"\n\n[device_name_overrides]\nLaptop = \"Kitchen\"\n\"AA:BB\" = \"Desk\"\n";
    let config = parse_config(text).expect("pretty-printed TOML parses");
    assert_eq!(config.username, "admin");
    assert_eq!(config.lookup_override(&"Laptop".to_string()), Some(&"Kitchen".to_string()));
    assert_eq!(config.lookup_override(&"AA:BB".to_string()), Some(&"Desk".to_string()));
}
