use reolink_mailpit::config::AppConfig;
use reolink_mailpit::homeassistant::{frame_config_json, ConfigMessage};

fn config() -> AppConfig {
    AppConfig::new("http://mail".to_string(), "broker".to_string(), 1883)
}

#[test]
fn discovery_identity_is_camera_name() {
    let m = ConfigMessage::for_camera("Front Door", &config());
    assert_eq!(m.name, "Front Door");
    assert_eq!(m.unique_id, "Front Door");
    assert_eq!(m.object_id, "Front Door");
    assert_eq!(m.image_topic, "homeassistant/image/reolink-mailpit/image");
    assert_eq!(m.device.identifiers, vec!["reolink-mailpit".to_string()]);
    assert_eq!(m.device.name, "Reolink Mailpit");
}

#[test]
fn discovery_document_json() {
    let json = ConfigMessage::for_camera("Front Door", &config()).to_json();
    assert_eq!(
        json,
        "{\"name\":\"Front Door\",\"unique_id\":\"Front Door\",\"object_id\":\"Front Door\",\
         \"image_topic\":\"homeassistant/image/reolink-mailpit/image\",\
         \"device\":{\"identifiers\":[\"reolink-mailpit\"],\"name\":\"Reolink Mailpit\"}}"
    );
}

#[test]
fn discovery_document_escapes_text() {
    let json = ConfigMessage::for_camera("Say \"hi\"\\", &config()).to_json();
    assert!(json.starts_with("{\"name\":\"Say \\\"hi\\\"\\\\\",\"unique_id\":\"Say \\\"hi\\\"\\\\\","));
}

#[test]
fn discovery_document_matches_serde_json_value() {
    let json = ConfigMessage::for_camera("Drive\nway", &config()).to_json();
    let v: serde_json::Value = serde_json::from_str(&json).unwrap();
    assert_eq!(v["name"], "Drive\nway");
    assert_eq!(v["unique_id"], "Drive\nway");
    assert_eq!(v["object_id"], "Drive\nway");
    assert_eq!(v["device"]["identifiers"][0], "reolink-mailpit");
}

#[test]
fn framing_joins_identifiers() {
    let ids = vec!["\"a\"".to_string(), "\"b\"".to_string()];
    let json = frame_config_json("1", "2", "3", "4", &ids, "5");
    assert_eq!(
        json,
        "{\"name\":1,\"unique_id\":2,\"object_id\":3,\"image_topic\":4,\
         \"device\":{\"identifiers\":[\"a\",\"b\"],\"name\":5}}"
    );
    let json = frame_config_json("1", "2", "3", "4", &Vec::new(), "5");
    assert!(json.contains("\"identifiers\":[],"));
}

#[test]
fn discovery_document_escapes_control_characters() {
    let json = ConfigMessage::for_camera("a\tb\u{1}c\u{1f}\u{7f}é", &config()).to_json();
    assert!(json.starts_with("{\"name\":\"a\\tb\\u0001c\\u001f\u{7f}é\","));
}
