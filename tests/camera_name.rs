use reolink_mailpit::mailpit::{Attachment, MessageDetails};

fn details(text: &str) -> MessageDetails {
    MessageDetails { text: text.to_string(), attachments: Vec::<Attachment>::new() }
}

#[test]
fn camera_name_is_trimmed_field_after_marker() {
    let d = details("Alarm Event: Motion\nAlarm Camera Name:  Driveway \nAlarm Time: 12:00");
    assert_eq!(d.get_camera_name(), Some("Driveway".to_string()));
}

#[test]
fn camera_name_on_first_line() {
    let d = details("Alarm Camera Name: Front Door");
    assert_eq!(d.get_camera_name(), Some("Front Door".to_string()));
}

#[test]
fn camera_name_missing_marker_fails() {
    assert_eq!(details("Alarm Event: Motion\nAlarm Time: 12:00").get_camera_name(), None);
    assert_eq!(details("").get_camera_name(), None);
}

#[test]
fn camera_name_marker_must_start_a_line() {
    let d = details("Note: Alarm Camera Name: Hidden\nother");
    assert_eq!(d.get_camera_name(), None);
}

#[test]
fn camera_name_first_marker_line_wins() {
    let d = details("Alarm Camera Name: One\nAlarm Camera Name: Two\n");
    assert_eq!(d.get_camera_name(), Some("One".to_string()));
}

#[test]
fn camera_name_stops_at_next_colon() {
    let d = details("Alarm Camera Name: Gate:2\n");
    assert_eq!(d.get_camera_name(), Some("Gate".to_string()));
}

#[test]
fn camera_name_with_crlf_line_endings() {
    let d = details("Subject: x\r\nAlarm Camera Name:\tBack Yard\r\nAlarm Time: now\r\n");
    assert_eq!(d.get_camera_name(), Some("Back Yard".to_string()));
}

#[test]
fn camera_name_may_be_empty() {
    let d = details("Alarm Camera Name:   \nrest");
    assert_eq!(d.get_camera_name(), Some(String::new()));
}

#[test]
fn camera_name_keeps_non_ascii_text() {
    let d = details("Alarm Camera Name: \u{3000}Garage Ü\u{00a0}\n");
    assert_eq!(d.get_camera_name(), Some("Garage Ü".to_string()));
}
