use reolink_mailpit::config::AppConfig;
use reolink_mailpit::mailpit::{Attachment, EmailUser, MessageDetails, WebhookMessage};
use reolink_mailpit::pipeline::{Action, Event, Pipeline, PipelineError, RetrievalError, Stage};
use reolink_mailpit::sensor::{wait_for_ack, AckWait, MqttEvent};

fn config() -> AppConfig {
    AppConfig::new("http://mail".to_string(), "broker".to_string(), 1883)
}

fn webhook(id: &str) -> WebhookMessage {
    let nobody = || EmailUser { name: String::new(), address: String::new() };
    WebhookMessage {
        id: id.to_string(),
        message_id: String::new(),
        read: false,
        from: nobody(),
        to: Vec::new(),
        subject: String::new(),
        created: String::new(),
        size: 0,
        attachments: 0,
        snippet: String::new(),
    }
}

fn attachment(part_id: &str) -> Attachment {
    Attachment {
        content_type: "image/jpeg".to_string(),
        file_name: "snap.jpg".to_string(),
        part_id: part_id.to_string(),
        size: 3,
    }
}

fn details(text: &str, attachments: Vec<Attachment>) -> MessageDetails {
    MessageDetails { text: text.to_string(), attachments }
}

fn url_of(a: &Action) -> String {
    match a {
        Action::FetchDetails { url } | Action::FetchPart { url } => url.clone(),
        _ => panic!("not a fetch"),
    }
}

fn failure(p: &Pipeline) -> Option<PipelineError> {
    match p.stage {
        Stage::Failed(e) => Some(e),
        _ => None,
    }
}

/// Runs a pipeline up to the publish of the discovery document.
fn up_to_config_publish(c: &AppConfig) -> (Pipeline, Action) {
    let (mut p, _) = Pipeline::for_webhook(c, &webhook("msg-1"));
    p.step(c, Event::DetailsFetched(details("Alarm Camera Name: Front Door", vec![attachment("p1")])));
    p.step(c, Event::PartFetched(vec![1, 2, 3]));
    let a = p.step(c, Event::Mqtt(MqttEvent::Connected));
    (p, a)
}

#[test]
fn end_to_end_two_fetches_two_publishes_ok() {
    let c = config();
    let mut gets = Vec::new();
    let mut publishes = Vec::new();
    let (mut p, mut a) = Pipeline::for_webhook(&c, &webhook("msg-1"));
    let mut acks: u16 = 0;
    let status = loop {
        let event = match &a {
            Action::FetchDetails { url } => {
                gets.push(url.clone());
                Event::DetailsFetched(details(
                    "Alarm Event: Motion\nAlarm Camera Name: Front Door\n",
                    vec![attachment("p1")],
                ))
            }
            Action::FetchPart { url } => {
                gets.push(url.clone());
                Event::PartFetched(vec![0xff, 0xd8, 0xff])
            }
            Action::Connect { settings } => {
                assert_eq!(settings.client_id, "reolink-mailpit");
                Event::Mqtt(MqttEvent::Connected)
            }
            Action::PublishConfig { topic, document } => {
                publishes.push((topic.clone(), document.clone().into_bytes()));
                acks += 1;
                Event::Mqtt(MqttEvent::PublishSent(acks))
            }
            Action::PublishImage { topic, data } => {
                publishes.push((topic.clone(), data.clone()));
                acks += 1;
                Event::Mqtt(MqttEvent::PublishSent(acks))
            }
            Action::Poll => Event::Mqtt(MqttEvent::PubAck(acks)),
            Action::Respond { status } => break *status,
        };
        a = p.step(&c, event);
    };
    assert_eq!(status, 200);
    assert_eq!(
        gets,
        vec![
            "http://mail/api/v1/message/msg-1".to_string(),
            "http://mail/api/v1/message/msg-1/part/p1".to_string()
        ]
    );
    assert_eq!(publishes.len(), 2);
    assert_eq!(publishes[0].0, "homeassistant/image/reolink-mailpit/config");
    let doc: serde_json::Value = serde_json::from_slice(&publishes[0].1).unwrap();
    assert_eq!(doc["name"], "Front Door");
    assert_eq!(doc["unique_id"], "Front Door");
    assert_eq!(doc["object_id"], "Front Door");
    assert_eq!(publishes[1].0, "homeassistant/image/reolink-mailpit/image");
    assert_eq!(publishes[1].1, vec![0xff, 0xd8, 0xff]);
    assert!(matches!(p.stage, Stage::Done));
}

#[test]
fn broker_never_acknowledging_config_fails_without_image() {
    let c = config();
    let (mut p, a) = up_to_config_publish(&c);
    assert!(matches!(a, Action::PublishConfig { .. }));
    let events = [MqttEvent::PublishSent(1), MqttEvent::Other, MqttEvent::PubAck(9), MqttEvent::Other];
    for e in events {
        let a = p.step(&c, Event::Mqtt(e));
        assert!(matches!(a, Action::Poll));
    }
    let a = p.step(&c, Event::Mqtt(MqttEvent::Error));
    assert!(matches!(a, Action::Respond { status: 502 }));
    assert_eq!(failure(&p), Some(PipelineError::Publish));
    let a = p.step(&c, Event::Mqtt(MqttEvent::PubAck(1)));
    assert!(matches!(a, Action::Respond { status: 502 }));
}

#[test]
fn image_published_only_after_config_ack() {
    let c = config();
    let (mut p, _) = up_to_config_publish(&c);
    assert!(matches!(p.step(&c, Event::Mqtt(MqttEvent::PublishSent(7))), Action::Poll));
    assert!(matches!(p.step(&c, Event::Mqtt(MqttEvent::PublishSent(8))), Action::Poll));
    assert!(matches!(p.step(&c, Event::Mqtt(MqttEvent::PubAck(8))), Action::Poll));
    match p.step(&c, Event::Mqtt(MqttEvent::PubAck(7))) {
        Action::PublishImage { topic, data } => {
            assert_eq!(topic, "homeassistant/image/reolink-mailpit/image");
            assert_eq!(data, vec![1, 2, 3]);
        }
        _ => panic!("expected the image publish"),
    }
}

#[test]
fn empty_attachment_list_fails_without_part_fetch() {
    let c = config();
    let (mut p, a) = Pipeline::start(&c, "msg-1".to_string());
    assert_eq!(url_of(&a), "http://mail/api/v1/message/msg-1");
    let a = p.step(&c, Event::DetailsFetched(details("Alarm Camera Name: X", Vec::new())));
    assert!(matches!(a, Action::Respond { status: 502 }));
    assert_eq!(failure(&p), Some(PipelineError::Retrieval(RetrievalError::MissingAttachment)));
}

#[test]
fn missing_camera_name_fails_without_part_fetch() {
    let c = config();
    let (mut p, _) = Pipeline::start(&c, "msg-1".to_string());
    let a = p.step(&c, Event::DetailsFetched(details("no marker here", vec![attachment("p1")])));
    assert!(matches!(a, Action::Respond { status: 502 }));
    assert_eq!(failure(&p), Some(PipelineError::Retrieval(RetrievalError::MissingCameraName)));
}

#[test]
fn first_attachment_is_fetched() {
    let c = config();
    let (mut p, _) = Pipeline::start(&c, "m".to_string());
    let a = p.step(
        &c,
        Event::DetailsFetched(details("Alarm Camera Name: A", vec![attachment("first"), attachment("second")])),
    );
    assert_eq!(url_of(&a), "http://mail/api/v1/message/m/part/first");
    assert!(matches!(&p.stage, Stage::AwaitingPart { camera_name } if camera_name == "A"));
}

#[test]
fn fetch_failures_fail_the_run() {
    let c = config();
    let (mut p, _) = Pipeline::start(&c, "m".to_string());
    assert!(matches!(p.step(&c, Event::FetchFailed), Action::Respond { status: 502 }));
    assert_eq!(failure(&p), Some(PipelineError::Retrieval(RetrievalError::Transport)));

    let (mut p, _) = Pipeline::start(&c, "m".to_string());
    p.step(&c, Event::DetailsFetched(details("Alarm Camera Name: A", vec![attachment("p")])));
    assert!(matches!(p.step(&c, Event::FetchFailed), Action::Respond { status: 502 }));
    assert_eq!(failure(&p), Some(PipelineError::Retrieval(RetrievalError::Transport)));
}

#[test]
fn connect_failure_fails_the_run() {
    let c = config();
    let (mut p, _) = Pipeline::start(&c, "m".to_string());
    p.step(&c, Event::DetailsFetched(details("Alarm Camera Name: A", vec![attachment("p")])));
    assert!(matches!(p.step(&c, Event::PartFetched(vec![1])), Action::Connect { .. }));
    assert!(matches!(p.step(&c, Event::Mqtt(MqttEvent::Other)), Action::Poll));
    assert!(matches!(p.step(&c, Event::Mqtt(MqttEvent::Error)), Action::Respond { status: 502 }));
    assert_eq!(failure(&p), Some(PipelineError::Connect));
}

#[test]
fn image_publish_failure_fails_the_run() {
    let c = config();
    let (mut p, _) = up_to_config_publish(&c);
    p.step(&c, Event::Mqtt(MqttEvent::PublishSent(1)));
    assert!(matches!(p.step(&c, Event::Mqtt(MqttEvent::PubAck(1))), Action::PublishImage { .. }));
    assert!(matches!(p.step(&c, Event::Mqtt(MqttEvent::Error)), Action::Respond { status: 502 }));
    assert_eq!(failure(&p), Some(PipelineError::Publish));
}

#[test]
fn unexpected_event_fails_the_run() {
    let c = config();
    let (mut p, _) = Pipeline::start(&c, "m".to_string());
    assert!(matches!(p.step(&c, Event::Mqtt(MqttEvent::Connected)), Action::Respond { status: 502 }));
    assert_eq!(failure(&p), Some(PipelineError::UnexpectedEvent));
}

#[test]
fn ack_wait_matches_packet_identifier() {
    assert_eq!(wait_for_ack(None, MqttEvent::PublishSent(4)), AckWait::Pending(Some(4)));
    assert_eq!(wait_for_ack(Some(4), MqttEvent::PublishSent(5)), AckWait::Pending(Some(4)));
    assert_eq!(wait_for_ack(Some(4), MqttEvent::PubAck(5)), AckWait::Pending(Some(4)));
    assert_eq!(wait_for_ack(None, MqttEvent::PubAck(4)), AckWait::Pending(None));
    assert_eq!(wait_for_ack(Some(4), MqttEvent::PubAck(4)), AckWait::Acked);
    assert_eq!(wait_for_ack(Some(4), MqttEvent::Other), AckWait::Pending(Some(4)));
    assert_eq!(wait_for_ack(None, MqttEvent::Error), AckWait::Failed);
    assert_eq!(wait_for_ack(Some(4), MqttEvent::Timeout), AckWait::TimedOut);
}

#[test]
fn config_ack_timeout_is_its_own_failure() {
    let c = config();
    let (mut p, _) = up_to_config_publish(&c);
    assert!(matches!(p.step(&c, Event::Mqtt(MqttEvent::PublishSent(1))), Action::Poll));
    assert!(matches!(p.step(&c, Event::Mqtt(MqttEvent::Timeout)), Action::Respond { status: 502 }));
    assert_eq!(failure(&p), Some(PipelineError::AckTimeout));
}

#[test]
fn connect_timeout_fails_the_run() {
    let c = config();
    let (mut p, _) = Pipeline::start(&c, "m".to_string());
    p.step(&c, Event::DetailsFetched(details("Alarm Camera Name: A", vec![attachment("p")])));
    p.step(&c, Event::PartFetched(vec![1]));
    assert!(matches!(p.step(&c, Event::Mqtt(MqttEvent::Timeout)), Action::Respond { status: 502 }));
    assert_eq!(failure(&p), Some(PipelineError::Connect));
}
