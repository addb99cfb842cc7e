//! The MQTT side of one pipeline run: topics, session settings, and the wait for
//! a publish's acknowledgment.

use vstd::prelude::*;
use crate::config::AppConfig;

verus! {

/// Keep-alive interval of a session, in seconds.
pub const KEEP_ALIVE_SECS: u64 = 5;

/// Largest packet a session sends or accepts: room for a full-resolution snapshot.
pub const MAX_PACKET_SIZE: usize = 1000000;

/// `homeassistant/image/{id}/config`: where the discovery document goes.
pub open spec fn config_topic_of(integration_id: Seq<char>) -> Seq<char> {
    "homeassistant/image/"@ + integration_id + "/config"@
}

/// `homeassistant/image/{id}/image`: where the image bytes go.
pub open spec fn image_topic_of(integration_id: Seq<char>) -> Seq<char> {
    "homeassistant/image/"@ + integration_id + "/image"@
}

pub fn config_topic(integration_id: &str) -> (r: String)
    ensures
        r@ == config_topic_of(integration_id@),
{
    let mut topic = String::from_str("homeassistant/image/");
    topic.append(integration_id);
    topic.append("/config");
    topic
}

pub fn image_topic(integration_id: &str) -> (r: String)
    ensures
        r@ == image_topic_of(integration_id@),
{
    let mut topic = String::from_str("homeassistant/image/");
    topic.append(integration_id);
    topic.append("/image");
    topic
}

/// How a broker session is opened.
pub struct MqttSettings {
    pub client_id: String,
    pub host: String,
    pub port: u16,
    pub keep_alive_secs: u64,
    pub max_incoming_packet_size: usize,
    pub max_outgoing_packet_size: usize,
}

/// The settings of a session for `config`: the integration identifier as client
/// id, the configured broker, a 5 s keep-alive and 1,000,000-byte packets both ways.
pub open spec fn settings_for(config: AppConfig, s: MqttSettings) -> bool {
    &&& s.client_id@ == config.integration_id@
    &&& s.host@ == config.mqtt_host@
    &&& s.port == config.mqtt_port
    &&& s.keep_alive_secs == KEEP_ALIVE_SECS
    &&& s.max_incoming_packet_size == MAX_PACKET_SIZE
    &&& s.max_outgoing_packet_size == MAX_PACKET_SIZE
}

impl MqttSettings {
    pub fn for_config(config: &AppConfig) -> (r: MqttSettings)
        ensures
            settings_for(*config, r),
    {
        MqttSettings {
            client_id: config.integration_id.clone(),
            host: config.mqtt_host.clone(),
            port: config.mqtt_port,
            keep_alive_secs: KEEP_ALIVE_SECS,
            max_incoming_packet_size: MAX_PACKET_SIZE,
            max_outgoing_packet_size: MAX_PACKET_SIZE,
        }
    }
}

/// What a session reports while it is driven.
#[derive(Clone, Copy, Debug, PartialEq, Eq, Structural)]
pub enum MqttEvent {
    /// The broker accepted the connection.
    Connected,
    /// A publish left with this packet identifier.
    PublishSent(u16),
    /// The broker acknowledged the publish with this packet identifier.
    PubAck(u16),
    /// Any other traffic.
    Other,
    /// The connection failed or was lost.
    Error,
    /// The session reported nothing within the bound its driver waits.
    Timeout,
}

/// Where a wait for one publish's acknowledgment stands.
#[derive(Clone, Copy, Debug, PartialEq, Eq, Structural)]
pub enum AckWait {
    /// Still waiting; the packet identifier of the publish once it is known.
    Pending(Option<u16>),
    /// The publish was acknowledged.
    Acked,
    /// The connection failed before the acknowledgment came.
    Failed,
    /// The bound on the wait elapsed before the acknowledgment came.
    TimedOut,
}

/// One event of the wait for the acknowledgment of a publish whose packet
/// identifier is `packet` (`None` until the publish has left): the first
/// identifier sent is the one waited for, only its acknowledgment ends the wait,
/// a connection error fails it, the elapsed bound ends it, and everything else
/// is passed over.
pub open spec fn ack_wait_next(packet: Option<u16>, e: MqttEvent) -> AckWait {
    match e {
        MqttEvent::PublishSent(id) => if packet is None {
            AckWait::Pending(Some(id))
        } else {
            AckWait::Pending(packet)
        },
        MqttEvent::PubAck(id) => if packet == Some(id) {
            AckWait::Acked
        } else {
            AckWait::Pending(packet)
        },
        MqttEvent::Error => AckWait::Failed,
        MqttEvent::Timeout => AckWait::TimedOut,
        _ => AckWait::Pending(packet),
    }
}

pub fn wait_for_ack(packet: Option<u16>, e: MqttEvent) -> (r: AckWait)
    ensures
        r == ack_wait_next(packet, e),
{
    match e {
        MqttEvent::PublishSent(id) => match packet {
            None => AckWait::Pending(Some(id)),
            Some(_) => AckWait::Pending(packet),
        },
        MqttEvent::PubAck(id) => match packet {
            Some(p) => if p == id {
                AckWait::Acked
            } else {
                AckWait::Pending(packet)
            },
            None => AckWait::Pending(packet),
        },
        MqttEvent::Error => AckWait::Failed,
        MqttEvent::Timeout => AckWait::TimedOut,
        _ => AckWait::Pending(packet),
    }
}

} // verus!
