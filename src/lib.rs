//! Bridges mail-service webhook notifications to an MQTT home-automation bus:
//! the decisions of the notification-to-publish pipeline, with their contracts.

pub mod config;
pub mod homeassistant;
pub mod mailpit;
pub mod pipeline;
pub mod sensor;
