//! Small helpers for JSON field access, IP geolocation replies, MQTT events,
//! random identifiers and outbound HTTP requests.

pub mod error;
pub mod float;
pub mod http;
pub mod json;
pub mod ip;
pub mod mqttv5;
pub mod random;
pub mod text;
