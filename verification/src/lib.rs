//! A bridge from a transit-card vendor's fare products to Home Assistant
//! MQTT discovery and state messages.
//!
//! The library holds the verified logic: normalizing raw vendor product
//! records into a closed product model, deriving MQTT topic names and sensor
//! identifiers, encoding discovery and state payloads, and the fixed
//! two-drain publish-acknowledgement protocol. Network I/O (the vendor HTTP
//! API and the MQTT session) lives outside the library and hands it plain
//! values.

pub mod config;
pub mod date;
pub mod fara;
pub mod homeassistant;
pub mod models;
pub mod render;
