//! The Home Assistant side of the bridge: discovery/state message shapes,
//! topic naming, and the MQTT publish-acknowledgement protocol.

pub mod helpers;
pub mod models;
pub mod mqtt;
