//! Bridges a real-time racing-telemetry feed to an MQTT broker through a
//! self-describing discovery protocol, so that a home-automation hub can
//! register sensors without manual configuration.
//!
//! The verified core covers: resolving a telemetry field name to its dotted
//! path inside the nested session schema document, building discovery
//! descriptors for sensors, the session-scoped state machine that decides
//! when descriptors are (re-)announced, and flattening runtime value batches
//! into sparse key/value documents.

pub mod config;
pub mod descriptor;
pub mod payload;
pub mod pipeline;
pub mod publisher;
pub mod schema;
pub mod text;
