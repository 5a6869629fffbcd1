//! Lifecycle of tracked devices: registration to a vehicle, binding to an
//! owner's wallet, and ingestion of telemetry, with the rules that decide
//! which events are accepted.

pub mod error;
pub mod events;
pub mod json;
pub mod kv;
pub mod lifecycle;
pub mod machine;
pub mod payload;
pub mod statement;
pub mod store;
pub mod table;
pub mod text;
