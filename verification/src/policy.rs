//! Run policies: their layers, the knobs shared by every workflow, and the
//! records their outcomes are judged by.
pub mod agent_backend;
pub mod aggregate;
pub mod emit_state;
pub mod golden;
pub mod overlay;
pub mod permission;
pub mod profiles;
pub mod resolve;
pub mod shaping;
pub mod telemetry;
pub mod tier;
