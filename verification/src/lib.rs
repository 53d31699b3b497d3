//! Relay of webhook callbacks to chat channels: the payload shapes, the
//! transformation into the destination's message schema and the routing
//! decisions, each with a machine-checked contract.

pub mod adaptive_card;
pub mod buildkite;
pub mod card_json;
pub mod dispatch;
pub mod json;
pub mod registry;
pub mod snitch;
pub mod text;
