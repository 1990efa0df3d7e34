//! Live reachability and latency monitoring of HTTP endpoints: the probe
//! outcome model, the per-endpoint prober state machine, the aggregated
//! state store and the action router.

pub mod actions;
pub mod backend;
pub mod config;
pub mod keymap;
pub mod state;
pub mod theme;
