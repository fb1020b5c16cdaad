//! Core of a per-monitor status bar for a layer-shell compositor: the
//! workspace-state synchronization logic, the clock text model, the
//! compositor control-socket protocol strings, and the per-monitor
//! widget registry.

pub mod client;
pub mod clock;
pub mod errors;
pub mod manager;
pub mod text;
pub mod window;
pub mod workspaces;
