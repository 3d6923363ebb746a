//! Lifecycle and coordination core of a single-instance desktop application host.

pub mod args;
pub mod channel;
pub mod endpoint;
pub mod invariants;
pub mod lifecycle;
pub mod names;
pub mod poller;
pub mod shutdown;
pub mod tray;
pub mod window;
pub mod wire;
