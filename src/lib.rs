//! Session registry and command routing for a horizontally scaled
//! real-time gateway.
//!
//! Each gateway instance runs one registry (identity and token
//! bookkeeping), one command worker (the local connection id to outbound
//! channel map) and one heartbeat-driven session per live connection. All
//! decisions are verified state transitions; the surrounding program feeds
//! them events and carries out the actions they return.

pub mod error;
pub mod text;
pub mod bindings;
pub mod event;
pub mod rooms;
pub mod server;
pub mod stream;
pub mod command_worker;
pub mod network;
