//! A worker that leases one home shard from a control plane and serves the app-server embedded in it
//! over a WebSocket.
//!
//! This crate decides; it performs nothing. Each part of the worker's life is a machine: its state
//! or its answer says what is to be done next, and what came of it is handed back as an event.

pub mod app_server;
pub mod bootstrap;
pub mod bridge;
pub mod config;
pub mod control_plane;
pub mod discovery;
pub mod error;
pub mod http_server;
pub mod monitor;
pub mod net;
pub mod rpc;
pub mod run;
pub mod text;
pub mod url;

pub use crate::bootstrap::{bootstrap, WorkerBootstrap};
pub use crate::run::run;
