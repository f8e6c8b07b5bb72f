//! Backup-run orchestration and collector-side alerting.
//!
//! The drone side of the library plans and sequences a backup run
//! (pre-hook, archive creation, post-hook, reporting), while the
//! collector side classifies incoming reports and dispatches chat
//! alerts through a bounded queue with re-login recovery.

pub mod api_client;
pub mod auth;
pub mod connect;
pub mod create;
pub mod dispatcher;
pub mod drone_config;
pub mod drones;
pub mod handler;
pub mod hooks;
pub mod matrix;
pub mod numfmt;
pub mod orchestrator;
pub mod randgen;
pub mod report;
pub mod vinculum_config;
