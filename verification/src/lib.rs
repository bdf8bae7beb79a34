//! Webhook-triggered deployment: authenticating push notifications, admitting
//! build tasks with backpressure, serialising builds per branch, and driving
//! the repository synchronisation and build sequence.

pub mod config;
pub mod hex;
pub mod signature;
pub mod mac;
pub mod http;
pub mod github;
pub mod runner;
pub mod text;
pub mod queue;
pub mod hooks;
pub mod lock_manager;
pub mod notifier;
