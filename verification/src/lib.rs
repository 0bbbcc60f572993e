//! One-shot reporting of a binary sensor trigger over MQTT.
//!
//! The crate holds the rules of a single run: which settings are acceptable,
//! which JSON object a set of settings is reported as, and the order in which
//! a session is opened, the one message is queued, its transmission is awaited
//! and the run ends. Sockets and the command line belong to the caller.

pub mod config;
pub mod failure;
pub mod json;
pub mod payload;
pub mod publisher;
pub mod runner;
pub mod session;
