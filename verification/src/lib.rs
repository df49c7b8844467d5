//! Connection, heartbeat, retry and file-transfer logic of an SSH client,
//! with contracts checked by Verus.
pub mod bignum;
pub mod clock;
pub mod models;
pub mod network_monitor;
pub mod reconnect;
pub mod text;
pub mod transfer;
pub mod error_classifier;
pub mod health_check;
pub mod heartbeat;
pub mod timeouts;
pub mod connection;
pub mod utils;
pub mod file_ops;
pub mod session_worker;
pub mod db;
pub mod client;
