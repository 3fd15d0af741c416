//! Ferrium: the verified core of a distributed key-value store replicated
//! with Raft.
pub mod config;
pub mod raft;
pub mod text;
pub mod kv_map;
pub mod storage;
pub mod tls;
pub mod network;
pub mod client;
pub mod cli;
pub mod services;
pub mod logging;
