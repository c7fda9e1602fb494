//! Streaming client core for the MySQL/MariaDB binary log replication protocol.
//!
//! The library frames packets, decodes binlog events, runs the session set-up
//! decisions and tracks the replication position that a consumer commits.
//! Network transport is left to the caller: every function here works on
//! bytes and plain values.

pub mod binlog_client;
pub mod byte_order;
pub mod commands;
pub mod configure;
pub mod constants;
pub mod errors;
pub mod event_stream;
pub mod events;
pub mod packet_channel;
pub mod providers;
pub mod replica_options;
pub mod responses;
pub mod ssl_mode;
pub mod starting_strategy;
pub mod text;
