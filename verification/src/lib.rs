//! Verified core of a Kafka topic-management and chaos-testing service.
pub mod keyed;
pub mod text;
pub mod properties;
pub mod error;
pub mod domain;
pub mod mock;
pub mod api;
pub mod events;
pub mod event;
pub mod watch;
pub mod chaos;
pub mod seed;
pub mod console;
pub mod toast;
pub mod actions;
pub mod battlefield;
pub mod short_format;
pub mod client;
pub mod routes;
pub mod cluster;
pub mod config_table;
pub mod wheel;
