//! A graph client's connection: how its pool is configured and how its responses are
//! recognised.

pub mod connection_pool;
pub mod pool_config;
pub mod transport_response_handler;
