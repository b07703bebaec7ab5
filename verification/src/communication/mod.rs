//! Error types and handler traits of the communication layer API.

pub mod in_memory_rpc_client;
pub mod in_memory_rpc_server;
pub mod notification;
pub mod pubsub;
pub mod rpc;
