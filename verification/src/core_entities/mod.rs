//! Types of the core uProtocol services, uSubscription and uDiscovery, their
//! protobuf forms and the uSubscription server's request dispatch.

pub mod udiscovery;
pub mod usubscription;
pub mod usubscription_proto;
pub mod usubscription_server;
