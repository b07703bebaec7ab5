//! Verified core of the uProtocol frame data layer: addresses, identifiers,
//! status codes, native frame metadata and its canonical byte profiles.

pub mod payload_bytes;
pub mod text;
pub mod time;
pub mod uattributes;
pub mod uri;
pub mod communication;
pub mod core_entities;
pub mod frame;
pub mod owned_frame;
pub mod ustatus;
pub mod uuid;

pub use bytes::Bytes;
pub use time::{Duration, SystemTime};
pub use uattributes::{UAttributes, UMessage, UMessageType, UPayloadFormat, UPriority};
pub use uri::{UUri, UUriError};
pub use ustatus::{UCode, UStatus};
pub use uuid::UUID;
