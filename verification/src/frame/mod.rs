//! The native frame data layer: semantic metadata, its canonical field-block
//! codec, the fixed-layout ABI profile, native representation agreements,
//! whole-frame envelopes and frame views.

pub mod abi;
pub mod codec;
pub mod envelope;
pub mod metadata;
pub mod native;
pub mod priority_order;
pub mod view;
