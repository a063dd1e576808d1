//! Verified bridging logic between a managed process and a native fusion
//! service: error codes, the native service handle, the device-state event
//! bridge and the drag extra-data descriptor.

pub mod errors;
pub mod service;
pub mod dm_binding;
pub mod extra_data;

pub use errors::{FusionErrorCode, FusionResult};
