//! A call-correlation and callback-dispatch engine for a host/native plugin
//! bridge.
//!
//! A host application invokes commands implemented by native platform code
//! and receives results asynchronously. This crate provides the core of that
//! bridge: allocation of unique call identifiers, a registry of pending
//! one-shot completion actions, a registry of long-lived event channels, the
//! dispatch logic that routes native completions back to the right action
//! exactly once, and the response interpretation used by the synchronous
//! call facade.

pub mod bridge;
pub mod errors;
pub mod json;
pub mod registry;

pub use bridge::{
    CallIdAllocator, DecodedResponse, PluginBridge, complete_sync_call, decode_response,
    interpret_failure, interpret_failure_text,
};
pub use errors::{ErrorResponse, PluginInvokeError};
pub use json::parse_json_text;
pub use registry::{ChannelRegistry, PendingCallRegistry};
