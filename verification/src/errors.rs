//! The failure taxonomy of the adapter, and the log entries it produces.
//!
//! Every failure is contained where it occurs: it is recorded as a
//! [`LogEntry`] in the report a call returns, and never propagated to the
//! host application. The caller that drives the real environment decides
//! how to display the entries.

use vstd::prelude::*;
use crate::value::Value;

verus! {

/// The channel object could not be resolved in the global namespace.
pub enum ChannelError {
    /// The well-known key is absent, or bound to a primitive rather than
    /// an object; `key` names the key that was looked up.
    NotFound { key: String },
}

/// A model or message could not be encoded as a transport value; `detail`
/// carries the encoder's own description of the failure.
pub struct SerializationError {
    pub detail: String,
}

/// An assignment to the channel was rejected by the environment.
pub struct WriteError {
    pub key: String,
    pub detail: String,
}

/// A notification could not be handed to the environment's cross-context
/// messaging primitive.
pub struct TransportError {
    pub detail: String,
}

/// Why channel initialization failed.
pub enum InitError {
    SerializationFailed(SerializationError),
    WriteFailed(WriteError),
}

/// One diagnostic entry: a failure, with the value that caused it.
pub enum LogEntry {
    /// The channel object could not be resolved.
    ChannelFailed(ChannelError),
    /// A model or message could not be serialized.
    SerializationFailed(SerializationError),
    /// The messages slot of the channel is absent or not an array; the
    /// malformed slot is left untouched. `key` names the slot.
    MessagesSlotMalformed { key: String },
    /// An assignment to the channel was rejected; the value that could
    /// not be written is carried for diagnosis.
    WriteFailed(WriteError, Value),
    /// A notification could not be posted; the envelope that could not
    /// be sent is carried for diagnosis.
    TransportFailed(TransportError, Value),
}

} // verus!
