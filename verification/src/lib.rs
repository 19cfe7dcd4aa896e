//! A verified devtools adapter: mirrors a host application's state (its
//! model and the messages it dispatches) into a well-known channel object
//! in the host environment's global namespace, where an external inspection
//! tool can read it.
//!
//! The channel and the global namespace are modelled as plain data
//! ([`value::Value`], [`env::Globals`]); the browser bindings that read and
//! write the real global object live outside this library and exchange
//! these plain values with it.

pub mod devtools;
pub mod env;
pub mod errors;
pub mod laws;
pub mod value;

pub use devtools::{DevTools, WithDevtools};
pub use env::Globals;
pub use value::Value;
