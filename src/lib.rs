//! Per-call context handed to RPC handlers: the trust anchors of the runtime,
//! the session the call came over, a borrow of untrusted storage and one
//! replaceable runtime extension.
pub mod context;
pub mod io;
pub mod laws;
pub mod extension;

pub use context::Context;
pub use extension::{Extension, ExtensionAccessError, ExtensionKind};
