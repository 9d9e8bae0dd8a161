//! The context value threaded through a single RPC call.
use std::sync::Arc;
use io_context::Context as IoContext;
use vstd::prelude::*;

use crate::extension::{lookup, Extension, ExtensionAccessError};
use crate::extension::ExtensionKind;

verus! {

/// RPC call context.
///
/// `Id` is the runtime's identity, `Sess` what the session layer knows of the
/// session the call came over, `Ver` the consensus verifier and `Store` the
/// untrusted local storage. The trusted anchors are shared through `Arc`;
/// the untrusted storage is only borrowed for the call, under a type of its
/// own, so that it cannot stand where a trusted anchor is expected.
pub struct Context<'a, Id, Sess, Ver, Store> {
    /// I/O context.
    pub io_ctx: Arc<IoContext>,
    /// The current runtime identity.
    pub identity: Arc<Id>,
    /// Information about the session the RPC call was delivered over.
    pub session_info: Option<Arc<Sess>>,
    /// Consensus verifier.
    pub consensus_verifier: Arc<Ver>,
    /// Runtime-specific extension; `None` until a handler sets one.
    pub runtime: Option<Extension>,
    /// Untrusted local storage.
    pub untrusted_local_storage: &'a Store,
}

impl<'a, Id, Sess, Ver, Store> Context<'a, Id, Sess, Ver, Store> {
    /// The context that construction yields from these inputs.
    pub open spec fn fresh(
        io_ctx: Arc<IoContext>,
        identity: Arc<Id>,
        session_info: Option<Arc<Sess>>,
        consensus_verifier: Arc<Ver>,
        untrusted_local_storage: &'a Store,
    ) -> Self {
        Context {
            io_ctx,
            identity,
            session_info,
            consensus_verifier,
            runtime: None,
            untrusted_local_storage,
        }
    }

    /// This context with its extension slot holding `e`, all else kept.
    pub open spec fn with_extension(self, e: Extension) -> Self {
        Context { runtime: Some(e), ..self }
    }

    /// What reading the extension slot as `kind` yields.
    pub open spec fn extension_as(self, kind: ExtensionKind) -> Result<Extension, ExtensionAccessError> {
        lookup(self.runtime, kind)
    }

    /// Construct new call context, with no runtime extension.
    pub fn new(
        io_ctx: Arc<IoContext>,
        identity: Arc<Id>,
        session_info: Option<Arc<Sess>>,
        consensus_verifier: Arc<Ver>,
        untrusted_local_storage: &'a Store,
    ) -> (r: Self)
        ensures
            r == Self::fresh(io_ctx, identity, session_info, consensus_verifier, untrusted_local_storage),
    {
        Context {
            io_ctx,
            identity,
            session_info,
            consensus_verifier,
            runtime: None,
            untrusted_local_storage,
        }
    }

    /// Attaches `e` as the runtime extension, replacing any earlier one.
    pub fn set(&mut self, e: Extension)
        ensures
            *final(self) == old(self).with_extension(e),
    {
        self.runtime = Some(e);
    }

    /// Reads the runtime extension as a value of `kind`: `NotPresent` while
    /// none is set, `TypeMismatch` when the one set is of another kind.
    pub fn get(&self, kind: ExtensionKind) -> (r: Result<&Extension, ExtensionAccessError>)
        ensures
            r matches Ok(e) ==> self.extension_as(kind) == Ok::<Extension, ExtensionAccessError>(*e),
            r matches Err(err) ==> self.extension_as(kind) == Err::<Extension, ExtensionAccessError>(err),
    {
        match &self.runtime {
            None => Err(ExtensionAccessError::NotPresent),
            Some(e) => if e.kind() == kind {
                Ok(e)
            } else {
                Err(ExtensionAccessError::TypeMismatch)
            },
        }
    }
}

} // verus!
