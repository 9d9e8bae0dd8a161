//! Laws that relate construction, `set` and `get` of a call context, stated
//! over the spec functions that their contracts use.
use io_context::Context as IoContext;
use std::sync::Arc;
use vstd::prelude::*;

use crate::context::Context;
use crate::extension::{Extension, ExtensionAccessError, ExtensionKind};

verus! {

/// A freshly constructed context reads `NotPresent` for every kind, whatever
/// it was constructed from.
pub proof fn fresh_context_has_no_extension<'a, Id, Sess, Ver, Store>(
    io_ctx: Arc<IoContext>,
    identity: Arc<Id>,
    session_info: Option<Arc<Sess>>,
    consensus_verifier: Arc<Ver>,
    untrusted_local_storage: &'a Store,
    kind: ExtensionKind,
)
    ensures
        Context::fresh(io_ctx, identity, session_info, consensus_verifier, untrusted_local_storage).extension_as(kind)
            == Err::<Extension, ExtensionAccessError>(ExtensionAccessError::NotPresent),
{
}

/// After setting `e`, reading as the kind of `e` returns `e` unchanged, and
/// reading as any other kind returns `TypeMismatch`.
pub proof fn set_then_get<'a, Id, Sess, Ver, Store>(
    c: Context<'a, Id, Sess, Ver, Store>,
    e: Extension,
    kind: ExtensionKind,
)
    ensures
        c.with_extension(e).extension_as(e.kind_of()) == Ok::<Extension, ExtensionAccessError>(e),
        kind != e.kind_of() ==> c.with_extension(e).extension_as(kind)
            == Err::<Extension, ExtensionAccessError>(ExtensionAccessError::TypeMismatch),
{
}

/// Setting twice overwrites: the context is as if only the second value had
/// been set, so reading never yields the first one unless the two are equal.
pub proof fn second_set_overwrites<'a, Id, Sess, Ver, Store>(
    c: Context<'a, Id, Sess, Ver, Store>,
    e1: Extension,
    e2: Extension,
    kind: ExtensionKind,
)
    ensures
        c.with_extension(e1).with_extension(e2) == c.with_extension(e2),
        c.with_extension(e1).with_extension(e2).extension_as(e2.kind_of())
            == Ok::<Extension, ExtensionAccessError>(e2),
        c.with_extension(e1).with_extension(e2).extension_as(kind) == Ok::<Extension, ExtensionAccessError>(e1)
            ==> e1 == e2,
{
}

/// The session info of a context is the one it was constructed with, absent
/// exactly when none was given, and setting an extension leaves it as it is.
pub proof fn session_info_is_never_synthesized<'a, Id, Sess, Ver, Store>(
    io_ctx: Arc<IoContext>,
    identity: Arc<Id>,
    session_info: Option<Arc<Sess>>,
    consensus_verifier: Arc<Ver>,
    untrusted_local_storage: &'a Store,
    e: Extension,
)
    ensures
        Context::fresh(io_ctx, identity, session_info, consensus_verifier, untrusted_local_storage).session_info
            == session_info,
        Context::fresh(io_ctx, identity, session_info, consensus_verifier, untrusted_local_storage).session_info.is_none()
            <==> session_info.is_none(),
        Context::fresh(io_ctx, identity, session_info, consensus_verifier, untrusted_local_storage).with_extension(
            e,
        ).session_info == session_info,
{
}

/// The trusted anchors and the untrusted storage each hold exactly what was
/// given for them at construction, and setting an extension swaps none of
/// them for another.
pub proof fn trust_boundary_is_kept<'a, Id, Sess, Ver, Store>(
    io_ctx: Arc<IoContext>,
    identity: Arc<Id>,
    session_info: Option<Arc<Sess>>,
    consensus_verifier: Arc<Ver>,
    untrusted_local_storage: &'a Store,
    e: Extension,
)
    ensures
        ({
            let c = Context::fresh(io_ctx, identity, session_info, consensus_verifier, untrusted_local_storage);
            &&& c.identity == identity
            &&& c.consensus_verifier == consensus_verifier
            &&& c.untrusted_local_storage == untrusted_local_storage
            &&& c.io_ctx == io_ctx
            &&& c.with_extension(e).identity == identity
            &&& c.with_extension(e).consensus_verifier == consensus_verifier
            &&& c.with_extension(e).untrusted_local_storage == untrusted_local_storage
            &&& c.with_extension(e).io_ctx == io_ctx
        }),
{
}

/// Two contexts built from the same trusted anchors and I/O context but
/// different storage borrows are independent: setting the extension of one
/// leaves the other reading `NotPresent`, and both keep the shared anchors.
pub proof fn contexts_are_independent<'a, 'b, Id, Sess, Ver, Store>(
    io_ctx: Arc<IoContext>,
    identity: Arc<Id>,
    session_info: Option<Arc<Sess>>,
    consensus_verifier: Arc<Ver>,
    store_a: &'a Store,
    store_b: &'b Store,
    e: Extension,
    kind: ExtensionKind,
)
    ensures
        ({
            let a = Context::fresh(io_ctx, identity, session_info, consensus_verifier, store_a);
            let b = Context::fresh(io_ctx, identity, session_info, consensus_verifier, store_b);
            &&& a.with_extension(e).extension_as(e.kind_of()) == Ok::<Extension, ExtensionAccessError>(e)
            &&& b.extension_as(kind) == Err::<Extension, ExtensionAccessError>(ExtensionAccessError::NotPresent)
            &&& a.with_extension(e).identity == b.identity
            &&& a.with_extension(e).consensus_verifier == b.consensus_verifier
            &&& a.with_extension(e).io_ctx == b.io_ctx
        }),
{
}

} // verus!
