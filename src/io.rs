//! The I/O context that a call carries: deadline and cancellation of the
//! enclosing call, as the `io_context` crate gives them.
use io_context::Context as IoContext;
use vstd::prelude::*;

verus! {

/// `io_context::Context`, carried through a call and never looked into.
#[verifier::external_type_specification]
#[verifier::external_body]
pub struct ExIoContext(IoContext);

} // verus!
