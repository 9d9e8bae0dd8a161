//! The runtime extension slot: one value of a closed set of kinds, read back
//! by the kind the reader expects.
use vstd::prelude::*;

verus! {

/// The kinds of value a runtime may attach to a call.
#[derive(Clone, Copy, Debug, PartialEq, Eq, Structural)]
pub enum ExtensionKind {
    Bool,
    I32,
    I64,
    U32,
    U64,
    Text,
    Bytes,
}

/// A value attached to a call by the runtime that handles it.
#[derive(Clone, Debug, PartialEq, Eq)]
pub enum Extension {
    Bool(bool),
    I32(i32),
    I64(i64),
    U32(u32),
    U64(u64),
    Text(String),
    Bytes(Vec<u8>),
}

/// Why reading the extension slot failed.
#[derive(Clone, Copy, Debug, PartialEq, Eq, Structural)]
pub enum ExtensionAccessError {
    /// A value is stored, but of another kind than the one asked for.
    TypeMismatch,
    /// Nothing has been stored yet.
    NotPresent,
}

impl Extension {
    /// The kind of this value.
    pub open spec fn kind_of(self) -> ExtensionKind {
        match self {
            Extension::Bool(_) => ExtensionKind::Bool,
            Extension::I32(_) => ExtensionKind::I32,
            Extension::I64(_) => ExtensionKind::I64,
            Extension::U32(_) => ExtensionKind::U32,
            Extension::U64(_) => ExtensionKind::U64,
            Extension::Text(_) => ExtensionKind::Text,
            Extension::Bytes(_) => ExtensionKind::Bytes,
        }
    }

    /// Returns the kind of this value.
    pub fn kind(&self) -> (k: ExtensionKind)
        ensures
            k == self.kind_of(),
    {
        match self {
            Extension::Bool(_) => ExtensionKind::Bool,
            Extension::I32(_) => ExtensionKind::I32,
            Extension::I64(_) => ExtensionKind::I64,
            Extension::U32(_) => ExtensionKind::U32,
            Extension::U64(_) => ExtensionKind::U64,
            Extension::Text(_) => ExtensionKind::Text,
            Extension::Bytes(_) => ExtensionKind::Bytes,
        }
    }
}

/// What reading the extension slot `slot` as a value of `kind` yields.
pub open spec fn lookup(slot: Option<Extension>, kind: ExtensionKind) -> Result<Extension, ExtensionAccessError> {
    match slot {
        None => Err(ExtensionAccessError::NotPresent),
        Some(e) => if e.kind_of() == kind {
            Ok(e)
        } else {
            Err(ExtensionAccessError::TypeMismatch)
        },
    }
}

} // verus!
