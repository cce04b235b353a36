use vstd::prelude::*;

verus! {

/// What went wrong while resolving a DID or dereferencing a DID URL.
#[derive(Clone, Copy, Debug, PartialEq, Eq, Structural)]
pub enum VdrErrorKind {
    /// Malformed DID URL, unparseable datetime, empty or unreadable ledger data.
    Resolver,
    /// A failure reported by the pool, passed on as it came.
    Pool,
}

#[derive(Clone, Debug)]
pub struct VdrError {
    pub kind: VdrErrorKind,
    pub message: String,
}

pub fn resolver_error(message: &str) -> (r: VdrError)
    ensures
        r.kind == VdrErrorKind::Resolver,
        r.message@ == message@,
{
    VdrError { kind: VdrErrorKind::Resolver, message: String::from_str(message) }
}

} // verus!
