use vstd::prelude::*;

verus! {

/// The classes of I/O failure the retry logic distinguishes.
///
/// `WouldBlock` is the sentinel that drives a retry; every other kind is
/// terminal and is handed back to the caller untouched.
#[derive(Clone, Copy, PartialEq, Eq, Structural, Debug)]
pub enum ErrKind {
    /// The operation cannot complete until the descriptor becomes ready.
    WouldBlock,
    /// The operation was refused outright.
    PermissionDenied,
    /// The descriptor is not valid for registration or I/O.
    InvalidDescriptor,
    /// Any other failure; carried through without interpretation.
    Other,
}

/// An I/O failure as the verified core sees it: the kind the retry logic
/// reads, plus the operating-system error code (zero when there is none),
/// carried through untouched so a result is returned verbatim.
#[derive(Clone, Copy, PartialEq, Eq, Structural, Debug)]
pub struct IoErr {
    pub kind: ErrKind,
    pub code: i32,
}

/// Whether a probe result is the would-block sentinel: the only outcome
/// that is absorbed by the retry loop instead of being returned.
pub open spec fn is_would_block<R>(r: Result<R, IoErr>) -> bool {
    match r {
        Result::Ok(_) => false,
        Result::Err(e) => e.kind == ErrKind::WouldBlock,
    }
}

} // verus!
