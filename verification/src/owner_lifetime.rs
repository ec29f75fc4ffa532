//! Values of unknown types that a failure leaves behind: their destructors are not run.

use vstd::prelude::*;

verus! {

/// What a panic carries.
#[derive(Debug, Clone, Copy, PartialEq, Eq, Structural)]
pub enum PanicPayload {
    /// A text of the program.
    StaticText,
    /// A text that was made at run time.
    OwnedText,
    /// A value of a type that is not known here.
    Opaque,
}

/// Whether what a panic carries is left alone for good. Texts are disposed; the
/// destructor of anything else could block or panic. The caller has to keep the answer:
/// a value that was left alone is no clean end.
pub fn dispose_canonical_or_abandon_opaque_panic_payload(payload: PanicPayload) -> (abandoned: bool)
    ensures
        abandoned == (payload is Opaque),
{
    match payload {
        PanicPayload::StaticText | PanicPayload::OwnedText => false,
        PanicPayload::Opaque => true,
    }
}

/// Whether an I/O error is left alone for good: only where it carries another error.
pub fn abandon_io_error(carries_error: bool) -> (abandoned: bool)
    ensures
        abandoned == carries_error,
{
    carries_error
}

} // verus!
