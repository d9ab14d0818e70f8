//! The error taxonomy of the counter core.

use vstd::prelude::*;

verus! {

/// Why an invocation failed. Every variant is terminal for the call: no
/// retry, no partial application — the stored record is left byte-for-byte
/// unchanged and the error is returned to the host.
#[derive(Clone, Copy, Debug, PartialEq, Eq, Structural)]
pub enum CounterError {
    /// The instruction buffer held an unrecognized tag, or was shorter than
    /// the tag's required operand width.
    MalformedInstruction,
    /// The stored record bytes were shorter than the fixed record width.
    CorruptRecord,
    /// The caller did not present a signing credential for the account
    /// being mutated.
    Unauthorized,
    /// An explicit `Divide` instruction carried a zero operand.
    DivisionByZero,
}

} // verus!
