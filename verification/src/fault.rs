//! The conditions that stop the machine.

use vstd::prelude::*;

verus! {

/// A fatal condition. None of them is recoverable: the caller is expected to
/// stop running the machine when it sees one.
#[derive(Clone, Copy, Debug, PartialEq, Eq, Structural)]
pub enum Fault {
    /// A cursor was asked to leave the region that owns it.
    OutOfRange,
    /// The fetched word is not an instruction.
    UnknownOpcode,
    /// The data handed to a bulk load is longer than the region it is loaded into.
    OversizedLoad,
}

} // verus!
