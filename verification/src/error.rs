use vstd::prelude::*;

verus! {

/// The ways in which an operation of the simulator can fail. None of them is
/// transient: callers are expected to stop the run.
#[derive(Clone, Copy, Debug, PartialEq, Eq, Structural)]
pub enum Error {
    /// A memory access at or past the capacity of the memory.
    OutOfBounds,
    /// An instruction word that matches no implemented instruction.
    UnknownInstruction,
    /// A register index outside `0..=31`.
    InvalidRegisterIndex,
}

} // verus!
