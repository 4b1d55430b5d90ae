use vstd::prelude::*;

verus! {

/// A fatal fault raised by a single step of the machine.
///
/// The machine never recovers from these on its own: the driver decides
/// whether to halt or restart.
#[derive(Debug, Clone, Copy, PartialEq, Eq, Structural)]
pub enum Fault {
    /// A write below the start of the program area, into the font region.
    ReservedRegionFault,
    /// An access at or beyond the end of the address space.
    OutOfRange,
    /// A call with all sixteen stack slots in use.
    StackOverflow,
    /// A return with an empty stack.
    StackUnderflow,
}

} // verus!
