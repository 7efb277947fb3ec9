//! The central processing unit: its registers and its view of memory.

use vstd::prelude::*;

pub mod bus;

verus! {

/// The CPU registers that the bus works on.
#[allow(non_snake_case)]
#[derive(Clone, Copy, Debug, PartialEq, Eq, Structural)]
pub struct Registers {
    /// Program counter.
    pub PC: u16,
    /// Stack pointer: the stack's next free byte is at `0x0100 + S`.
    pub S: u8,
}

} // verus!
