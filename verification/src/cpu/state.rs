use vstd::prelude::*;

verus! {

/// The instruction set the CPU executes.
#[derive(Debug, Clone, Copy, PartialEq, Eq, Structural)]
pub enum CpuState {
    Arm,
    Thumb,
}

} // verus!
