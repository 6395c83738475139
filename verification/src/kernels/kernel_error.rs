use vstd::prelude::*;

verus! {

/// Why a kernel refused its arguments.
#[derive(Debug, Clone, Copy, PartialEq, Eq, Structural)]
pub enum KernelError {
    ShapeMismatch,
    InvalidType,
    EmptyInput,
    TensorAlignmentError,
}

} // verus!
