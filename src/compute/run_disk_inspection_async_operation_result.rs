use vstd::prelude::*;

verus! {

/// Whether a disk inspection succeeded.
#[derive(Clone, Copy, Debug, PartialEq, Eq, Structural)]
pub enum ResultStatus {
    Success,
    Failed,
}

} // verus!
