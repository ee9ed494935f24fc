use vstd::prelude::*;
use crate::types::NSUInteger;

verus! {

/// A run of `length` indices starting at `location`.
#[derive(Debug, Clone, Copy, PartialEq, Eq, Structural)]
pub struct NSRange {
    pub location: NSUInteger,
    pub length: NSUInteger,
}

} // verus!
