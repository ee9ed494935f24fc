use vstd::prelude::*;

verus! {

/// The runtime's unsigned word-sized integer.
pub type NSUInteger = u64;

/// The runtime's signed word-sized integer.
pub type NSInteger = i64;

} // verus!
