//! Bindings-side logic for working with a Foundation-style object runtime:
//! a pull iterator over the runtime's batched ("fast") enumeration protocol,
//! and the bookkeeping behind byte buffers handed to the runtime.
pub mod types;
pub mod nsrange;
pub mod nsenumerator;
pub mod enumeration_laws;
pub mod moved_buffer;

pub use types::{NSInteger, NSUInteger};
pub use nsrange::NSRange;
pub use nsenumerator::{FastEnumerator, FatalProtocolViolation, NSFastEnumeration, NSFastEnumerationState, Pulled};
pub use moved_buffer::{MovedBuffer, ReleaseError};
