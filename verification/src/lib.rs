//! A capacity-bounded contiguous container.
//!
//! [`ArrayVec`] behaves like a vector whose storage never holds more than a
//! fixed number of elements chosen at compile time. Pushing past that bound
//! is a reported condition that hands the rejected element back to the
//! caller; the container never grows past its capacity.

mod array_vec;
mod errors;

pub use array_vec::ArrayVec;
pub use array_vec::lemma_length_bounded;
pub use array_vec::lemma_push_pop_duality;
pub use array_vec::lemma_truncate_idempotent;
pub use array_vec::lemma_truncate_prefix;
pub use array_vec::truncated;
pub use errors::CapacityError;
