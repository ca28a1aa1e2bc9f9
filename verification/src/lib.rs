//! Compact 64-bit identifiers without a central coordinator.
//!
//! Two independent generators live here. [`PlainSequence`] hands out a plain
//! wrapping counter. [`TimestampSeq`] packs the milliseconds elapsed since
//! [`EPOCH`] into the high bits of an identifier and a per-millisecond
//! sequence number into the low bits.
//!
//! Both generators are driven through `&mut self`: exclusive borrows already
//! guarantee that no two calls on one instance overlap, and every contract
//! describes exactly such a sequential caller.

mod clock;
pub mod counter;
pub mod layout;
pub mod plain;
pub mod timestamp;

pub use layout::{into_parts, EPOCH, NID, SEQUENCE_BITS};
pub use plain::{PlainSequence, SID};
pub use timestamp::TimestampSeq;
