//! A boundary around the LZ4 block codec for callers in another language.
//!
//! Three operations make up the surface: [`lz4_compress`] turns a caller's
//! bytes into a self-describing frame, [`lz4_decompress`] turns such a frame
//! back into the bytes it was made from, and [`lz4_free`] takes back a buffer
//! that one of the two handed out. Every call is independent; nothing is kept
//! between calls.
//!
//! What a caller finds after a call is an [`Outcome`]: a fresh buffer and its
//! length; or no buffer and a length of zero, which stands for an empty
//! result and for every failure alike; or, where the caller's length slot
//! cannot be written and so nothing can be reported, no buffer and nothing
//! else.

pub mod boundary;
pub mod codec;
pub mod fidelity;
pub mod frame;

pub use boundary::{lz4_compress, lz4_decompress, lz4_free, Outcome, RawBuffer};
