//! Image thumbnailing across a memory-isolated boundary.
//!
//! The library decodes a source image, resamples it to requested
//! dimensions and re-encodes it as a baseline JPEG, and it carries
//! buffers across a calling convention restricted to scalar integers:
//! an allocator hands out addressed byte regions, and an
//! (address, length) pair is packed into a single 64-bit return value.
//!
//! [`memory`] holds the allocator and the region table that models the
//! module's linear address space; [`pipeline`] holds the decode,
//! resize and encode steps; [`boundary`] packs results into scalars
//! and drives one complete transform transaction.

pub mod boundary;
pub mod memory;
pub mod pipeline;

pub use boundary::{pack, thumbnail_packed, unpack};
pub use memory::Allocator;
pub use pipeline::{thumbnail, thumbnail_image_rs};
