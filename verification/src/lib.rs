//! A verified library for reading and writing Riegl `.sdc` files.
//!
//! `.sdc` files are simple binary tables of discrete-return LiDAR data:
//! a small little-endian header carrying a format version and free-form
//! header text, followed by fixed-layout point records whose trailing
//! fields are gated on the declared minor version.
//!
//! The codec here works on byte sequences; opening files and handing
//! their bytes in (or writing accumulated bytes out) is the caller's
//! business.  Floating-point fields (`time`, `range`, and friends) are
//! carried as their IEEE-754 bit patterns, so round trips through the
//! codec are bit-exact by construction.

pub mod codec;
pub mod error;
pub mod file;
pub mod point;
pub mod reader;
pub mod writer;

pub use error::Error;
pub use point::Point;
pub use point::TargetType;
pub use reader::Reader;
pub use writer::Writer;
