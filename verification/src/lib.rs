//! Static analysis of Mach-O and fat (universal) binaries.
//!
//! Every decoder takes the raw bytes of a file and returns either a fully
//! decoded record or a [`macho::error::DecodeError`]; none of them reads
//! outside the buffer it was given.

pub mod macho;
pub mod reporting;
