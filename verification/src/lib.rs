//! Identification of cartridge boot-security (CIC) chip variants from their
//! 4032-byte initial program loader (IPL) image, and computation of the pair
//! of 32-bit boot checksums a console expects for a program image under a
//! given variant's algorithm.

use vstd::prelude::*;

pub mod checksum;
pub mod hash;
pub mod laws;
pub mod variant;

pub use variant::CIC;
pub use variant::CICError;
pub use variant::Tag;

verus! {

/// Exact size in bytes of every IPL image.
pub const IPL_SIZE: usize = 0x0fc0;

/// Size in bytes of the fixed checksum window over the program stream.
pub const PROGRAM_SIZE: usize = 0x100000;

/// Number of 32-bit words in the checksum window.
pub const NUM_WORDS: usize = 0x40000;

} // verus!
