use vstd::prelude::*;

verus! {

/// Base address of the LPDDR1 main memory window.
pub const LPDDR1_BASE_ADDRESS: usize = 0x8000_0000;

/// Size of the LPDDR1 main memory, in bytes.
pub const LPDDR1_SIZE_BYTES: usize = 2 * 1024 * 1024;

/// First address past the LPDDR1 main memory window.
pub const LPDDR1_END_ADDRESS: usize = LPDDR1_BASE_ADDRESS + LPDDR1_SIZE_BYTES;

/// Errors of the memory subsystem bring-up.
#[derive(Debug, Clone, Copy, PartialEq, Eq, Structural)]
pub enum MemoryError {
    InitializationError,
}

} // verus!
