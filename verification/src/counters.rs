//! Off-platform counter readers.
//!
//! On the hosted platform the memory counters come from the runtime's
//! introspection surface, which only the binary's outer layer can reach; it
//! reads page counts there and converts them with
//! [`memory_pages_to_bytes`]. Off-platform no such regions exist, and these
//! readers return zero deterministically — a defined fallback, not an
//! error, so the encoder stays exercisable in host builds.

use vstd::prelude::*;

verus! {

/// The wasm page size in bytes, as the wasm specification fixes it.
pub const WASM_PAGE_SIZE: u64 = 65536;

/// Bytes committed in the durable storage region; zero off-platform, on
/// every call.
pub fn stable_memory_size_bytes() -> (r: u64)
    ensures
        r == 0,
{
    0
}

/// Bytes committed in the volatile execution memory region; zero
/// off-platform, on every call.
pub fn wasm_memory_size_bytes() -> (r: u64)
    ensures
        r == 0,
{
    0
}

/// Converts a page count, as the runtime reports memory sizes, to bytes.
pub fn memory_pages_to_bytes(pages: u64) -> (r: u64)
    requires
        pages * WASM_PAGE_SIZE <= u64::MAX,
    ensures
        r == pages * WASM_PAGE_SIZE,
{
    pages * WASM_PAGE_SIZE
}

} // verus!
