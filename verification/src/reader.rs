//! Decisions on file contents once they are read: binary detection,
//! byte-order marks, and the choice of memory mapping.
use vstd::prelude::*;
use vstd::slice::slice_subrange;

verus! {

/// Files of at least this many bytes are memory-mapped (1 MB).
pub const MMAP_THRESHOLD: u64 = 1048576;

/// Size of the sample checked for binary content (8 KB).
pub const BINARY_CHECK_SIZE: usize = 8192;

/// The largest input read from standard input or accepted as a JSON
/// request (64 MiB).
pub const MAX_INPUT_BYTES: usize = 67108864;

/// Whether an input of this many bytes is accepted.
pub fn input_within_limit(len: usize) -> (r: bool)
    ensures
        r == (len <= MAX_INPUT_BYTES),
{
    len <= MAX_INPUT_BYTES
}

/// Whether a file of this size is read through a memory map.
pub fn uses_mmap(size: u64) -> (r: bool)
    ensures
        r == (size >= MMAP_THRESHOLD),
{
    size >= MMAP_THRESHOLD
}

/// Whether the sample read from the start of a file marks it as binary: a
/// NUL byte within its first `BINARY_CHECK_SIZE` bytes.
pub fn is_binary_sample(sample: &[u8]) -> (r: bool)
    ensures
        r == exists|i: int| 0 <= i < sample@.len() && i < BINARY_CHECK_SIZE && sample@[i] == 0u8,
{
    let n = if sample.len() < BINARY_CHECK_SIZE {
        sample.len()
    } else {
        BINARY_CHECK_SIZE
    };
    let mut i: usize = 0;
    while i < n
        invariant
            i <= n <= sample@.len(),
            n <= BINARY_CHECK_SIZE,
            n == sample@.len() || n == BINARY_CHECK_SIZE,
            forall|j: int| 0 <= j < i ==> sample@[j] != 0u8,
        decreases n - i,
    {
        if sample[i] == 0u8 {
            return true;
        }
        i += 1;
    }
    false
}

/// Whether the bytes start with the UTF-8 byte order mark `EF BB BF`.
pub open spec fn starts_with_bom(raw: Seq<u8>) -> bool {
    raw.len() >= 3 && raw[0] == 0xEFu8 && raw[1] == 0xBBu8 && raw[2] == 0xBFu8
}

/// The bytes without a leading UTF-8 byte order mark.
pub fn strip_utf8_bom(raw: &[u8]) -> (r: &[u8])
    ensures
        starts_with_bom(raw@) ==> r@ == raw@.skip(3),
        !starts_with_bom(raw@) ==> r@ == raw@,
{
    if raw.len() >= 3 && raw[0] == 0xEFu8 && raw[1] == 0xBBu8 && raw[2] == 0xBFu8 {
        let r = slice_subrange(raw, 3, raw.len());
        assert(r@ =~= raw@.skip(3));
        r
    } else {
        raw
    }
}

} // verus!
