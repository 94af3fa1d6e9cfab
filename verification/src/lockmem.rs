//! The arithmetic behind locking memory for DMA.
//!
//! A DMA buffer is backed by an anonymous locked mapping. To give the buffer
//! a chance of landing on a large page, the mapping is over-allocated by one
//! large-page size, its start is rounded up to a large-page boundary, and
//! the unused head and tail are unmapped again. The page-frame numbers of
//! the locked pages are then read back from the kernel's page map, where
//! each entry carries a present bit and the frame number in its low bits.
//!
//! The mapping, locking and page-map reads themselves are system calls made
//! by the surrounding process; this module computes and checks everything
//! around them.

use vstd::prelude::*;

verus! {

/// Size of a small page in bytes.
pub const PAGE_SIZE: usize = 4096;

/// Size of a large page in bytes.
pub const SIZE_2M: usize = 0x20_0000;

/// Set in a page-map entry when the page is resident in memory.
pub const PFN_PRESENT_BIT: u64 = 0x8000_0000_0000_0000;

/// The page-frame-number bits of a page-map entry.
pub const PFN_MASK: u64 = 0x3f_ffff_ffff_ffff;

#[derive(Clone, Copy, Debug, PartialEq, Eq, Structural)]
pub enum LockedMemoryError {
    /// The requested buffer length is not a multiple of the page size.
    NotPageMultiple,
    /// A page of the mapping is not resident in memory.
    PageNotPresent,
}

/// How long a mapping to request for a buffer of `len` bytes: one large
/// page more than requested, so that a large-page-aligned stretch of `len`
/// bytes fits whatever start the kernel picks. A buffer smaller than a
/// large page gains nothing from alignment and is requested as is.
pub open spec fn spec_mmap_length(len: usize) -> int {
    if len < SIZE_2M {
        len as int
    } else {
        len + SIZE_2M
    }
}

/// The number of pages in a buffer of `len` bytes, or an error when `len`
/// is not a whole number of pages.
pub fn page_count(len: usize) -> (r: Result<usize, LockedMemoryError>)
    ensures
        r is Ok <==> len % PAGE_SIZE == 0,
        r matches Ok(n) ==> n == len / PAGE_SIZE,
        r matches Err(e) ==> e == LockedMemoryError::NotPageMultiple,
{
    if len % PAGE_SIZE != 0 {
        Err(LockedMemoryError::NotPageMultiple)
    } else {
        Ok(len / PAGE_SIZE)
    }
}

/// The length of the over-allocated mapping for a buffer of `len` bytes.
pub fn mmap_length(len: usize) -> (r: usize)
    requires
        len <= usize::MAX - SIZE_2M,
    ensures
        r == spec_mmap_length(len),
{
    if len < SIZE_2M {
        len
    } else {
        len + SIZE_2M
    }
}

/// Where inside the over-allocated mapping at `addr` the buffer of `len`
/// bytes should live: the buffer's start, the length of the unused head
/// before it, and the length of the unused tail after it. For a buffer of
/// at least a large page the start is the unique large-page boundary within
/// one large page of `addr`; a smaller buffer stays where the kernel put it.
/// Head, buffer and tail exactly tile the mapping.
pub fn trim_mapping(addr: usize, len: usize) -> (r: (usize, usize, usize))
    requires
        len <= usize::MAX - SIZE_2M,
        addr + spec_mmap_length(len) <= usize::MAX,
    ensures
        len <= SIZE_2M ==> r.0 == addr,
        len > SIZE_2M ==> r.0 % SIZE_2M == 0 && addr <= r.0 && r.0 < addr + SIZE_2M,
        r.1 == r.0 - addr,
        r.1 + len + r.2 == spec_mmap_length(len),
{
    let aligned: usize = if len > SIZE_2M {
        let rem = addr % SIZE_2M;
        if rem == 0 {
            addr
        } else {
            let a = addr + (SIZE_2M - rem);
            proof {
                assert((addr as int + (SIZE_2M as int - rem as int)) % (SIZE_2M as int) == 0)
                    by (nonlinear_arith)
                    requires
                        rem as int == addr as int % (SIZE_2M as int),
                        rem != 0,
                        SIZE_2M == 0x20_0000usize,
                ;
            }
            a
        }
    } else {
        addr
    };
    let head_len = aligned - addr;
    let larger_len = mmap_length(len);
    let tail_len = larger_len - head_len - len;
    (aligned, head_len, tail_len)
}

/// The byte offset into the kernel's page map at which the entries for the
/// mapping at `addr` begin: eight bytes per page.
pub fn pagemap_offset(addr: usize) -> (r: u64)
    requires
        addr % PAGE_SIZE == 0,
    ensures
        r == 8 * (addr as int / PAGE_SIZE as int),
{
    (addr / PAGE_SIZE) as u64 * 8
}

/// Decode raw page-map entries into page-frame numbers. Fails if any page
/// is not resident; otherwise each entry's frame-number bits are kept.
pub fn decode_pfns(raw: &Vec<u64>) -> (r: Result<Vec<u64>, LockedMemoryError>)
    ensures
        r is Ok <==> (forall|i: int| 0 <= i < raw@.len() ==> raw@[i] & PFN_PRESENT_BIT != 0),
        r matches Ok(v) ==> v@.len() == raw@.len() && (forall|i: int|
            0 <= i < raw@.len() ==> v@[i] == raw@[i] & PFN_MASK),
        r matches Err(e) ==> e == LockedMemoryError::PageNotPresent,
{
    let mut out: Vec<u64> = Vec::new();
    let mut i: usize = 0;
    let n = raw.len();
    while i < n
        invariant
            n == raw@.len(),
            i <= n,
            out@.len() == i,
            forall|j: int| 0 <= j < i ==> raw@[j] & PFN_PRESENT_BIT != 0,
            forall|j: int| 0 <= j < i ==> out@[j] == raw@[j] & PFN_MASK,
        decreases n - i,
    {
        let entry = raw[i];
        if entry & PFN_PRESENT_BIT == 0 {
            return Err(LockedMemoryError::PageNotPresent);
        }
        out.push(entry & PFN_MASK);
        i = i + 1;
    }
    Ok(out)
}

/// A client that satisfies DMA-buffer requests by locking ordinary memory.
/// The mapping system calls live with the surrounding process; this marker
/// carries no state of its own.
#[derive(Clone, Debug)]
pub struct LockedMemorySpawner;

} // verus!
