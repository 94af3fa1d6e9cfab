//! A simple bump allocator for the boot environment.
//!
//! Allocations are only allowed in a small window of the boot flow: the
//! allocator starts out merely armed, is enabled once, and once disabled can
//! never be enabled again. The allocator's memory window and the addresses
//! it hands out are plain numbers here; the boot environment owns the
//! backing memory and identity-maps it.

use vstd::prelude::*;

verus! {

/// Whether allocations are currently possible.
#[derive(Clone, Copy, Debug, PartialEq, Eq, Structural)]
pub enum State {
    /// Allocations can be enabled via `enable_alloc`.
    Allowed,
    /// Allocations are currently enabled.
    Enabled,
    /// Allocations are disabled and cannot be enabled again.
    Disabled,
}

/// The allocator's state: the memory window `[start, end)`, the bump cursor
/// `next`, and the allocation gate.
#[derive(Clone, Copy, Debug)]
pub struct Inner {
    pub start: usize,
    pub next: usize,
    pub end: usize,
    pub allow_alloc: State,
    pub alloc_count: usize,
}

/// `addr` rounded up to the next multiple of `align`.
pub open spec fn align_up(addr: int, align: int) -> int
    recommends
        align > 0,
{
    if addr % align == 0 {
        addr
    } else {
        addr + align - addr % align
    }
}

#[derive(Debug)]
pub struct BumpAllocator {
    pub inner: Inner,
}

impl BumpAllocator {
    /// The bump cursor always stays inside the memory window.
    pub open spec fn wf(&self) -> bool {
        self.inner.start <= self.inner.next <= self.inner.end
    }

    /// A fresh allocator with an empty window, armed but not yet enabled.
    pub fn new() -> (r: BumpAllocator)
        ensures
            r.wf(),
            r.inner == (Inner {
                start: 0,
                next: 0,
                end: 0,
                allow_alloc: State::Allowed,
                alloc_count: 0,
            }),
    {
        BumpAllocator {
            inner: Inner {
                start: 0,
                next: 0,
                end: 0,
                allow_alloc: State::Allowed,
                alloc_count: 0,
            },
        }
    }

    /// Initialize the bump allocator with the memory window starting at
    /// `base` and spanning `len` bytes. The window can be set only once;
    /// the caller guarantees the range is valid to access and unused.
    pub fn init(&mut self, base: usize, len: usize)
        requires
            old(self).inner.start == 0,
            base + len <= usize::MAX,
        ensures
            final(self).wf(),
            final(self).inner == (Inner {
                start: base,
                next: base,
                end: (base + len) as usize,
                ..old(self).inner
            }),
    {
        self.inner.start = base;
        self.inner.next = base;
        self.inner.end = base + len;
    }

    /// Enable allocations. Allocations must never have been enabled before.
    pub fn enable_alloc(&mut self)
        requires
            old(self).inner.allow_alloc == State::Allowed,
        ensures
            final(self).inner == (Inner { allow_alloc: State::Enabled, ..old(self).inner }),
    {
        self.inner.allow_alloc = State::Enabled;
    }

    /// Disable allocations for good. The allocator must currently be
    /// enabled.
    pub fn disable_alloc(&mut self)
        requires
            old(self).inner.allow_alloc == State::Enabled,
        ensures
            final(self).inner == (Inner { allow_alloc: State::Disabled, ..old(self).inner }),
    {
        self.inner.allow_alloc = State::Disabled;
    }

    /// Allocate `size` bytes aligned to `align`, bumping the cursor. Returns
    /// the allocation's address, or `None` when the window cannot fit the
    /// request.
    pub fn allocate(&mut self, size: usize, align: usize) -> (r: Option<usize>)
        requires
            old(self).wf(),
            old(self).inner.allow_alloc == State::Enabled,
            align > 0,
            old(self).inner.alloc_count < usize::MAX,
        ensures
            final(self).wf(),
            ({
                let aligned = align_up(old(self).inner.next as int, align as int);
                if aligned + size < old(self).inner.end {
                    &&& r == Some(aligned as usize)
                    &&& aligned % (align as int) == 0
                    &&& final(self).inner == (Inner {
                        next: (aligned + size) as usize,
                        alloc_count: (old(self).inner.alloc_count + 1) as usize,
                        ..old(self).inner
                    })
                } else {
                    &&& r is None
                    &&& *final(self) == *old(self)
                }
            }),
    {
        let next = self.inner.next;
        let rem = next % align;
        let offset = if rem == 0 {
            0
        } else {
            align - rem
        };

        // If the cursor cannot even be aligned without wrapping, the
        // allocation is too large. If the start overflows, the end will too.
        if next > usize::MAX - offset {
            return None;
        }
        let alloc_start = next + offset;
        if alloc_start > usize::MAX - size {
            return None;
        }
        let alloc_end = alloc_start + size;

        proof {
            if rem != 0 {
                assert((next as int + (align as int - rem as int)) % (align as int) == 0)
                    by (nonlinear_arith)
                    requires
                        align > 0,
                        rem as int == next as int % (align as int),
                        rem != 0,
                ;
            }
        }

        if alloc_end >= self.inner.end {
            None  // out of memory
        } else {
            self.inner.next = alloc_end;
            self.inner.alloc_count = self.inner.alloc_count + 1;
            Some(alloc_start)
        }
    }

    /// How much of the window is allocated and free, and how many
    /// allocations were made.
    pub fn stats(&self) -> (r: (usize, usize, usize))
        requires
            self.wf(),
        ensures
            r.0 == self.inner.next - self.inner.start,
            r.1 == self.inner.end - self.inner.next,
            r.2 == self.inner.alloc_count,
    {
        (
            self.inner.next - self.inner.start,
            self.inner.end - self.inner.next,
            self.inner.alloc_count,
        )
    }
}

} // verus!
