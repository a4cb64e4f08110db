//! Memory figures: the byte counter behind a counting allocator, the memory
//! figures of a process, and the kinds of virtual-memory regions.

use vstd::prelude::*;

verus! {

/// The alignment up to which the system allocator reallocates in place of a
/// fresh allocation.
pub const MIN_ALIGN: usize = 16;

/// `x + y` wrapped into an `isize`, as an atomic `fetch_add` wraps.
pub open spec fn wrapping_add_isize(x: isize, y: int) -> isize {
    if x + y > isize::MAX {
        (x + y - (isize::MAX - isize::MIN + 1)) as isize
    } else if x + y < isize::MIN {
        (x + y + (isize::MAX - isize::MIN + 1)) as isize
    } else {
        (x + y) as isize
    }
}

/// The bookkeeping of an allocator that tracks the bytes in use by allocations.
///
/// The counter starts disabled and at zero. While it is enabled, each successful
/// allocation adds its size and each deallocation subtracts its size; while it is
/// disabled nothing is counted. The count wraps, as an atomic counter does.
#[derive(Debug)]
pub struct CountingAllocator {
    allocated: isize,
    enabled: bool,
}

impl CountingAllocator {
    pub closed spec fn spec_allocated(&self) -> isize {
        self.allocated
    }

    pub closed spec fn spec_enabled(&self) -> bool {
        self.enabled
    }

    /// A disabled counter at zero.
    pub fn new() -> (r: CountingAllocator)
        ensures
            r.spec_allocated() == 0,
            !r.spec_enabled(),
    {
        CountingAllocator { allocated: 0, enabled: false }
    }

    /// The bytes in use, as counted.
    pub fn get_allocated(&self) -> (r: isize)
        ensures
            r == self.spec_allocated(),
    {
        self.allocated
    }

    /// Whether the counter is enabled.
    pub fn is_enable(&self) -> (r: bool)
        ensures
            r == self.spec_enabled(),
    {
        self.enabled
    }

    /// Sets the count to zero.
    pub fn reset(&mut self)
        ensures
            final(self).spec_allocated() == 0,
            final(self).spec_enabled() == old(self).spec_enabled(),
    {
        self.allocated = 0;
    }

    /// Enables the counter.
    pub fn enable(&mut self)
        ensures
            final(self).spec_allocated() == old(self).spec_allocated(),
            final(self).spec_enabled(),
    {
        self.enabled = true;
    }

    /// Disables the counter.
    pub fn disable(&mut self)
        ensures
            final(self).spec_allocated() == old(self).spec_allocated(),
            !final(self).spec_enabled(),
    {
        self.enabled = false;
    }

    fn add(&mut self, delta: isize)
        ensures
            final(self).spec_allocated() == wrapping_add_isize(old(self).spec_allocated(), delta as int),
            final(self).spec_enabled() == old(self).spec_enabled(),
    {
        self.allocated = self.allocated.wrapping_add(delta);
    }

    /// Counts an allocation of `size` bytes (zeroed or not), if it succeeded.
    pub fn record_alloc(&mut self, size: usize, succeeded: bool)
        requires
            size <= isize::MAX,
        ensures
            final(self).spec_enabled() == old(self).spec_enabled(),
            final(self).spec_allocated() == if succeeded && old(self).spec_enabled() {
                wrapping_add_isize(old(self).spec_allocated(), size as int)
            } else {
                old(self).spec_allocated()
            },
    {
        if succeeded && self.enabled {
            self.add(size as isize);
        }
    }

    /// Counts the release of an allocation of `size` bytes.
    pub fn record_dealloc(&mut self, size: usize)
        requires
            size <= isize::MAX,
        ensures
            final(self).spec_enabled() == old(self).spec_enabled(),
            final(self).spec_allocated() == if old(self).spec_enabled() {
                wrapping_add_isize(old(self).spec_allocated(), -(size as int))
            } else {
                old(self).spec_allocated()
            },
    {
        if self.enabled {
            self.add(-(size as isize));
        }
    }

    /// Counts the move of an allocation of `old_size` bytes, aligned to `align`, to
    /// `new_size` bytes, if it succeeded. Only a reallocation whose alignment is at
    /// most both `MIN_ALIGN` and the new size is counted.
    pub fn record_realloc(&mut self, old_size: usize, align: usize, new_size: usize, succeeded: bool)
        requires
            old_size <= isize::MAX,
            new_size <= isize::MAX,
        ensures
            final(self).spec_enabled() == old(self).spec_enabled(),
            final(self).spec_allocated() == if succeeded && old(self).spec_enabled() && align
                <= MIN_ALIGN && align <= new_size {
                wrapping_add_isize(old(self).spec_allocated(), new_size - old_size)
            } else {
                old(self).spec_allocated()
            },
    {
        if succeeded && self.enabled && align <= MIN_ALIGN && align <= new_size {
            self.add(new_size as isize - old_size as isize);
        }
    }
}

/// Memory figures of a process, in bytes.
#[derive(Clone, Copy, Debug, PartialEq, Eq, Structural)]
pub struct ProcessMemoryInfo {
    /// The non-swapped physical memory that the process uses: the RES column of
    /// `top`, or the working set on Windows.
    pub resident_set_size: u64,
    /// The largest resident set size so far.
    pub resident_set_size_peak: u64,
    /// The virtual memory that the process uses: the VIRT column of `top`, or the
    /// pagefile usage on Windows.
    pub virtual_memory_size: u64,
    /// The physical footprint that macOS reports; zero where there is none.
    pub phys_footprint: u64,
    /// The compressed memory that macOS reports; zero where there is none.
    pub compressed: u64,
}

/// The kind of a virtual-memory region, from the `user_tag` that the kernel
/// attaches to it.
#[derive(Clone, Copy, Debug, PartialEq, Eq, Structural)]
pub enum VMRegionKind {
    Malloc,
    MallocSmall,
    MallocLarge,
    MallocHuge,
    Sbrk,
    Realloc,
    MallocTiny,
    MallocLargeReusable,
    MallocLargeReused,
    Stack,
    MallocNano,
    Dylib,
    Dyld,
    DyldMalloc,
    /// A tag with no kind of its own.
    Tag(u32),
}

/// The kind that a region's `user_tag` names.
pub open spec fn region_kind_of(user_tag: u32) -> VMRegionKind {
    if user_tag == 1 {
        VMRegionKind::Malloc
    } else if user_tag == 2 {
        VMRegionKind::MallocSmall
    } else if user_tag == 3 {
        VMRegionKind::MallocLarge
    } else if user_tag == 4 {
        VMRegionKind::MallocHuge
    } else if user_tag == 5 {
        VMRegionKind::Sbrk
    } else if user_tag == 6 {
        VMRegionKind::Realloc
    } else if user_tag == 7 {
        VMRegionKind::MallocTiny
    } else if user_tag == 8 {
        VMRegionKind::MallocLargeReusable
    } else if user_tag == 9 {
        VMRegionKind::MallocLargeReused
    } else if user_tag == 11 {
        VMRegionKind::MallocNano
    } else if user_tag == 30 {
        VMRegionKind::Stack
    } else if user_tag == 33 {
        VMRegionKind::Dylib
    } else if user_tag == 60 {
        VMRegionKind::Dyld
    } else if user_tag == 61 {
        VMRegionKind::DyldMalloc
    } else {
        VMRegionKind::Tag(user_tag)
    }
}

impl From<u32> for VMRegionKind {
    fn from(user_tag: u32) -> Self {
        match user_tag {
            1 => VMRegionKind::Malloc,
            2 => VMRegionKind::MallocSmall,
            3 => VMRegionKind::MallocLarge,
            4 => VMRegionKind::MallocHuge,
            5 => VMRegionKind::Sbrk,
            6 => VMRegionKind::Realloc,
            7 => VMRegionKind::MallocTiny,
            8 => VMRegionKind::MallocLargeReusable,
            9 => VMRegionKind::MallocLargeReused,
            11 => VMRegionKind::MallocNano,
            30 => VMRegionKind::Stack,
            33 => VMRegionKind::Dylib,
            60 => VMRegionKind::Dyld,
            61 => VMRegionKind::DyldMalloc,
            tag => VMRegionKind::Tag(tag),
        }
    }
}

impl vstd::std_specs::convert::FromSpecImpl<u32> for VMRegionKind {
    open spec fn obeys_from_spec() -> bool {
        true
    }

    open spec fn from_spec(user_tag: u32) -> Self {
        region_kind_of(user_tag)
    }
}

} // verus!
