//! Guest and host physical addresses and page arithmetic.

use vstd::prelude::*;

verus! {

/// Size of one page in bytes.
pub const PAGE_SIZE: usize = 4096;

/// A guest physical address.
#[derive(Clone, Copy, PartialEq, Eq, Debug, Structural)]
pub struct GuestPhysAddr {
    pub addr: u64,
}

/// A host physical address.
#[derive(Clone, Copy, PartialEq, Eq, Debug, Structural)]
pub struct HostPhysAddr {
    pub addr: u64,
}

/// The address of the page that holds `addr`.
pub open spec fn page_base(addr: u64) -> u64 {
    (addr - addr % 4096) as u64
}

/// Where `addr` lies within its page.
pub open spec fn page_offset(addr: u64) -> int {
    addr as int % 4096
}

impl GuestPhysAddr {
    pub fn new(addr: u64) -> (r: Self)
        ensures
            r.addr == addr,
    {
        GuestPhysAddr { addr }
    }

    pub fn as_u64(&self) -> (r: u64)
        ensures
            r == self.addr,
    {
        self.addr
    }

    /// The address of the page that holds this address.
    pub fn page(&self) -> (r: GuestPhysAddr)
        ensures
            r.addr == page_base(self.addr),
    {
        let addr: u64 = self.addr;
        assert(addr & !0xFFFu64 == addr - addr % 4096) by (bit_vector);
        GuestPhysAddr { addr: addr & !0xFFF }
    }

    /// Where this address lies within its page.
    pub fn offset(&self) -> (r: usize)
        ensures
            r == page_offset(self.addr),
            r < PAGE_SIZE,
    {
        let addr: u64 = self.addr;
        assert(addr & 0xFFFu64 == addr % 4096) by (bit_vector);
        (addr & 0xFFF) as usize
    }
}

impl HostPhysAddr {
    pub fn new(addr: u64) -> (r: Self)
        ensures
            r.addr == addr,
    {
        HostPhysAddr { addr }
    }

    pub fn as_u64(&self) -> (r: u64)
        ensures
            r == self.addr,
    {
        self.addr
    }
}

/// Why a guest memory access was refused.
#[derive(Clone, Copy, PartialEq, Eq, Debug, Structural)]
pub enum MemoryError {
    /// The address lies outside guest memory.
    OutOfRange,
    /// The page is shared with the parent and has no private copy yet.
    PermissionDenied,
}

/// A page address is its own page's address.
pub proof fn page_base_is_idempotent(addr: u64)
    ensures
        page_base(addr) % 4096 == 0,
        page_base(page_base(addr)) == page_base(addr),
        page_base(addr) + page_offset(addr) == addr,
{
}

} // verus!
