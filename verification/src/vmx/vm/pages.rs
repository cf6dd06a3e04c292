//! Guest memory pages and the pool that copies are taken from.

use vstd::prelude::*;

use crate::vmx::compat::AllocError;
use crate::vmx::memory::{HostPhysAddr, PAGE_SIZE};

verus! {

/// One host page that holds guest memory.
pub struct GuestPage {
    /// Its contents.
    pub bytes: Vec<u8>,
    /// The host frame it occupies.
    pub phys: HostPhysAddr,
}

impl GuestPage {
    /// A page is 4 KiB.
    pub open spec fn wf(&self) -> bool {
        self.bytes@.len() == 4096
    }

    /// A zeroed page in the given frame.
    pub fn new(phys: HostPhysAddr) -> (p: Self)
        ensures
            p.wf(),
            p.phys == phys,
            forall|i: int| 0 <= i < 4096 ==> #[trigger] p.bytes@[i] == 0,
    {
        let mut bytes: Vec<u8> = Vec::new();
        let mut i: usize = 0;
        while i < PAGE_SIZE
            invariant
                i <= 4096,
                bytes@.len() == i,
                forall|j: int| 0 <= j < i ==> #[trigger] bytes@[j] == 0,
            decreases 4096 - i,
        {
            bytes.push(0);
            i += 1;
        }
        GuestPage { bytes, phys }
    }
}

/// Pages set aside for copy-on-write.
pub struct PagePool {
    /// The free pages; the last one is handed out first.
    pub pages: Vec<GuestPage>,
}

impl View for PagePool {
    type V = Seq<GuestPage>;

    open spec fn view(&self) -> Seq<GuestPage> {
        self.pages@
    }
}

impl PagePool {
    pub open spec fn wf(&self) -> bool {
        forall|i: int| 0 <= i < self@.len() ==> (#[trigger] self@[i]).wf()
    }

    /// An empty pool.
    pub fn new() -> (p: Self)
        ensures
            p.wf(),
            p@ == Seq::<GuestPage>::empty(),
    {
        PagePool { pages: Vec::new() }
    }

    /// Put a page into the pool.
    pub fn add(&mut self, page: GuestPage)
        requires
            old(self).wf(),
            page.wf(),
        ensures
            final(self).wf(),
            final(self)@ == old(self)@.push(page),
    {
        self.pages.push(page);
    }

    /// Take a page out of the pool.
    pub fn allocate_cow_page(&mut self) -> (r: Result<GuestPage, AllocError>)
        requires
            old(self).wf(),
        ensures
            final(self).wf(),
            old(self)@.len() == 0 ==> r == Err::<GuestPage, AllocError>(AllocError) && final(self)@
                == old(self)@,
            old(self)@.len() > 0 ==> r == Ok::<GuestPage, AllocError>(old(self)@.last())
                && final(self)@ == old(self)@.drop_last(),
    {
        match self.pages.pop() {
            Some(page) => Ok(page),
            None => Err(AllocError),
        }
    }
}

} // verus!
