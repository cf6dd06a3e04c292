//! The chain of VMs behind a fork.

use vstd::prelude::*;
use vstd::slice::slice_subrange;

use super::forked::ForkedVm;
use super::root::RootVm;
use crate::vmx::memory::{GuestPhysAddr, MemoryError, PAGE_SIZE};
use crate::vmx::traits::context::VmContext;

verus! {

/// The VM that a fork reads its unmodified pages from.
///
/// The reference is shared for as long as the fork lives, so the parent can
/// neither run nor change under it.
#[derive(Clone, Copy)]
pub enum ParentVm<'a> {
    /// A VM that owns its memory.
    Root(&'a RootVm),
    /// A fork, whose own copies come before its parent's pages.
    Forked(&'a ForkedVm<'a>),
}

impl<'a> ParentVm<'a> {
    pub open spec fn wf(&self) -> bool
        decreases *self,
    {
        match *self {
            ParentVm::Root(vm) => vm.inv(),
            ParentVm::Forked(vm) => vm.inv(),
        }
    }

    /// Size of guest memory in bytes.
    pub open spec fn size(&self) -> int
        decreases *self,
    {
        match *self {
            ParentVm::Root(vm) => vm.memory.len() as int,
            ParentVm::Forked(vm) => vm.parent.size(),
        }
    }

    /// Contents of the page at address `page`.
    pub open spec fn page(&self, page: u64) -> Seq<u8>
        decreases *self,
    {
        match *self {
            ParentVm::Root(vm) => vm.memory@.subrange(page as int, page + 4096),
            ParentVm::Forked(vm) => vm.page(page),
        }
    }

    /// Guest memory, byte by byte.
    pub open spec fn bytes(&self) -> Map<int, u8> {
        Map::new(
            |a: int| 0 <= a < self.size(),
            |a: int|
                self.page(crate::vmx::memory::page_base(a as u64))[crate::vmx::memory::page_offset(
                    a as u64,
                )],
        )
    }

    /// Sizes are whole pages that the machine can address, and pages are 4 KiB.
    pub proof fn lemma_shape(&self)
        requires
            self.wf(),
        ensures
            0 <= self.size() <= usize::MAX,
            self.size() % 4096 == 0,
            forall|p: u64|
                p % 4096 == 0 && p + 4096 <= self.size() ==> (#[trigger] self.page(p)).len()
                    == 4096,
        decreases *self,
    {
        match *self {
            ParentVm::Root(vm) => {},
            ParentVm::Forked(vm) => {
                vm.parent.lemma_shape();
                assert forall|p: u64| p % 4096 == 0 && p + 4096 <= self.size() implies (
                #[trigger] self.page(p)).len() == 4096 by {
                    assert(vm.parent.page(p).len() == 4096);
                }
            },
        }
    }

    /// Size of guest memory in bytes.
    pub fn memory_size(&self) -> (r: usize)
        requires
            self.wf(),
        ensures
            r == self.size(),
        decreases *self,
    {
        match *self {
            ParentVm::Root(vm) => vm.memory.len(),
            ParentVm::Forked(vm) => vm.parent.memory_size(),
        }
    }

    /// The page that holds `gpa`, found by walking the chain: the nearest copy,
    /// else the root's memory. `None` outside guest memory.
    pub fn read_page(&self, gpa: GuestPhysAddr) -> (r: Option<&'a [u8]>)
        requires
            self.wf(),
        ensures
            match r {
                Some(bytes) => crate::vmx::memory::page_base(gpa.addr) + 4096 <= self.size()
                    && bytes@ == self.page(crate::vmx::memory::page_base(gpa.addr)),
                None => crate::vmx::memory::page_base(gpa.addr) + 4096 > self.size(),
            },
        decreases *self,
    {
        let page = gpa.page();
        proof {
            crate::vmx::memory::page_base_is_idempotent(gpa.addr);
        }
        match *self {
            ParentVm::Root(vm) => {
                let size: usize = vm.memory.len();
                if size < PAGE_SIZE || page.as_u64() > (size - PAGE_SIZE) as u64 {
                    return None;
                }
                let start: usize = page.as_u64() as usize;
                Some(slice_subrange(vm.memory.as_slice(), start, start + PAGE_SIZE))
            },
            ParentVm::Forked(vm) => {
                if let Some(copy) = vm.cow_pages.get(page) {
                    proof {
                        assert(vm.cow_pages@.contains_key(page.addr));
                    }
                    Some(copy.bytes.as_slice())
                } else {
                    vm.parent.read_page(page)
                }
            },
        }
    }

    /// Read guest memory, page by page, up to the end of the buffer or of
    /// guest memory.
    pub fn read_memory(&self, gpa: GuestPhysAddr, buf: &mut [u8]) -> (r: Result<(), MemoryError>)
        requires
            self.wf(),
        ensures
            r == (if crate::vmx::traits::context::within(
                self.bytes().dom(),
                gpa.addr as int,
                old(buf)@.len(),
            ) {
                Ok::<(), MemoryError>(())
            } else {
                Err(MemoryError::OutOfRange)
            }),
            final(buf)@ == crate::vmx::traits::context::read_into(
                self.bytes(),
                gpa.addr as int,
                old(buf)@,
            ),
    {
        let len: usize = buf.len();
        let mut cur: u64 = gpa.as_u64();
        let mut done: usize = 0;
        proof {
            self.lemma_shape();
        }
        loop
            invariant
                self.wf(),
                0 <= self.size() <= usize::MAX,
                self.size() % 4096 == 0,
                buf@.len() == len,
                len == old(buf)@.len(),
                done <= len,
                done == 0 || done < len,
                cur == gpa.addr + done,
                done > 0 ==> gpa.addr < self.size() && cur <= self.size(),
                forall|i: int|
                    0 <= i < len ==> #[trigger] buf@[i] == (if i < done {
                        self.bytes()[gpa.addr + i]
                    } else {
                        old(buf)@[i]
                    }),
            decreases len - done,
        {
            let at = GuestPhysAddr::new(cur);
            let offset: usize = at.offset();
            proof {
                crate::vmx::memory::page_base_is_idempotent(cur);
                self.lemma_shape();
            }
            let page = match self.read_page(at) {
                Some(page) => page,
                None => {
                    proof {
                        assert(cur >= self.size()) by {
                            lemma_outside(cur, self.size());
                        }
                        crate::vmx::traits::context::lemma_prefix_is(
                            self.bytes().dom(),
                            gpa.addr as int,
                            len as nat,
                            done as nat,
                        );
                        assert(buf@ =~= crate::vmx::traits::context::read_into(
                            self.bytes(),
                            gpa.addr as int,
                            old(buf)@,
                        ));
                    }
                    return Err(MemoryError::OutOfRange);
                },
            };
            let room: usize = PAGE_SIZE - offset;
            let n: usize = if len - done <= room {
                len - done
            } else {
                room
            };
            let ghost before = buf@;
            copy_into(buf, done, page, offset, n);
            proof {
                assert forall|i: int| 0 <= i < len implies #[trigger] buf@[i] == (if i < done + n {
                    self.bytes()[gpa.addr + i]
                } else {
                    old(buf)@[i]
                }) by {
                    if done <= i < done + n {
                        lemma_same_page(cur, (i - done) as u64);
                    } else {
                        assert(buf@[i] == before[i]);
                    }
                }
            }
            done += n;
            if done == len {
                proof {
                    crate::vmx::traits::context::lemma_prefix_is(
                        self.bytes().dom(),
                        gpa.addr as int,
                        len as nat,
                        len as nat,
                    );
                    assert(buf@ =~= crate::vmx::traits::context::read_into(
                        self.bytes(),
                        gpa.addr as int,
                        old(buf)@,
                    ));
                }
                return Ok(());
            }
            cur += n as u64;
        }
    }
}

/// The next count; counts wrap around.
pub open spec fn one_more(count: usize) -> usize {
    if count == usize::MAX {
        0
    } else {
        (count + 1) as usize
    }
}

/// The count before; counts wrap around.
pub open spec fn one_less(count: usize) -> usize {
    if count == 0 {
        usize::MAX
    } else {
        (count - 1) as usize
    }
}

/// Taking a child off undoes counting it.
pub proof fn child_counts_balance(count: usize)
    ensures
        one_less(one_more(count)) == count,
        count < usize::MAX ==> one_more(count) == count + 1,
        count > 0 ==> one_less(count) == count - 1,
        one_more(one_less(count)) == count,
{
}

/// A VM that can be forked.
pub trait ForkableVm: VmContext {
    /// This VM as the parent of a fork.
    spec fn parent_view(&self) -> ParentVm<'_>;

    /// Number of forks derived from this VM.
    spec fn children(&self) -> usize;

    /// A fork sees the memory of the VM that it was made from.
    proof fn lemma_parent(&self)
        requires
            self.wf(),
        ensures
            self.parent_view().wf(),
            self.parent_view().bytes() == self.memory(),
    ;

    /// This VM as the parent of a fork.
    fn as_parent(&self) -> (r: ParentVm<'_>)
        ensures
            r == self.parent_view(),
    ;

    /// Note that a fork is made from this VM.
    fn add_child(&mut self)
        ensures
            final(self).vm() == old(self).vm(),
            final(self).memory() == old(self).memory(),
            final(self).writable() == old(self).writable(),
            final(self).wf() == old(self).wf(),
            final(self).children() == one_more(old(self).children()),
    ;

    /// Note that a fork of this VM is gone.
    fn remove_child(&mut self)
        ensures
            final(self).vm() == old(self).vm(),
            final(self).memory() == old(self).memory(),
            final(self).writable() == old(self).writable(),
            final(self).wf() == old(self).wf(),
            final(self).children() == one_less(old(self).children()),
    ;

    /// Number of forks derived from this VM.
    fn children_count(&self) -> (r: usize)
        ensures
            r == self.children(),
    ;

    /// Whether this VM may run: not while it has forks, which read its memory.
    fn can_run(&self) -> (r: bool)
        ensures
            r == (self.children() == 0),
    {
        self.children_count() == 0
    }
}

impl ForkableVm for RootVm {
    open spec fn parent_view(&self) -> ParentVm<'_> {
        ParentVm::Root(self)
    }

    open spec fn children(&self) -> usize {
        self.children_count
    }

    proof fn lemma_parent(&self) {
    }

    fn as_parent(&self) -> ParentVm<'_> {
        ParentVm::Root(self)
    }

    fn add_child(&mut self)
        ensures
            *final(self) == (RootVm {
                children_count: final(self).children_count,
                ..*old(self)
            }),
    {
        self.children_count = self.children_count.wrapping_add(1);
        assert(self.memory() =~= old(self).memory());
    }

    fn remove_child(&mut self)
        ensures
            *final(self) == (RootVm {
                children_count: final(self).children_count,
                ..*old(self)
            }),
    {
        self.children_count = self.children_count.wrapping_sub(1);
        assert(self.memory() =~= old(self).memory());
    }

    fn children_count(&self) -> usize {
        self.children_count
    }
}

impl<'a> ForkableVm for ForkedVm<'a> {
    open spec fn parent_view(&self) -> ParentVm<'_> {
        ParentVm::Forked(self)
    }

    open spec fn children(&self) -> usize {
        self.children_count
    }

    proof fn lemma_parent(&self) {
    }

    fn as_parent(&self) -> ParentVm<'_> {
        ParentVm::Forked(self)
    }

    fn add_child(&mut self)
        ensures
            *final(self) == (ForkedVm {
                children_count: final(self).children_count,
                ..*old(self)
            }),
    {
        self.children_count = self.children_count.wrapping_add(1);
        proof {
            super::forked::lemma_memory_of(*old(self), *self);
        }
    }

    fn remove_child(&mut self)
        ensures
            *final(self) == (ForkedVm {
                children_count: final(self).children_count,
                ..*old(self)
            }),
    {
        self.children_count = self.children_count.wrapping_sub(1);
        proof {
            super::forked::lemma_memory_of(*old(self), *self);
        }
    }

    fn children_count(&self) -> usize {
        self.children_count
    }
}

/// Copy `n` bytes of `src`, from `from` on, to `buf` at `at`.
fn copy_into(buf: &mut [u8], at: usize, src: &[u8], from: usize, n: usize)
    requires
        at + n <= old(buf).len(),
        from + n <= src.len(),
    ensures
        final(buf)@.len() == old(buf)@.len(),
        forall|i: int|
            0 <= i < old(buf)@.len() ==> #[trigger] final(buf)@[i] == (if at <= i < at + n {
                src@[from + i - at]
            } else {
                old(buf)@[i]
            }),
{
    let mut i: usize = 0;
    while i < n
        invariant
            i <= n,
            buf@.len() == old(buf)@.len(),
            at + n <= buf.len(),
            from + n <= src.len(),
            forall|j: int|
                0 <= j < buf@.len() ==> #[trigger] buf@[j] == (if at <= j < at + i {
                    src@[from + j - at]
                } else {
                    old(buf)@[j]
                }),
        decreases n - i,
    {
        buf[at + i] = src[from + i];
        i += 1;
    }
}

/// An address whose page does not fit in whole-page memory lies outside it.
proof fn lemma_outside(addr: u64, size: int)
    requires
        size % 4096 == 0,
        crate::vmx::memory::page_base(addr) + 4096 > size,
    ensures
        addr >= size,
{
}

/// Addresses up to the end of a page share its base.
pub proof fn lemma_same_page(addr: u64, i: u64)
    requires
        crate::vmx::memory::page_offset(addr) + i < 4096,
        addr + i <= u64::MAX,
    ensures
        crate::vmx::memory::page_base((addr + i) as u64) == crate::vmx::memory::page_base(addr),
        crate::vmx::memory::page_offset((addr + i) as u64) == crate::vmx::memory::page_offset(addr)
            + i,
{
}

} // verus!
