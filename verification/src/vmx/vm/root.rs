//! RootVm - a VM that owns its memory.

use vstd::prelude::*;

use super::parent::ParentVm;
use crate::vmx::exit_record::hash::hash_guest_memory;
use crate::vmx::memory::{GuestPhysAddr, MemoryError};
use crate::vmx::state::VmState;
use crate::vmx::traits::context::VmContext;

verus! {

/// A VM that owns its memory.
pub struct RootVm {
    /// VM state (VMCS, registers, devices, etc.).
    pub state: VmState,
    /// Guest memory, from guest-physical address 0 on.
    pub memory: Vec<u8>,
    /// Number of forks derived from this VM.
    pub children_count: usize,
}

impl RootVm {
    pub open spec fn inv(&self) -> bool {
        &&& self.state.wf()
        &&& self.memory.len() % 4096 == 0
    }

    /// A VM over whole pages of memory.
    pub fn new(state: VmState, memory: Vec<u8>) -> (r: Self)
        requires
            state.wf(),
            memory.len() % 4096 == 0,
        ensures
            r.inv(),
            r.state == state,
            r.memory == memory,
            r.children_count == 0,
    {
        RootVm { state, memory, children_count: 0 }
    }
}

/// The exit records of a root VM once the pending one is finalized, given the
/// digest of its memory.
pub open spec fn root_records_with(vm: RootVm, digest: u64) -> Seq<
    crate::vmx::exit_record::record::ExitRecord,
> {
    crate::vmx::state::finalized_records(
        vm.state.exit_records@,
        vm.state.pending_exit_loc,
        if vm.state.hashes_memory() {
            digest
        } else {
            0
        },
        0,
    )
}

/// The exit records of a root VM once the pending one is finalized.
pub open spec fn root_records(vm: RootVm) -> Seq<crate::vmx::exit_record::record::ExitRecord> {
    root_records_with(vm, crate::vmx::exit_record::hash::digest(vm.memory@))
}

impl RootVm {
    /// The bytes that the pending exit record's memory hash is taken of: all of
    /// the guest's memory. `None` where no record awaits a memory hash.
    pub fn exit_memory_stream(&self) -> (r: Option<&[u8]>)
        ensures
            match r {
                Some(bytes) => self.state.awaits_memory_hash() && bytes@ == self.memory@,
                None => !self.state.awaits_memory_hash(),
            },
    {
        if self.state.needs_memory_hash() {
            Some(self.memory.as_slice())
        } else {
            None
        }
    }

    /// Finalize the pending exit record with the digest of what
    /// `exit_memory_stream` gave. The digest is not used where it gave nothing.
    pub fn finalize_exit_record_with(&mut self, digest: u64)
        requires
            old(self).inv(),
        ensures
            final(self).inv(),
            final(self).memory == old(self).memory,
            final(self).children_count == old(self).children_count,
            final(self).state == (VmState {
                exit_records: final(self).state.exit_records,
                pending_exit_loc: None,
                ..old(self).state
            }),
            final(self).state.exit_records@ == root_records_with(*old(self), digest),
            old(self).state.pending_exit_loc is None ==> *final(self) == *old(self),
    {
        // Nothing to do unless an `Exit` event awaits its deferred memory hash.
        if self.state.pending_exit_loc.is_none() {
            return ;
        }
        let memory_hash: u64 = if self.state.needs_memory_hash() {
            digest
        } else {
            0
        };
        self.state.finalize_exit_memory_hash(memory_hash, 0);
    }
}

impl VmContext for RootVm {
    type Frame = (Vec<u8>, usize);

    open spec fn vm(&self) -> VmState {
        self.state
    }

    open spec fn frame(&self) -> (Vec<u8>, usize) {
        (self.memory, self.children_count)
    }

    open spec fn wf(&self) -> bool {
        self.inv()
    }

    open spec fn forked(&self) -> bool {
        false
    }

    open spec fn memory(&self) -> Map<int, u8> {
        ParentVm::Root(self).bytes()
    }

    open spec fn writable(&self) -> Set<int> {
        self.memory().dom()
    }

    proof fn lemma_frame(a: &Self, b: &Self) {
        assert(a.memory() =~= b.memory());
    }

    proof fn lemma_wf(&self) {
    }

    fn state(&self) -> &VmState {
        &self.state
    }

    fn state_mut(&mut self) -> &mut VmState {
        &mut self.state
    }

    fn read_guest_memory(&self, gpa: GuestPhysAddr, buf: &mut [u8]) -> Result<(), MemoryError> {
        ParentVm::Root(self).read_memory(gpa, buf)
    }

    fn write_guest_memory(&mut self, gpa: GuestPhysAddr, buf: &[u8]) -> (r: Result<
        (),
        MemoryError,
    >)
        ensures
            final(self).children_count == old(self).children_count,
            final(self).memory@.len() == old(self).memory@.len(),
    {
        let size: usize = self.memory.len();
        let addr: u64 = gpa.as_u64();
        let ghost start = self.memory();
        let ghost all = self.writable();
        if addr >= size as u64 {
            proof {
                crate::vmx::traits::context::lemma_prefix_is(all, addr as int, buf@.len(), 0);
                assert(self.memory() =~= crate::vmx::traits::context::written(
                    start,
                    addr as int,
                    buf@.take(0),
                ));
            }
            return Err(MemoryError::OutOfRange);
        }
        let at: usize = addr as usize;
        let room: usize = size - at;
        let n: usize = if buf.len() <= room {
            buf.len()
        } else {
            room
        };
        let mut i: usize = 0;
        while i < n
            invariant
                i <= n,
                n <= buf@.len(),
                at + n <= size,
                self.memory@.len() == size,
                size == old(self).memory@.len(),
                self.state == old(self).state,
                self.children_count == old(self).children_count,
                forall|j: int|
                    0 <= j < size ==> #[trigger] self.memory@[j] == (if at <= j < at + i {
                        buf@[j - at]
                    } else {
                        old(self).memory@[j]
                    }),
            decreases n - i,
        {
            self.memory.set(at + i, buf[i]);
            i += 1;
        }
        proof {
            crate::vmx::traits::context::lemma_prefix_is(all, addr as int, buf@.len(), n as nat);
            lemma_root_bytes(*self);
            lemma_root_bytes(*old(self));
            assert(self.memory() =~= crate::vmx::traits::context::written(
                start,
                addr as int,
                buf@.take(n as int),
            ));
            assert(self.writable() =~= all);
        }
        if n < buf.len() {
            Err(MemoryError::OutOfRange)
        } else {
            Ok(())
        }
    }

    fn finalize_exit_record(&mut self)
        ensures
            final(self).state.exit_records@ == root_records(*old(self)),
    {
        let digest: u64 = match self.exit_memory_stream() {
            Some(bytes) => hash_guest_memory(bytes),
            None => 0,
        };
        self.finalize_exit_record_with(digest);
    }

    fn is_forked(&self) -> bool {
        false
    }
}

/// A root VM's memory is its bytes.
pub proof fn lemma_root_bytes(vm: RootVm)
    requires
        vm.memory.len() % 4096 == 0,
    ensures
        forall|a: int|
            0 <= a < vm.memory.len() ==> vm.memory().contains_key(a) && #[trigger] vm.memory()[a]
                == vm.memory@[a],
{
    assert forall|a: int| 0 <= a < vm.memory.len() implies vm.memory().contains_key(a)
        && #[trigger] vm.memory()[a] == vm.memory@[a] by {
        crate::vmx::memory::page_base_is_idempotent(a as u64);
    }
}

} // verus!
