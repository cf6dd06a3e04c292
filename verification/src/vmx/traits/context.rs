//! The `VmContext` trait: what exit handlers need of a VM.

use vstd::prelude::*;

use crate::vmx::exits::helpers::ExitHandlerResult;
use crate::vmx::memory::{GuestPhysAddr, MemoryError};
use crate::vmx::state::VmState;
use crate::vmx::vm::pages::PagePool;

verus! {

/// How many of the `len` bytes from `addr` on come before the first one that
/// is not in `domain`.
pub open spec fn prefix_in(domain: Set<int>, addr: int, len: nat) -> nat
    decreases len,
{
    if len == 0 {
        0
    } else {
        let n = prefix_in(domain, addr, (len - 1) as nat);
        if n == len - 1 && domain.contains(addr + len - 1) {
            len
        } else {
            n
        }
    }
}

/// Whether an access of `len` bytes from `addr` on stays within `domain`. An
/// access of no bytes still touches the page that `addr` lies in.
pub open spec fn within(domain: Set<int>, addr: int, len: nat) -> bool {
    domain.contains(addr) && prefix_in(domain, addr, len) == len
}

/// What a buffer holds after a read into it: the bytes up to the first one
/// that cannot be read, and what it held before from there on.
pub open spec fn read_into(memory: Map<int, u8>, addr: int, buf: Seq<u8>) -> Seq<u8> {
    Seq::new(
        buf.len(),
        |i: int|
            if i < prefix_in(memory.dom(), addr, buf.len()) {
                memory[addr + i]
            } else {
                buf[i]
            },
    )
}

/// Memory after `data` was written from `addr` on.
pub open spec fn written(memory: Map<int, u8>, addr: int, data: Seq<u8>) -> Map<int, u8> {
    Map::new(
        |a: int| memory.contains_key(a),
        |a: int|
            if addr <= a < addr + data.len() {
                data[a - addr]
            } else {
                memory[a]
            },
    )
}

/// Abstraction over VM state.
///
/// Most VM state is accessed via `state()` and `state_mut()` which return
/// references to the `VmState` struct. Memory operations are separate since
/// they differ between root and forked VMs.
pub trait VmContext: Sized {
    /// Everything but the VM state.
    type Frame;

    /// The VM state.
    spec fn vm(&self) -> VmState;

    /// Everything but the VM state.
    spec fn frame(&self) -> Self::Frame;

    /// The VM's own invariant.
    spec fn wf(&self) -> bool;

    /// Whether this VM is a fork of another one.
    spec fn forked(&self) -> bool;

    /// Guest-physical memory as this VM reads it.
    spec fn memory(&self) -> Map<int, u8>;

    /// The addresses that the hypervisor can write for this VM.
    spec fn writable(&self) -> Set<int>;

    /// Memory does not depend on the VM state, and the invariant does so only
    /// through the state's own.
    proof fn lemma_frame(a: &Self, b: &Self)
        requires
            a.frame() == b.frame(),
        ensures
            a.memory() == b.memory(),
            a.writable() == b.writable(),
            a.forked() == b.forked(),
            a.wf() && b.vm().wf() ==> b.wf(),
    ;

    /// A well-formed VM has a well-formed state, and can write only what it
    /// can read.
    proof fn lemma_wf(&self)
        requires
            self.wf(),
        ensures
            self.vm().wf(),
            self.writable().subset_of(self.memory().dom()),
    ;

    /// Returns a reference to the VM state.
    fn state(&self) -> (r: &VmState)
        ensures
            *r == self.vm(),
    ;

    /// Returns a mutable reference to the VM state.
    fn state_mut(&mut self) -> (r: &mut VmState)
        ensures
            *r == old(self).vm(),
            final(self).vm() == *final(r),
            final(self).frame() == old(self).frame(),
    ;

    /// Read guest memory at the given guest physical address.
    fn read_guest_memory(&self, gpa: GuestPhysAddr, buf: &mut [u8]) -> (r: Result<(), MemoryError>)
        requires
            self.wf(),
        ensures
            r == (if within(self.memory().dom(), gpa.addr as int, old(buf)@.len()) {
                Ok::<(), MemoryError>(())
            } else {
                Err(MemoryError::OutOfRange)
            }),
            final(buf)@ == read_into(self.memory(), gpa.addr as int, old(buf)@),
    ;

    /// Write guest memory at the given guest physical address.
    fn write_guest_memory(&mut self, gpa: GuestPhysAddr, buf: &[u8]) -> (r: Result<(), MemoryError>)
        requires
            old(self).wf(),
        ensures
            final(self).wf(),
            r == (if within(old(self).writable(), gpa.addr as int, buf@.len()) {
                Ok::<(), MemoryError>(())
            } else if old(self).forked() {
                Err(MemoryError::PermissionDenied)
            } else {
                Err(MemoryError::OutOfRange)
            }),
            final(self).memory() == written(
                old(self).memory(),
                gpa.addr as int,
                buf@.take(prefix_in(old(self).writable(), gpa.addr as int, buf@.len()) as int),
            ),
            final(self).vm() == old(self).vm(),
            final(self).writable() == old(self).writable(),
            final(self).forked() == old(self).forked(),
    ;

    /// Finalize the pending exit record by computing the memory hash. Each VM
    /// type implements this based on how it accesses guest memory.
    ///
    /// Does nothing if there is no pending exit record.
    fn finalize_exit_record(&mut self)
        requires
            old(self).wf(),
        ensures
            final(self).wf(),
            final(self).frame() == old(self).frame(),
            final(self).vm() == (VmState {
                exit_records: final(self).vm().exit_records,
                pending_exit_loc: None,
                ..old(self).vm()
            }),
            old(self).vm().pending_exit_loc is None ==> final(self).vm() == old(self).vm(),
    ;

    /// Handle a copy-on-write fault at the given guest physical address.
    ///
    /// Called by the EPT violation handler when a write access is made to a
    /// page that is mapped as read-only (R+X) in the EPT.
    ///
    /// For root VMs, this returns `None` (COW not supported). Forked VMs:
    /// 1. Allocate a new page using the provided allocator
    /// 2. Copy the content from the parent page
    /// 3. Remap the EPT entry to point to the new page
    /// 4. Return `Some(ExitHandlerResult::Continue)` to retry the instruction
    ///
    /// Returns `None` if COW is not supported or the fault cannot be handled.
    fn handle_cow_fault(&mut self, gpa: GuestPhysAddr, allocator: &mut PagePool) -> (r: Option<
        ExitHandlerResult,
    >)
        requires
            old(self).wf(),
            old(allocator).wf(),
            old(self).vm().exit_stats.can_count(),
            old(self).vm().debug_watch.evictions < u64::MAX,
        ensures
            final(self).wf(),
            final(allocator).wf(),
            final(self).memory() == old(self).memory(),
            old(self).writable().subset_of(final(self).writable()),
            r is Some ==> r == Some(ExitHandlerResult::Continue),
            !old(self).forked() ==> r is None && *final(self) == *old(self) && *final(allocator)
                == *old(allocator),
    {
        None
    }

    /// Check if this VM is a forked VM (supports copy-on-write).
    ///
    /// Root VMs return `false`, forked VMs return `true`.
    fn is_forked(&self) -> (r: bool)
        ensures
            r == self.forked(),
    ;

    /// Re-protect every tracked watchpoint page that has been let through since
    /// the last re-arm, so that its next write faults again.
    ///
    /// For root VMs, this is a no-op (nothing is watched).
    fn rearm_watchpoints(&mut self)
        requires
            old(self).wf(),
            old(self).vm().exit_stats.can_count(),
            old(self).vm().exit_stats.wp_rearm_pages + old(self).vm().ept@.dom().len() <= u64::MAX,
        ensures
            final(self).wf(),
            final(self).memory() == old(self).memory(),
            final(self).writable() == old(self).writable(),
            !old(self).forked() ==> *final(self) == *old(self),
    {
    }

    /// Copy the pages of a feedback buffer that have not been copied yet, so
    /// that userspace can map them and stay coherent with guest writes.
    ///
    /// For root VMs, this is a no-op (no COW needed).
    fn cow_feedback_buffer_for_mapping(&mut self, index: usize, allocator: &mut PagePool)
        requires
            old(self).wf(),
            old(allocator).wf(),
        ensures
            final(self).wf(),
            final(allocator).wf(),
            final(self).memory() == old(self).memory(),
            old(self).writable().subset_of(final(self).writable()),
            !old(self).forked() ==> *final(self) == *old(self) && *final(allocator) == *old(
                allocator,
            ),
    {
    }

    /// Copy the pages of every registered feedback buffer, so that userspace can
    /// map them without needing to remap when the guest later writes to them.
    ///
    /// For root VMs, this is a no-op (no COW needed).
    fn pre_cow_feedback_buffers(&mut self, allocator: &mut PagePool)
        requires
            old(self).wf(),
            old(allocator).wf(),
        ensures
            final(self).wf(),
            final(allocator).wf(),
            final(self).memory() == old(self).memory(),
            old(self).writable().subset_of(final(self).writable()),
            !old(self).forked() ==> *final(self) == *old(self) && *final(allocator) == *old(
                allocator,
            ),
    {
    }

    /// Copy the pages of the feedback buffer at a specific index, as when the
    /// guest registers it after the fork.
    ///
    /// For root VMs, this is a no-op (no COW needed).
    fn pre_cow_feedback_buffer_at(&mut self, index: usize, allocator: &mut PagePool)
        requires
            old(self).wf(),
            old(allocator).wf(),
        ensures
            final(self).wf(),
            final(allocator).wf(),
            final(self).memory() == old(self).memory(),
            old(self).writable().subset_of(final(self).writable()),
            !old(self).forked() ==> *final(self) == *old(self) && *final(allocator) == *old(
                allocator,
            ),
    {
    }

    /// Copy the I/O channel's shared page (if registered), so that
    /// hypervisor-side writes to it do not hit a page that is still shared with
    /// the parent.
    ///
    /// Unlike the guest, the hypervisor writes into the shared page from the
    /// VMCALL handler context - no EPT violation gets generated, so the lazy
    /// copy-on-write path does not run. For root VMs this is a no-op.
    fn pre_cow_io_channel_page(&mut self, allocator: &mut PagePool)
        requires
            old(self).wf(),
            old(allocator).wf(),
        ensures
            final(self).wf(),
            final(allocator).wf(),
            final(self).memory() == old(self).memory(),
            old(self).writable().subset_of(final(self).writable()),
            !old(self).forked() ==> *final(self) == *old(self) && *final(allocator) == *old(
                allocator,
            ),
    {
    }
}

/// A successful read gives exactly the bytes of memory.
pub proof fn successful_read_is_exact(memory: Map<int, u8>, addr: int, buf: Seq<u8>, i: int)
    requires
        within(memory.dom(), addr, buf.len()),
        0 <= i < buf.len(),
    ensures
        memory.contains_key(addr + i),
        read_into(memory, addr, buf)[i] == memory[addr + i],
{
    lemma_prefix(memory.dom(), addr, buf.len(), i);
}

/// A read after a write gives back what was written.
pub proof fn read_after_write(memory: Map<int, u8>, addr: int, data: Seq<u8>, buf: Seq<u8>)
    requires
        within(memory.dom(), addr, data.len()),
        buf.len() == data.len(),
    ensures
        read_into(written(memory, addr, data), addr, buf) == data,
{
    let after = written(memory, addr, data);
    assert(after.dom() =~= memory.dom());
    assert forall|i: int| 0 <= i < data.len() implies read_into(after, addr, buf)[i] == data[i] by {
        lemma_prefix(memory.dom(), addr, data.len(), i);
    }
    assert(read_into(after, addr, buf) =~= data);
}

/// A write leaves every byte outside its range alone.
pub proof fn write_is_local(memory: Map<int, u8>, addr: int, data: Seq<u8>, a: int)
    requires
        a < addr || addr + data.len() <= a,
    ensures
        written(memory, addr, data).contains_key(a) == memory.contains_key(a),
        memory.contains_key(a) ==> written(memory, addr, data)[a] == memory[a],
{
}

/// Two adjacent writes are one.
pub proof fn lemma_written_twice(memory: Map<int, u8>, addr: int, first: Seq<u8>, second: Seq<u8>)
    ensures
        written(written(memory, addr, first), addr + first.len(), second) == written(
            memory,
            addr,
            first + second,
        ),
{
    assert(written(written(memory, addr, first), addr + first.len(), second) =~= written(
        memory,
        addr,
        first + second,
    ));
}

/// The bytes of a prefix are all in the domain, and the one after it is not.
pub proof fn lemma_prefix(domain: Set<int>, addr: int, len: nat, i: int)
    ensures
        prefix_in(domain, addr, len) <= len,
        0 <= i < prefix_in(domain, addr, len) ==> domain.contains(addr + i),
        prefix_in(domain, addr, len) < len ==> !domain.contains(
            addr + prefix_in(domain, addr, len),
        ),
    decreases len,
{
    if len > 0 {
        lemma_prefix(domain, addr, (len - 1) as nat, i);
    }
}

/// A prefix is known by its bytes and by the one after it.
pub proof fn lemma_prefix_is(domain: Set<int>, addr: int, len: nat, n: nat)
    requires
        n <= len,
        forall|a: int| addr <= a < addr + n ==> domain.contains(a),
        n < len ==> !domain.contains(addr + n),
    ensures
        prefix_in(domain, addr, len) == n,
    decreases len,
{
    if len > 0 {
        if n < len {
            lemma_prefix_is(domain, addr, (len - 1) as nat, n);
        } else {
            lemma_prefix_is(domain, addr, (len - 1) as nat, (n - 1) as nat);
        }
    }
}

/// An access stays within memory exactly if its first byte and every byte that it
/// covers do.
pub proof fn access_is_within_if_every_byte_is(domain: Set<int>, addr: int, len: nat)
    ensures
        within(domain, addr, len) == (domain.contains(addr) && forall|i: int|
            0 <= i < len ==> #[trigger] domain.contains(addr + i)),
{
    let n = prefix_in(domain, addr, len);
    lemma_prefix(domain, addr, len, 0);
    if within(domain, addr, len) {
        assert forall|i: int| 0 <= i < len implies #[trigger] domain.contains(addr + i) by {
            lemma_prefix(domain, addr, len, i);
        }
    } else if domain.contains(addr) {
        assert(n < len);
        assert(!domain.contains(addr + n as int));
    }
}

/// A refused read still gives every byte up to the first that is not there, and
/// leaves the buffer as it was from there on.
pub proof fn refused_read_gives_a_prefix(memory: Map<int, u8>, addr: int, buf: Seq<u8>, k: nat, i: int)
    requires
        k < buf.len(),
        forall|j: int| 0 <= j < k ==> #[trigger] memory.dom().contains(addr + j),
        !memory.contains_key(addr + k),
        0 <= i < buf.len(),
    ensures
        !within(memory.dom(), addr, buf.len()),
        read_into(memory, addr, buf)[i] == (if i < k {
            memory[addr + i]
        } else {
            buf[i]
        }),
{
    assert forall|a: int| addr <= a < addr + k implies memory.dom().contains(a) by {
        assert(memory.dom().contains(addr + (a - addr)));
    }
    lemma_prefix_is(memory.dom(), addr, buf.len(), k);
}

} // verus!
