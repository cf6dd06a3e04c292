//! VM file descriptors.
//!
//! A VM is registered before its descriptor is made, so that it is visible by ID
//! from the moment userspace can hold the descriptor. Where making the descriptor
//! fails, the VM is taken off the list again.

use vstd::prelude::*;

use crate::vmx::handler::{BedrockHandler, VmEntry, VmRef};

verus! {

/// Finish creating a VM whose descriptor is `fd`; a negative one is the error
/// number that making it failed with.
pub fn vm_fd_created<const MAX_VMS: usize>(
    handler: &mut BedrockHandler<MAX_VMS>,
    vm: usize,
    fd: i32,
) -> (r: Result<i32, i32>)
    ensures
        final(handler).next_id() == old(handler).next_id(),
        if fd < 0 {
            r == Err::<i32, i32>(fd) && final(handler).entries()
                == crate::vmx::handler::entries_without(old(handler).entries(), vm)
        } else {
            r == Ok::<i32, i32>(fd) && final(handler).entries() == old(handler).entries()
        },
{
    if fd < 0 {
        handler.remove_vm(vm);
        return Err(fd);
    }
    Ok(fd)
}

/// A VM whose descriptor could not be made leaves no trace in the list.
pub proof fn failed_descriptor_leaves_no_trace(entries: Seq<VmEntry>, vm_id: u64, addr: usize)
    requires
        forall|i: int| 0 <= i < entries.len() ==> (#[trigger] entries[i]).vm_ref.addr != addr,
    ensures
        crate::vmx::handler::entries_without(
            entries.push(VmEntry { vm_id, vm_ref: VmRef { addr } }),
            addr,
        ) == entries,
{
    let entry = VmEntry { vm_id, vm_ref: VmRef { addr } };
    assert(entries.push(entry).drop_last() =~= entries);
    lemma_nothing_to_remove(entries, addr);
}

proof fn lemma_nothing_to_remove(entries: Seq<VmEntry>, addr: usize)
    requires
        forall|i: int| 0 <= i < entries.len() ==> (#[trigger] entries[i]).vm_ref.addr != addr,
    ensures
        crate::vmx::handler::entries_without(entries, addr) == entries,
    decreases entries.len(),
{
    if entries.len() > 0 {
        lemma_nothing_to_remove(entries.drop_last(), addr);
        assert(entries.last().vm_ref.addr != addr);
        assert(entries.drop_last().push(entries.last()) =~= entries);
    }
}

} // verus!
