//! Bedrock handler implementation.
//!
//! The handler tracks active VMs. VMs are owned by file descriptors, but the
//! handler maintains a list of all VMs for administration purposes.

use vstd::prelude::*;

use super::compat::{heap_vec_push, heap_vec_with_capacity, HeapVec};

verus! {

/// VMX could not be initialized.
#[derive(Clone, Copy, PartialEq, Eq, Debug, Structural)]
pub enum VmxInitError {
    /// The processor does not support VMX, or firmware has locked it off.
    NotSupported,
    /// Memory could not be allocated.
    MemoryAllocationFailed,
}

/// Opaque VM reference: the address that identifies a VM. It is only compared.
#[derive(Clone, Copy, PartialEq, Eq, Debug, Structural)]
pub struct VmRef {
    pub addr: usize,
}

impl VmRef {
    /// Create a new VmRef from a VM's address.
    pub fn new(addr: usize) -> (r: Self)
        ensures
            r.addr == addr,
    {
        VmRef { addr }
    }

    /// Get the VM's address.
    pub fn as_ptr(&self) -> (r: usize)
        ensures
            r == self.addr,
    {
        self.addr
    }
}

/// VM entry in the tracking list, containing both the ID and reference.
#[derive(Clone, Copy, PartialEq, Eq, Debug, Structural)]
pub struct VmEntry {
    /// Unique VM identifier.
    pub vm_id: u64,
    /// Reference to the VM while it is open and visible by ID.
    pub vm_ref: VmRef,
}

impl VmEntry {
    /// Create a new VmEntry.
    pub fn new(vm_id: u64, vm_ref: VmRef) -> (r: Self)
        ensures
            r == (VmEntry { vm_id, vm_ref }),
    {
        VmEntry { vm_id, vm_ref }
    }
}

/// The bedrock hypervisor handler.
///
/// This handler manages:
/// - A list of all active VMs
/// - VM ID allocation
///
/// # Type Parameters
///
/// * `MAX_VMS` - Maximum number of VMs that can be tracked
pub struct BedrockHandler<const MAX_VMS: usize> {
    /// References to all active VMs while they are visible by ID.
    vm_list: HeapVec<VmEntry>,
    /// Next VM ID to assign (monotonically increasing).
    next_vm_id: u64,
}

/// The entries that do not name the VM at `addr`, in order.
pub open spec fn entries_without(entries: Seq<VmEntry>, addr: usize) -> Seq<VmEntry>
    decreases entries.len(),
{
    if entries.len() == 0 {
        entries
    } else {
        let rest = entries_without(entries.drop_last(), addr);
        if entries.last().vm_ref.addr == addr {
            rest
        } else {
            rest.push(entries.last())
        }
    }
}

/// The VM that the first entry with the given ID names.
pub open spec fn first_with_id(entries: Seq<VmEntry>, vm_id: u64) -> Option<VmRef>
    decreases entries.len(),
{
    if entries.len() == 0 {
        None
    } else {
        match first_with_id(entries.drop_last(), vm_id) {
            Some(r) => Some(r),
            None => if entries.last().vm_id == vm_id {
                Some(entries.last().vm_ref)
            } else {
                None
            },
        }
    }
}

/// The ID that a VM gets while `count` VMs are known, with room for `max`, and the next
/// one's.
pub open spec fn id_given(count: nat, max: usize, next: u64) -> (Option<u64>, int) {
    if count < max {
        (Some(next), next + 1)
    } else {
        (None, next as int)
    }
}

impl<const MAX_VMS: usize> BedrockHandler<MAX_VMS> {
    /// The tracked VMs, in the order in which they were registered.
    pub closed spec fn entries(&self) -> Seq<VmEntry> {
        self.vm_list@
    }

    /// The ID that the next VM gets.
    pub closed spec fn next_id(&self) -> u64 {
        self.next_vm_id
    }

    /// Create a new handler, given what came of initializing VMX on all
    /// processors.
    ///
    /// # Errors
    ///
    /// Returns that error if VMX initialization failed.
    pub fn new(initialized: Result<(), VmxInitError>) -> (r: Result<Self, VmxInitError>)
        ensures
            match initialized {
                Ok(()) => r is Ok && r->Ok_0.entries() == Seq::<VmEntry>::empty()
                    && r->Ok_0.next_id() == 1,
                Err(e) => r == Err::<Self, VmxInitError>(e),
            },
    {
        if let Err(e) = initialized {
            return Err(e);
        }
        match heap_vec_with_capacity(MAX_VMS) {
            Ok(vm_list) => Ok(BedrockHandler { vm_list, next_vm_id: 1 }),
            Err(_) => Err(VmxInitError::MemoryAllocationFailed),
        }
    }

    /// Check if we can create more VMs.
    pub fn can_create_vm(&self) -> (r: bool)
        ensures
            r == (self.entries().len() < MAX_VMS),
    {
        self.vm_list.len() < MAX_VMS
    }

    /// Allocate a unique VM ID.
    ///
    /// Returns `None` if we've reached the maximum number of VMs.
    pub fn alloc_vm_id(&mut self) -> (r: Option<u64>)
        requires
            old(self).next_id() < u64::MAX,
        ensures
            final(self).entries() == old(self).entries(),
            if old(self).entries().len() < MAX_VMS {
                r == Some(old(self).next_id()) && final(self).next_id() == old(self).next_id() + 1
            } else {
                r is None && final(self).next_id() == old(self).next_id()
            },
            r == id_given(old(self).entries().len(), MAX_VMS, old(self).next_id()).0,
            final(self).next_id() == id_given(
                old(self).entries().len(),
                MAX_VMS,
                old(self).next_id(),
            ).1,
    {
        if !self.can_create_vm() {
            return None;
        }
        let id: u64 = self.next_vm_id;
        self.next_vm_id += 1;
        Some(id)
    }

    /// Register a VM in the tracking list.
    ///
    /// # Arguments
    ///
    /// * `vm` - The VM's address
    /// * `vm_id` - Unique identifier for this VM
    pub fn add_vm(&mut self, vm: usize, vm_id: u64)
        ensures
            final(self).entries() == old(self).entries().push(
                VmEntry { vm_id, vm_ref: VmRef { addr: vm } },
            ),
            final(self).next_id() == old(self).next_id(),
    {
        let entry = VmEntry::new(vm_id, VmRef::new(vm));
        let _ = heap_vec_push(&mut self.vm_list, entry);
    }

    /// Remove a VM from the tracking list.
    ///
    /// It should be called when the VM's file descriptor is being closed.
    pub fn remove_vm(&mut self, vm: usize)
        ensures
            final(self).entries() == entries_without(old(self).entries(), vm),
            final(self).next_id() == old(self).next_id(),
    {
        let mut kept: Vec<VmEntry> = Vec::new();
        let mut i: usize = 0;
        while i < self.vm_list.len()
            invariant
                *self == *old(self),
                i <= self.vm_list@.len(),
                kept@ == entries_without(self.vm_list@.take(i as int), vm),
            decreases self.vm_list@.len() - i,
        {
            let entry = self.vm_list[i];
            assert(self.vm_list@.take(i + 1).drop_last() =~= self.vm_list@.take(i as int));
            if entry.vm_ref.as_ptr() != vm {
                kept.push(entry);
            }
            i += 1;
        }
        assert(self.vm_list@.take(i as int) =~= self.vm_list@);
        self.vm_list = kept;
    }

    /// Find a VM by its ID.
    ///
    /// Returns the reference if found, None otherwise.
    pub fn find_vm_by_id(&self, vm_id: u64) -> (r: Option<VmRef>)
        ensures
            r == first_with_id(self.entries(), vm_id),
    {
        let mut i: usize = 0;
        while i < self.vm_list.len()
            invariant
                i <= self.vm_list@.len(),
                first_with_id(self.vm_list@.take(i as int), vm_id) is None,
            decreases self.vm_list@.len() - i,
        {
            assert(self.vm_list@.take(i + 1).drop_last() =~= self.vm_list@.take(i as int));
            if self.vm_list[i].vm_id == vm_id {
                proof {
                    lemma_found_early(self.vm_list@, vm_id, i + 1);
                }
                return Some(self.vm_list[i].vm_ref);
            }
            i += 1;
        }
        assert(self.vm_list@.take(i as int) =~= self.vm_list@);
        None
    }
}

/// What is found among the first entries is what is found among all.
proof fn lemma_found_early(entries: Seq<VmEntry>, vm_id: u64, n: int)
    requires
        0 <= n <= entries.len(),
        first_with_id(entries.take(n), vm_id) is Some,
    ensures
        first_with_id(entries, vm_id) == first_with_id(entries.take(n), vm_id),
    decreases entries.len() - n,
{
    if n < entries.len() {
        assert(entries.take(n + 1).drop_last() =~= entries.take(n));
        lemma_found_early(entries, vm_id, n + 1);
    } else {
        assert(entries.take(n) =~= entries);
    }
}

/// A VM that was registered under an ID that no other VM has is found by it.
pub proof fn registered_vm_is_found(entries: Seq<VmEntry>, entry: VmEntry)
    requires
        first_with_id(entries, entry.vm_id) is None,
    ensures
        first_with_id(entries.push(entry), entry.vm_id) == Some(entry.vm_ref),
{
    assert(entries.push(entry).drop_last() =~= entries);
}

/// Registering a VM hides none that could be found before.
pub proof fn registration_hides_nothing(entries: Seq<VmEntry>, entry: VmEntry, vm_id: u64)
    requires
        first_with_id(entries, vm_id) is Some,
    ensures
        first_with_id(entries.push(entry), vm_id) == first_with_id(entries, vm_id),
{
    assert(entries.push(entry).drop_last() =~= entries);
}

/// A VM that was removed is found under no ID.
pub proof fn removed_vm_is_not_found(entries: Seq<VmEntry>, addr: usize, vm_id: u64)
    ensures
        first_with_id(entries_without(entries, addr), vm_id) != Some(VmRef { addr }),
    decreases entries.len(),
{
    if entries.len() > 0 {
        let rest = entries_without(entries.drop_last(), addr);
        removed_vm_is_not_found(entries.drop_last(), addr, vm_id);
        if entries.last().vm_ref.addr != addr {
            assert(rest.push(entries.last()).drop_last() =~= rest);
        }
    }
}

/// Removing a VM leaves every entry of another VM.
pub proof fn removal_keeps_other_vms(entries: Seq<VmEntry>, addr: usize, entry: VmEntry)
    requires
        entry.vm_ref.addr != addr,
    ensures
        entries_without(entries, addr).contains(entry) == entries.contains(entry),
    decreases entries.len(),
{
    if entries.len() > 0 {
        let rest = entries_without(entries.drop_last(), addr);
        removal_keeps_other_vms(entries.drop_last(), addr, entry);
        assert(entries =~= entries.drop_last().push(entries.last()));
        if entries.contains(entry) {
            let i = choose|i: int| 0 <= i < entries.len() && entries[i] == entry;
            if i < entries.len() - 1 {
                assert(entries.drop_last()[i] == entry);
                let j = choose|j: int| 0 <= j < rest.len() && rest[j] == entry;
                if entries.last().vm_ref.addr != addr {
                    assert(rest.push(entries.last())[j] == entry);
                }
            } else {
                assert(rest.push(entries.last())[rest.len() as int] == entry);
            }
        }
        if entries_without(entries, addr).contains(entry) {
            let all = entries_without(entries, addr);
            let j = choose|j: int| 0 <= j < all.len() && all[j] == entry;
            if j < rest.len() {
                assert(rest[j] == entry);
                let i = choose|i: int| 0 <= i < entries.len() - 1 && entries.drop_last()[i] == entry;
                assert(entries[i] == entry);
            } else {
                assert(entries[entries.len() - 1] == entry);
            }
        }
    }
}

/// Every registered ID was handed out before `next`.
pub open spec fn ids_below(entries: Seq<VmEntry>, next: u64) -> bool {
    forall|i: int| 0 <= i < entries.len() ==> (#[trigger] entries[i]).vm_id < next
}

/// IDs are unique: the next one is nobody's, and registering a VM under it, or
/// removing one, keeps it so for the one after.
pub proof fn next_id_is_nobodys(entries: Seq<VmEntry>, next: u64, addr: usize)
    requires
        ids_below(entries, next),
        next < u64::MAX,
    ensures
        first_with_id(entries, next) is None,
        ids_below(
            entries.push(VmEntry { vm_id: next, vm_ref: VmRef { addr } }),
            (next + 1) as u64,
        ),
        ids_below(entries_without(entries, addr), next),
    decreases entries.len(),
{
    if entries.len() > 0 {
        assert(entries.last().vm_id < next);
        assert(ids_below(entries.drop_last(), next));
        next_id_is_nobodys(entries.drop_last(), next, addr);
    }
}

/// No ID is given twice: one that is given lies below every one that is given later.
/// With as many VMs known as there is room for, none is given.
pub proof fn ids_are_given_once(count: nat, max: usize, next: u64, later: nat)
    requires
        next < u64::MAX,
    ensures
        ({
            let (first, after) = id_given(count, max, next);
            let (second, _) = id_given(later, max, after as u64);
            &&& first is Some <==> count < max
            &&& first is Some && second is Some ==> first->0 < second->0
            &&& next <= after <= u64::MAX
        }),
{
}

/// The VM that an ID names is one that was registered under it, and if any was, one
/// is named.
pub proof fn found_vm_was_registered(entries: Seq<VmEntry>, vm_id: u64, i: int)
    requires
        0 <= i < entries.len(),
    ensures
        entries[i].vm_id == vm_id ==> first_with_id(entries, vm_id) is Some,
        first_with_id(entries, vm_id) is Some ==> exists|k: int|
            0 <= k < entries.len() && (#[trigger] entries[k]).vm_id == vm_id && entries[k].vm_ref
                == first_with_id(entries, vm_id)->0 && forall|j: int|
                0 <= j < k ==> (#[trigger] entries[j]).vm_id != vm_id,
    decreases entries.len(),
{
    let rest = entries.drop_last();
    let n = entries.len() - 1;
    if rest.len() > 0 {
        found_vm_was_registered(rest, vm_id, if i < n {
            i
        } else {
            0
        });
    }
    assert(forall|j: int| 0 <= j < n ==> rest[j] == entries[j]);
    if first_with_id(rest, vm_id) is Some {
        let k = choose|k: int|
            0 <= k < rest.len() && (#[trigger] rest[k]).vm_id == vm_id && rest[k].vm_ref
                == first_with_id(rest, vm_id)->0 && forall|j: int|
                0 <= j < k ==> (#[trigger] rest[j]).vm_id != vm_id;
        assert(entries[k] == rest[k]);
        assert forall|j: int| 0 <= j < k implies (#[trigger] entries[j]).vm_id != vm_id by {
            assert(rest[j].vm_id != vm_id);
        }
    } else if entries[n].vm_id == vm_id {
        assert forall|j: int| 0 <= j < n implies (#[trigger] entries[j]).vm_id != vm_id by {
            found_vm_was_registered(rest, vm_id, j);
            assert(rest[j] == entries[j]);
        }
        assert(entries[n].vm_ref == first_with_id(entries, vm_id)->0);
    }
}

} // verus!
