//! Extended page table of one VM, at 4 KiB granularity.

use vstd::prelude::*;

use super::memory::{GuestPhysAddr, HostPhysAddr};
use super::page_map::PageMap;

verus! {

/// What the guest may do with a page.
#[derive(Clone, Copy, PartialEq, Eq, Debug, Structural)]
pub enum EptPermissions {
    /// Reads and instruction fetches; a write causes an EPT violation.
    ReadExecute,
    /// Every access.
    ReadWriteExecute,
}

/// One leaf entry.
#[derive(Clone, Copy, PartialEq, Eq, Debug, Structural)]
pub struct EptEntry {
    /// Host frame behind the page.
    pub hpa: HostPhysAddr,
    /// What the guest may do with it.
    pub perms: EptPermissions,
}

/// A remap named a page that has no leaf entry.
#[derive(Clone, Copy, PartialEq, Eq, Debug, Structural)]
pub enum EptError {
    NotMapped,
}

/// The leaf entries of one guest, keyed by page address.
pub struct EptPageTable {
    entries: PageMap<EptEntry>,
}

impl View for EptPageTable {
    type V = Map<u64, EptEntry>;

    closed spec fn view(&self) -> Map<u64, EptEntry> {
        self.entries@
    }
}

/// The same frames with write permission taken from every one of them.
pub open spec fn write_protected(table: Map<u64, EptEntry>) -> Map<u64, EptEntry> {
    Map::new(
        |k: u64| table.contains_key(k),
        |k: u64| EptEntry { perms: EptPermissions::ReadExecute, ..table[k] },
    )
}

impl EptPageTable {
    /// Keys are page addresses.
    pub closed spec fn wf(&self) -> bool {
        forall|k: u64| #[trigger] self.entries@.contains_key(k) ==> k % 4096 == 0
    }

    /// What well-formedness says of the table's keys.
    pub proof fn lemma_keys_are_pages(&self)
        requires
            self.wf(),
        ensures
            forall|k: u64| #[trigger] self@.contains_key(k) ==> k % 4096 == 0,
    {
    }

    /// A table has finitely many entries.
    pub proof fn lemma_finite(&self)
        requires
            self.wf(),
        ensures
            self@.dom().finite(),
    {
        self.entries.lemma_sorted();
    }

    /// An empty table.
    pub fn new() -> (t: Self)
        ensures
            t.wf(),
            t@ == Map::<u64, EptEntry>::empty(),
    {
        EptPageTable { entries: PageMap::new() }
    }

    /// Map the page of `gpa`.
    pub fn map_4k(&mut self, gpa: GuestPhysAddr, hpa: HostPhysAddr, perms: EptPermissions)
        requires
            old(self).wf(),
        ensures
            final(self).wf(),
            final(self)@ == old(self)@.insert(
                super::memory::page_base(gpa.addr),
                EptEntry { hpa, perms },
            ),
    {
        let _ = self.entries.insert(gpa.page().as_u64(), EptEntry { hpa, perms });
    }

    /// The frame and permissions of the page of `gpa`.
    pub fn lookup(&self, gpa: GuestPhysAddr) -> (r: Option<EptEntry>)
        requires
            self.wf(),
        ensures
            r == (if self@.contains_key(super::memory::page_base(gpa.addr)) {
                Some(self@[super::memory::page_base(gpa.addr)])
            } else {
                None
            }),
    {
        match self.entries.get(gpa.page().as_u64()) {
            Some(e) => Some(*e),
            None => None,
        }
    }

    /// Point the page of `gpa`, which must be mapped, to another frame with
    /// other permissions.
    pub fn remap_4k(
        &mut self,
        gpa: GuestPhysAddr,
        hpa: HostPhysAddr,
        perms: EptPermissions,
    ) -> (r: Result<(), EptError>)
        requires
            old(self).wf(),
        ensures
            final(self).wf(),
            if old(self)@.contains_key(super::memory::page_base(gpa.addr)) {
                r is Ok && final(self)@ == old(self)@.insert(
                    super::memory::page_base(gpa.addr),
                    EptEntry { hpa, perms },
                )
            } else {
                r == Err::<(), EptError>(EptError::NotMapped) && *final(self) == *old(self)
            },
    {
        let key: u64 = gpa.page().as_u64();
        if !self.entries.contains_key(key) {
            return Err(EptError::NotMapped);
        }
        let _ = self.entries.insert(key, EptEntry { hpa, perms });
        Ok(())
    }

    /// A table over the same frames in which no page is writable, so that the
    /// first write to any of them faults.
    pub fn clone_for_fork(&self) -> (t: Self)
        requires
            self.wf(),
        ensures
            t.wf(),
            t@ == write_protected(self@),
    {
        let mut entries: PageMap<EptEntry> = PageMap::new();
        let all = self.entries.entries();
        let mut i: usize = 0;
        proof {
            self.entries.lemma_sorted();
        }
        while i < all.len()
            invariant
                self.wf(),
                all@.len() == self.entries.sorted().len(),
                forall|j: int|
                    0 <= j < all@.len() ==> (#[trigger] all@[j]).0 == self.entries.sorted()[j].0
                        && *all@[j].1 == self.entries.sorted()[j].1,
                i <= all@.len(),
                super::page_map::ascending(self.entries.sorted()),
                forall|j: int|
                    0 <= j < i ==> entries@.contains_key((#[trigger] self.entries.sorted()[j]).0)
                        && entries@[self.entries.sorted()[j].0] == (EptEntry {
                        perms: EptPermissions::ReadExecute,
                        ..self.entries.sorted()[j].1
                    }),
                forall|k: u64| #[trigger]
                    entries@.contains_key(k) ==> exists|j: int|
                        0 <= j < i && (#[trigger] self.entries.sorted()[j]).0 == k,
            decreases all@.len() - i,
        {
            let (key, entry) = all[i];
            let _ = entries.insert(
                key,
                EptEntry { hpa: entry.hpa, perms: EptPermissions::ReadExecute },
            );
            i += 1;
        }
        let t = EptPageTable { entries };
        proof {
            self.entries.lemma_sorted();
            let want = write_protected(self@);
            assert forall|k: u64|
                #![trigger t@.dom().contains(k)]
                #![trigger want.dom().contains(k)]
                #![trigger t@[k]]
                t@.dom().contains(k) == want.dom().contains(k) && (t@.dom().contains(k) ==> t@[k]
                    == want[k]) by {
                if self@.contains_key(k) {
                    let j = choose|j: int|
                        0 <= j < self.entries.sorted().len()
                            && (#[trigger] self.entries.sorted()[j]).0 == k;
                    assert(entries@.contains_key(self.entries.sorted()[j].0));
                }
            }
            assert(t@ =~= want);
        }
        t
    }
}

} // verus!
