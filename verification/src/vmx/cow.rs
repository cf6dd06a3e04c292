//! Copy-on-write page tracking for forked VMs.
//!
//! `CowPageMap` holds the pages that one forked VM has copied and owns.
//! Ancestor pages are not in it; they are reached through the parent chain.
//! `WatchpointClassMap` holds the classification record of each armed
//! write-watchpoint page.

use vstd::prelude::*;

use super::memory::GuestPhysAddr;
use super::page_map::PageMap;

verus! {

/// Error returned when inserting a COW page fails (e.g., allocation failure).
#[derive(Debug, Clone, Copy)]
pub struct CowInsertError;

/// Per-page watchpoint classification record for the arm-then-cull directed
/// preemption strategy. Each armed userspace page starts as a watchpoint; this
/// record tracks the first writer thread (guest FS_BASE), the thread-switch
/// epoch at arm time, a fault counter, and whether the page has been confirmed
/// shared (written by at least two distinct threads). Single-writer pages are
/// culled; confirmed pages stay armed and drive preemption.
#[derive(Clone, Copy, PartialEq, Eq, Debug, Structural)]
pub struct WpClass {
    /// Guest FS_BASE of the thread that first wrote this page after it armed.
    pub first_tid: u64,
    /// Thread-switch epoch when this page was armed.
    pub arm_epoch: u32,
    /// Number of write faults observed on this page while classifying.
    pub fault_count: u32,
    /// True once a second distinct thread has written this page.
    pub confirmed: bool,
}

/// Tracks copy-on-write pages for a forked VM.
///
/// Only stores pages that this VM has modified.
pub struct CowPageMap<P> {
    pages: PageMap<P>,
    count: usize,
}

impl<P> View for CowPageMap<P> {
    type V = Map<u64, P>;

    closed spec fn view(&self) -> Map<u64, P> {
        self.pages@
    }
}

impl<P> CowPageMap<P> {
    /// Keys are page addresses, and the count is the number of pages.
    pub closed spec fn wf(&self) -> bool {
        &&& self.count == self.pages@.dom().len()
        &&& forall|k: u64| #[trigger] self.pages@.contains_key(k) ==> k % 4096 == 0
    }

    /// The pages in ascending order of their addresses.
    pub open spec fn sorted(&self) -> Seq<(u64, P)> {
        super::page_map::sorted_entries(self@)
    }

    /// What well-formedness says of the map's keys.
    pub proof fn lemma_keys_are_pages(&self)
        requires
            self.wf(),
        ensures
            forall|k: u64| #[trigger] self@.contains_key(k) ==> k % 4096 == 0,
    {
    }

    /// The sorted pages are the map's pages, each once, in ascending order.
    pub proof fn lemma_sorted(&self)
        requires
            self.wf(),
        ensures
            super::page_map::ascending(self.sorted()),
            self@ == super::page_map::entries_map(self.sorted()),
            self@.dom().len() == self.sorted().len(),
    {
        self.pages.lemma_sorted();
    }

    /// Create a new empty COW page map.
    pub fn new() -> (m: Self)
        ensures
            m.wf(),
            m@ == Map::<u64, P>::empty(),
    {
        CowPageMap { pages: PageMap::new(), count: 0 }
    }

    /// Get a reference to the COW page at the given GPA, if it exists.
    ///
    /// Returns None if the page has not been copied for this VM.
    pub fn get(&self, gpa: GuestPhysAddr) -> (r: Option<&P>)
        requires
            self.wf(),
        ensures
            match r {
                Some(p) => self@.contains_key(super::memory::page_base(gpa.addr)) && *p
                    == self@[super::memory::page_base(gpa.addr)],
                None => !self@.contains_key(super::memory::page_base(gpa.addr)),
            },
    {
        self.pages.get(gpa.page().as_u64())
    }

    /// Get a mutable reference to the COW page at the given GPA, if it exists.
    pub fn get_mut(&mut self, gpa: GuestPhysAddr) -> (r: Option<&mut P>)
        requires
            old(self).wf(),
        ensures
            final(self).wf(),
            match r {
                Some(p) => {
                    &&& old(self)@.contains_key(super::memory::page_base(gpa.addr))
                    &&& *p == old(self)@[super::memory::page_base(gpa.addr)]
                    &&& final(self)@ == old(self)@.insert(
                        super::memory::page_base(gpa.addr),
                        *final(p),
                    )
                },
                None => !old(self)@.contains_key(super::memory::page_base(gpa.addr))
                    && final(self)@ == old(self)@,
            },
    {
        let key: u64 = gpa.page().as_u64();
        proof {
            assert forall|p: P| self.pages@.contains_key(key) implies #[trigger] self.pages@.insert(
                key,
                p,
            ).dom() == self.pages@.dom() by {
                assert(self.pages@.insert(key, p).dom() =~= self.pages@.dom());
            }
        }
        self.pages.get_mut(key)
    }

    /// Insert a new COW page for the given GPA.
    ///
    /// The GPA is page-aligned before insertion. A page that is already there
    /// is replaced and counted once.
    pub fn insert(&mut self, gpa: GuestPhysAddr, page: P) -> (r: Result<(), CowInsertError>)
        requires
            old(self).wf(),
        ensures
            r is Ok,
            final(self).wf(),
            final(self)@ == old(self)@.insert(super::memory::page_base(gpa.addr), page),
    {
        let key: u64 = gpa.page().as_u64();
        proof {
            old(self).pages.lemma_sorted();
        }
        if self.pages.insert(key, page) {
            let n: usize = self.pages.len();
            assert(self.count + 1 == n);
            self.count += 1;
        } else {
            assert(self.pages@.dom() =~= old(self).pages@.dom());
        }
        Ok(())
    }

    /// Check if a COW page exists for the given GPA.
    pub fn contains(&self, gpa: GuestPhysAddr) -> (r: bool)
        requires
            self.wf(),
        ensures
            r == self@.contains_key(super::memory::page_base(gpa.addr)),
    {
        self.pages.contains_key(gpa.page().as_u64())
    }

    /// Get the number of COW pages.
    pub fn len(&self) -> (n: usize)
        requires
            self.wf(),
        ensures
            n == self@.dom().len(),
    {
        self.count
    }

    /// Check if the map is empty.
    pub fn is_empty(&self) -> (r: bool)
        requires
            self.wf(),
        ensures
            r == (self@ == Map::<u64, P>::empty()),
    {
        proof {
            self.pages.lemma_sorted();
            if self.count == 0 {
                assert(self@.dom().len() == 0);
                assert(self@.dom() =~= Set::<u64>::empty());
                assert(self@ =~= Map::<u64, P>::empty());
            } else {
                assert(Map::<u64, P>::empty().dom() =~= Set::<u64>::empty());
            }
        }
        self.count == 0
    }

    /// All COW pages, each with its page-aligned GPA, in ascending order.
    pub fn iter(&self) -> (r: Vec<(GuestPhysAddr, &P)>)
        requires
            self.wf(),
        ensures
            r@.len() == self.sorted().len(),
            forall|i: int|
                0 <= i < r@.len() ==> (#[trigger] r@[i]).0.addr == self.sorted()[i].0 && *r@[i].1
                    == self.sorted()[i].1,
    {
        let mut out: Vec<(GuestPhysAddr, &P)> = Vec::new();
        let entries = self.pages.entries();
        let mut i: usize = 0;
        while i < entries.len()
            invariant
                i <= entries@.len(),
                out@.len() == i,
                forall|j: int|
                    0 <= j < i ==> (#[trigger] out@[j]).0.addr == entries@[j].0 && *out@[j].1
                        == *entries@[j].1,
            decreases entries@.len() - i,
        {
            let (addr, page) = entries[i];
            out.push((GuestPhysAddr::new(addr), page));
            i += 1;
        }
        out
    }
}

impl<P> Default for CowPageMap<P> {
    fn default() -> (m: Self)
        ensures
            m.wf(),
            m@ == Map::<u64, P>::empty(),
    {
        CowPageMap::new()
    }
}

/// What an empty map holds after pages were inserted in order, each under the page
/// of its address.
pub open spec fn inserted<P>(pages: Seq<(u64, P)>) -> Map<u64, P>
    decreases pages.len(),
{
    if pages.len() == 0 {
        Map::empty()
    } else {
        inserted(pages.drop_last()).insert(
            super::memory::page_base(pages.last().0),
            pages.last().1,
        )
    }
}

/// The pages that addresses lie in, each once.
pub open spec fn page_bases<P>(pages: Seq<(u64, P)>) -> Set<u64> {
    Set::new(
        |k: u64| exists|i: int| 0 <= i < pages.len() && super::memory::page_base(
            (#[trigger] pages[i]).0,
        ) == k,
    )
}

/// However pages were inserted into an empty map: it has a page exactly where one
/// was inserted, and that is the page inserted there last; it has as many pages
/// as there are different page addresses among those inserted, a walk gives that
/// many, and it is empty exactly where that is none.
pub proof fn inserts_count_distinct_pages<P>(m: CowPageMap<P>, pages: Seq<(u64, P)>)
    requires
        m.wf(),
        m@ == inserted(pages),
    ensures
        m@.dom() == page_bases(pages),
        page_bases(pages).finite(),
        m@.dom().len() == page_bases(pages).len(),
        m.sorted().len() == page_bases(pages).len(),
        (m@ == Map::<u64, P>::empty()) == (page_bases(pages).len() == 0),
        forall|i: int|
            #![trigger pages[i]]
            0 <= i < pages.len() && (forall|j: int|
                i < j < pages.len() ==> super::memory::page_base((#[trigger] pages[j]).0)
                    != super::memory::page_base(pages[i].0)) ==> m@[super::memory::page_base(
                pages[i].0,
            )] == pages[i].1,
{
    lemma_inserted(pages);
    m.lemma_sorted();
    assert(m@.dom() =~= page_bases(pages));
    if m@.dom().len() == 0 {
        assert(m@.dom() =~= Set::<u64>::empty());
        assert(m@ =~= Map::<u64, P>::empty());
    } else {
        assert(Map::<u64, P>::empty().dom() =~= Set::<u64>::empty());
    }
}

proof fn lemma_inserted<P>(pages: Seq<(u64, P)>)
    ensures
        inserted(pages).dom().finite(),
        inserted(pages).dom() =~= page_bases(pages),
        forall|i: int|
            #![trigger pages[i]]
            0 <= i < pages.len() && (forall|j: int|
                i < j < pages.len() ==> super::memory::page_base((#[trigger] pages[j]).0)
                    != super::memory::page_base(pages[i].0)) ==> inserted(
                pages,
            )[super::memory::page_base(pages[i].0)] == pages[i].1,
    decreases pages.len(),
{
    if pages.len() > 0 {
        let before = pages.drop_last();
        let n = pages.len() - 1;
        lemma_inserted(before);
        assert(forall|i: int| 0 <= i < n ==> before[i] == pages[i]);
        assert forall|k: u64| #[trigger] page_bases(pages).contains(k) == (page_bases(
            before,
        ).contains(k) || k == super::memory::page_base(pages[n].0)) by {
            if page_bases(before).contains(k) {
                let i = choose|i: int|
                    0 <= i < before.len() && super::memory::page_base((#[trigger] before[i]).0)
                        == k;
                assert(super::memory::page_base(pages[i].0) == k);
            }
            if page_bases(pages).contains(k) {
                let i = choose|i: int|
                    0 <= i < pages.len() && super::memory::page_base((#[trigger] pages[i]).0) == k;
                if i < n {
                    assert(super::memory::page_base(before[i].0) == k);
                }
            }
        }
        assert forall|i: int|
            #![trigger pages[i]]
            0 <= i < pages.len() && (forall|j: int|
                i < j < pages.len() ==> super::memory::page_base((#[trigger] pages[j]).0)
                    != super::memory::page_base(pages[i].0)) implies inserted(
            pages,
        )[super::memory::page_base(pages[i].0)] == pages[i].1 by {
            if i < n {
                assert(super::memory::page_base(pages[n].0) != super::memory::page_base(
                    pages[i].0,
                ));
                assert forall|j: int| i < j < before.len() implies super::memory::page_base(
                    (#[trigger] before[j]).0,
                ) != super::memory::page_base(before[i].0) by {
                    assert(before[j] == pages[j] && before[i] == pages[i]);
                }
                assert(inserted(before)[super::memory::page_base(before[i].0)] == before[i].1);
            }
        }
    } else {
        assert(inserted(pages).dom() =~= page_bases(pages));
    }
}

/// Maps page-aligned GPAs to per-page watchpoint classification records
/// (arm-then-cull). Mirrors `CowPageMap` but holds `WpClass` values.
pub struct WatchpointClassMap {
    classes: PageMap<WpClass>,
}

impl View for WatchpointClassMap {
    type V = Map<u64, WpClass>;

    closed spec fn view(&self) -> Map<u64, WpClass> {
        self.classes@
    }
}

impl WatchpointClassMap {
    /// Keys are page addresses.
    pub closed spec fn wf(&self) -> bool {
        forall|k: u64| #[trigger] self.classes@.contains_key(k) ==> k % 4096 == 0
    }

    /// What well-formedness says of the map's keys.
    pub proof fn lemma_keys_are_pages(&self)
        requires
            self.wf(),
        ensures
            forall|k: u64| #[trigger] self@.contains_key(k) ==> k % 4096 == 0,
    {
    }

    /// Create a new empty classification map.
    pub fn new() -> (m: Self)
        ensures
            m.wf(),
            m@ == Map::<u64, WpClass>::empty(),
    {
        WatchpointClassMap { classes: PageMap::new() }
    }

    /// Record (or replace) the classification for a page.
    pub fn insert(&mut self, gpa: GuestPhysAddr, class: WpClass) -> (r: Result<(), CowInsertError>)
        requires
            old(self).wf(),
        ensures
            r is Ok,
            final(self).wf(),
            final(self)@ == old(self)@.insert(super::memory::page_base(gpa.addr), class),
    {
        let _ = self.classes.insert(gpa.page().as_u64(), class);
        Ok(())
    }

    /// Get a mutable reference to a page's classification, if present.
    pub fn get_mut(&mut self, gpa: GuestPhysAddr) -> (r: Option<&mut WpClass>)
        requires
            old(self).wf(),
        ensures
            final(self).wf(),
            match r {
                Some(c) => {
                    &&& old(self)@.contains_key(super::memory::page_base(gpa.addr))
                    &&& *c == old(self)@[super::memory::page_base(gpa.addr)]
                    &&& final(self)@ == old(self)@.insert(
                        super::memory::page_base(gpa.addr),
                        *final(c),
                    )
                },
                None => !old(self)@.contains_key(super::memory::page_base(gpa.addr))
                    && final(self)@ == old(self)@,
            },
    {
        self.classes.get_mut(gpa.page().as_u64())
    }

    /// The classification of a page, if present.
    pub fn get(&self, gpa: GuestPhysAddr) -> (r: Option<WpClass>)
        requires
            self.wf(),
        ensures
            r == (if self@.contains_key(super::memory::page_base(gpa.addr)) {
                Some(self@[super::memory::page_base(gpa.addr)])
            } else {
                None
            }),
    {
        match self.classes.get(gpa.page().as_u64()) {
            Some(c) => Some(*c),
            None => None,
        }
    }

    /// Drop the classification of a page.
    pub fn remove(&mut self, gpa: GuestPhysAddr)
        requires
            old(self).wf(),
        ensures
            final(self).wf(),
            final(self)@ == old(self)@.remove(super::memory::page_base(gpa.addr)),
    {
        let _ = self.classes.remove(gpa.page().as_u64());
    }

    /// The addresses of all classified pages, in ascending order.
    pub fn iter(&self) -> (r: Vec<GuestPhysAddr>)
        requires
            self.wf(),
        ensures
            forall|i: int| 0 <= i < r@.len() ==> self@.contains_key((#[trigger] r@[i]).addr),
            forall|k: u64| #[trigger]
                self@.contains_key(k) ==> exists|i: int|
                    0 <= i < r@.len() && (#[trigger] r@[i]).addr == k,
            forall|i: int, j: int|
                0 <= i < j < r@.len() ==> (#[trigger] r@[i]).addr < (#[trigger] r@[j]).addr,
    {
        let mut out: Vec<GuestPhysAddr> = Vec::new();
        let entries = self.classes.entries();
        let mut i: usize = 0;
        while i < entries.len()
            invariant
                i <= entries@.len(),
                out@.len() == i,
                forall|j: int| 0 <= j < i ==> (#[trigger] out@[j]).addr == entries@[j].0,
            decreases entries@.len() - i,
        {
            out.push(GuestPhysAddr::new(entries[i].0));
            i += 1;
        }
        proof {
            self.classes.lemma_sorted();
            assert forall|k: u64| #[trigger] self@.contains_key(k) implies exists|i: int|
                0 <= i < out@.len() && (#[trigger] out@[i]).addr == k by {
                let j = choose|j: int|
                    0 <= j < self.classes.sorted().len() && (#[trigger] self.classes.sorted()[j]).0
                        == k;
                assert(out@[j].addr == k);
            }
        }
        out
    }
}

impl Default for WatchpointClassMap {
    fn default() -> (m: Self)
        ensures
            m.wf(),
            m@ == Map::<u64, WpClass>::empty(),
    {
        WatchpointClassMap::new()
    }
}

} // verus!
