//! What userspace can map of a VM.
//!
//! A VM's file is laid out as follows. A root VM's guest memory comes first; a
//! fork has no contiguous guest memory, so its layout starts with the serial
//! buffer.
//!
//! - guest memory (root VMs only)
//! - serial buffer (1 page)
//! - log buffer (1 MiB, if enabled)
//! - serial TSC page (1 page)
//! - feedback buffer 0 (up to 1 MiB), feedback buffer 1, ... (each buffer's slot
//!   reserves 1 MiB)

use vstd::prelude::*;

use crate::vmx::memory::{GuestPhysAddr, HostPhysAddr};
use crate::vmx::state::FeedbackBuffer;
use crate::vmx::vm::forked::ForkedVm;
use crate::vmx::vm::parent::ParentVm;
use crate::vmx::vm::root::RootVm;

verus! {

/// Size of the log buffer.
pub const LOG_BUFFER_SIZE: u64 = 0x10_0000;

/// Space reserved for each feedback buffer.
pub const FEEDBACK_BUFFER_SLOT_SIZE: u64 = 0x10_0000;

/// A request to map part of a VM's file.
#[derive(Clone, Copy, PartialEq, Eq, Debug, Structural)]
pub struct Vma {
    /// First address of the user mapping.
    pub start: u64,
    /// First address behind it.
    pub end: u64,
    /// Offset into the file, in pages.
    pub pgoff: u64,
}

impl Vma {
    pub open spec fn wf(&self) -> bool {
        self.start <= self.end && self.pgoff * 4096 <= u64::MAX
    }

    /// Bytes to map.
    pub open spec fn size(&self) -> int {
        self.end - self.start
    }

    /// Offset into the file, in bytes.
    pub open spec fn offset(&self) -> int {
        self.pgoff * 4096
    }
}

/// A part of a VM's file.
#[derive(Clone, Copy, PartialEq, Eq, Debug, Structural)]
pub enum Region {
    GuestMemory,
    SerialBuffer,
    LogBuffer,
    SerialTsc,
    Feedback(usize),
}

/// Why a mapping is refused.
#[derive(Clone, Copy, PartialEq, Eq, Debug, Structural)]
pub enum MmapError {
    /// There is no feedback buffer slot at the offset.
    FeedbackIndex,
    /// The offset is not where a feedback buffer slot starts.
    FeedbackOffset,
    /// The feedback buffer is not registered.
    FeedbackNotRegistered(usize),
    /// The region can only be mapped whole.
    Size {
        expected: u64,
    },
    /// Logging is not enabled.
    NoLogBuffer,
    /// The mapping reaches beyond guest memory.
    BeyondMemory,
    /// Nothing is there to be mapped.
    Offset,
    /// A page of the feedback buffer does not lie in guest memory.
    Unresolved {
        gpa: u64,
    },
    /// A page of the feedback buffer has no host frame.
    Untranslated {
        gpa: u64,
    },
}

/// `EINVAL`, which every refused mapping is answered with.
pub const EINVAL: i32 = 22;

impl MmapError {
    /// The error number for userspace.
    pub fn errno(&self) -> (r: i32)
        ensures
            r == EINVAL,
    {
        EINVAL
    }
}

/// Where a region starts, behind `guest` bytes of guest memory.
pub open spec fn region_start(guest: int, region: Region) -> int {
    match region {
        Region::GuestMemory => 0,
        Region::SerialBuffer => guest,
        Region::LogBuffer => guest + 4096,
        Region::SerialTsc => guest + 4096 + LOG_BUFFER_SIZE,
        Region::Feedback(index) => guest + 4096 + LOG_BUFFER_SIZE + 4096 + index
            * FEEDBACK_BUFFER_SLOT_SIZE,
    }
}

/// How much space a region takes.
pub open spec fn region_len(guest: int, region: Region) -> int {
    match region {
        Region::GuestMemory => guest,
        Region::SerialBuffer => 4096,
        Region::LogBuffer => LOG_BUFFER_SIZE as int,
        Region::SerialTsc => 4096,
        Region::Feedback(_) => FEEDBACK_BUFFER_SLOT_SIZE as int,
    }
}

/// `region`, if exactly `expected` bytes are asked for.
pub open spec fn whole(region: Region, size: int, expected: u64) -> Result<Region, MmapError> {
    if size == expected {
        Ok(region)
    } else {
        Err(MmapError::Size { expected })
    }
}

/// What `size` bytes at `offset` are of a VM with `guest` bytes of mappable
/// guest memory.
pub open spec fn region_at(
    guest: int,
    buffers: Seq<Option<FeedbackBuffer>>,
    has_log: bool,
    offset: int,
    size: int,
) -> Result<Region, MmapError> {
    let slots = region_start(guest, Region::Feedback(0));
    let slot = FEEDBACK_BUFFER_SLOT_SIZE as int;
    if offset >= slots {
        let index = (offset - slots) / slot;
        if index >= 16 {
            Err(MmapError::FeedbackIndex)
        } else if (offset - slots) % slot != 0 {
            Err(MmapError::FeedbackOffset)
        } else {
            match buffers[index] {
                None => Err(MmapError::FeedbackNotRegistered(index as usize)),
                Some(buffer) => whole(
                    Region::Feedback(index as usize),
                    size,
                    (buffer.num_pages * 4096) as u64,
                ),
            }
        }
    } else if offset == region_start(guest, Region::SerialTsc) {
        whole(Region::SerialTsc, size, 4096)
    } else if offset == region_start(guest, Region::LogBuffer) {
        if size == LOG_BUFFER_SIZE && !has_log {
            Err(MmapError::NoLogBuffer)
        } else {
            whole(Region::LogBuffer, size, LOG_BUFFER_SIZE)
        }
    } else if offset == region_start(guest, Region::SerialBuffer) {
        whole(Region::SerialBuffer, size, 4096)
    } else if offset < guest {
        if offset + size > guest {
            Err(MmapError::BeyondMemory)
        } else {
            Ok(Region::GuestMemory)
        }
    } else {
        Err(MmapError::Offset)
    }
}

fn require_whole(region: Region, size: u64, expected: u64) -> (r: Result<Region, MmapError>)
    ensures
        r == whole(region, size as int, expected),
{
    if size == expected {
        Ok(region)
    } else {
        Err(MmapError::Size { expected })
    }
}

/// Find the region that a request is about.
pub fn find_region(
    guest_mem_size: u64,
    buffers: &[Option<FeedbackBuffer>; 16],
    has_log: bool,
    vma: Vma,
) -> (r: Result<Region, MmapError>)
    requires
        vma.wf(),
        region_start(guest_mem_size as int, Region::Feedback(0)) <= u64::MAX,
        forall|i: int| 0 <= i < 16 && buffers@[i] is Some ==> (#[trigger] buffers@[i])->0.wf(),
    ensures
        r == region_at(guest_mem_size as int, buffers@, has_log, vma.offset(), vma.size()),
{
    let requested_size: u64 = vma.end - vma.start;
    let offset_bytes: u64 = vma.pgoff * 4096;
    let serial_buffer_offset: u64 = guest_mem_size;
    let log_buffer_offset: u64 = guest_mem_size + 4096;
    let serial_tsc_offset: u64 = log_buffer_offset + LOG_BUFFER_SIZE;
    let feedback_buffer_base_offset: u64 = serial_tsc_offset + 4096;

    if offset_bytes >= feedback_buffer_base_offset {
        let relative_offset: u64 = offset_bytes - feedback_buffer_base_offset;
        let buffer_index: u64 = relative_offset / FEEDBACK_BUFFER_SLOT_SIZE;
        if buffer_index >= 16 {
            return Err(MmapError::FeedbackIndex);
        }
        if relative_offset % FEEDBACK_BUFFER_SLOT_SIZE != 0 {
            return Err(MmapError::FeedbackOffset);
        }
        let index: usize = buffer_index as usize;
        match &buffers[index] {
            None => Err(MmapError::FeedbackNotRegistered(index)),
            Some(buffer) => {
                assert(buffers@[index as int]->0.wf());
                require_whole(
                    Region::Feedback(index),
                    requested_size,
                    buffer.num_pages as u64 * 4096,
                )
            },
        }
    } else if offset_bytes == serial_tsc_offset {
        require_whole(Region::SerialTsc, requested_size, 4096)
    } else if offset_bytes == log_buffer_offset {
        if requested_size == LOG_BUFFER_SIZE && !has_log {
            return Err(MmapError::NoLogBuffer);
        }
        require_whole(Region::LogBuffer, requested_size, LOG_BUFFER_SIZE)
    } else if offset_bytes == serial_buffer_offset {
        require_whole(Region::SerialBuffer, requested_size, 4096)
    } else if offset_bytes < guest_mem_size {
        if requested_size > guest_mem_size - offset_bytes {
            return Err(MmapError::BeyondMemory);
        }
        Ok(Region::GuestMemory)
    } else {
        Err(MmapError::Offset)
    }
}

/// Where a page of a feedback buffer is to be had.
#[derive(Clone, Copy, PartialEq, Eq, Debug, Structural)]
pub enum PageSource {
    /// In a frame of the VM's own copy.
    Copy(HostPhysAddr),
    /// In the root's memory or in a copy of the VM's parents.
    Memory(GuestPhysAddr),
}

/// What is to be mapped.
pub enum Mapping {
    /// Guest memory, from the requested page on.
    GuestMemory {
        pgoff: u64,
    },
    SerialBuffer,
    LogBuffer,
    SerialTsc,
    /// The pages of a feedback buffer, in order.
    Feedback {
        index: usize,
        pages: Vec<PageSource>,
    },
}

/// The page at `gpa` as a root VM has it.
pub open spec fn root_source(vm: RootVm, gpa: u64) -> Option<PageSource> {
    if gpa < vm.memory.len() {
        Some(PageSource::Memory(GuestPhysAddr { addr: gpa }))
    } else {
        None
    }
}

/// The page at `gpa` as a fork has it: its own copy, else what its parents have.
pub open spec fn forked_source(vm: ForkedVm<'_>, gpa: u64) -> Option<PageSource> {
    let page = crate::vmx::memory::page_base(gpa);
    if vm.cow_pages@.contains_key(page) {
        Some(PageSource::Copy(vm.cow_pages@[page].phys))
    } else if page + 4096 <= vm.parent.size() {
        Some(PageSource::Memory(GuestPhysAddr { addr: gpa }))
    } else {
        None
    }
}

/// `r` maps `region`, whose feedback pages are at `gpas` and found by `source`;
/// the first of them that is nowhere to be found refuses the mapping.
pub open spec fn maps_region(
    r: Result<Mapping, MmapError>,
    region: Region,
    pgoff: u64,
    gpas: Seq<u64>,
    source: spec_fn(u64) -> Option<PageSource>,
) -> bool {
    match region {
        Region::GuestMemory => r == Ok::<Mapping, MmapError>(Mapping::GuestMemory { pgoff }),
        Region::SerialBuffer => r == Ok::<Mapping, MmapError>(Mapping::SerialBuffer),
        Region::LogBuffer => r == Ok::<Mapping, MmapError>(Mapping::LogBuffer),
        Region::SerialTsc => r == Ok::<Mapping, MmapError>(Mapping::SerialTsc),
        Region::Feedback(index) => {
            if forall|i: int| 0 <= i < gpas.len() ==> source(#[trigger] gpas[i]) is Some {
                &&& r matches Ok(Mapping::Feedback { index: mapped, pages })
                &&& mapped == index
                &&& pages@ == gpas.map_values(|gpa: u64| source(gpa)->0)
            } else {
                &&& r matches Err(MmapError::Unresolved { gpa })
                &&& exists|i: int|
                    0 <= i < gpas.len() && #[trigger] gpas[i] == gpa && source(gpa) is None && (
                    forall|j: int| 0 <= j < i ==> source(#[trigger] gpas[j]) is Some)
            }
        },
    }
}

/// The addresses of the pages in a region's feedback buffer.
pub open spec fn region_gpas(buffers: Seq<Option<FeedbackBuffer>>, region: Region) -> Seq<u64> {
    match region {
        Region::Feedback(index) => match buffers[index as int] {
            Some(buffer) => buffer.gpas@.take(buffer.num_pages as int),
            None => Seq::empty(),
        },
        _ => Seq::empty(),
    }
}

/// Decide what a request on a root VM's file maps.
pub fn bedrock_vm_mmap(vm: &RootVm, has_log: bool, vma: Vma) -> (r: Result<Mapping, MmapError>)
    requires
        vm.inv(),
        vma.wf(),
        region_start(vm.memory.len() as int, Region::Feedback(0)) <= u64::MAX,
    ensures
        match region_at(
            vm.memory.len() as int,
            vm.state.feedback_buffers@,
            has_log,
            vma.offset(),
            vma.size(),
        ) {
            Ok(region) => maps_region(
                r,
                region,
                vma.pgoff,
                region_gpas(vm.state.feedback_buffers@, region),
                |gpa: u64| root_source(*vm, gpa),
            ),
            Err(e) => r == Err::<Mapping, MmapError>(e),
        },
{
    let region = match find_region(
        vm.memory.len() as u64,
        &vm.state.feedback_buffers,
        has_log,
        vma,
    ) {
        Ok(region) => region,
        Err(e) => {
            return Err(e);
        },
    };
    let index: usize = match region {
        Region::GuestMemory => {
            return Ok(Mapping::GuestMemory { pgoff: vma.pgoff });
        },
        Region::SerialBuffer => {
            return Ok(Mapping::SerialBuffer);
        },
        Region::LogBuffer => {
            return Ok(Mapping::LogBuffer);
        },
        Region::SerialTsc => {
            return Ok(Mapping::SerialTsc);
        },
        Region::Feedback(index) => index,
    };
    let buffer: FeedbackBuffer = match vm.state.feedback_buffers[index] {
        Some(buffer) => buffer,
        None => {
            return Err(MmapError::FeedbackNotRegistered(index));
        },
    };
    let ghost gpas = region_gpas(vm.state.feedback_buffers@, region);
    let ghost source = |gpa: u64| root_source(*vm, gpa);
    assert(vm.state.feedback_buffers@[index as int]->0.wf());
    let mut pages: Vec<PageSource> = Vec::new();
    let mut i: usize = 0;
    while i < buffer.num_pages
        invariant
            i <= buffer.num_pages <= 256,
            pages@.len() == i,
            gpas == buffer.gpas@.take(buffer.num_pages as int),
            gpas == region_gpas(vm.state.feedback_buffers@, region),
            source == |gpa: u64| root_source(*vm, gpa),
            forall|j: int| 0 <= j < i ==> source(#[trigger] gpas[j]) == Some(pages@[j]),
            region == Region::Feedback(index),
            region_at(vm.memory.len() as int, vm.state.feedback_buffers@, has_log, vma.offset(), vma.size())
                == Ok::<Region, MmapError>(region),
        decreases buffer.num_pages - i,
    {
        let gpa: u64 = buffer.gpas[i];
        assert(gpas[i as int] == gpa);
        if gpa >= vm.memory.len() as u64 {
            assert(source(gpas[i as int]) is None);
            return Err(MmapError::Unresolved { gpa });
        }
        pages.push(PageSource::Memory(GuestPhysAddr::new(gpa)));
        i += 1;
    }
    assert(pages@ =~= gpas.map_values(|gpa: u64| source(gpa)->0));
    Ok(Mapping::Feedback { index, pages })
}

/// Decide what a request on a fork's file maps.
///
/// A feedback buffer's page is the fork's own copy if the guest wrote to it, else
/// the page that the chain of parents has.
pub fn bedrock_forked_vm_mmap(vm: &ForkedVm<'_>, has_log: bool, vma: Vma) -> (r: Result<
    Mapping,
    MmapError,
>)
    requires
        vm.inv(),
        vma.wf(),
    ensures
        match region_at(0, vm.state.feedback_buffers@, has_log, vma.offset(), vma.size()) {
            Ok(region) => maps_region(
                r,
                region,
                vma.pgoff,
                region_gpas(vm.state.feedback_buffers@, region),
                |gpa: u64| forked_source(*vm, gpa),
            ),
            Err(e) => r == Err::<Mapping, MmapError>(e),
        },
        !(r matches Ok(Mapping::GuestMemory { .. })),
{
    let region = match find_region(0, &vm.state.feedback_buffers, has_log, vma) {
        Ok(region) => region,
        Err(e) => {
            return Err(e);
        },
    };
    let index: usize = match region {
        Region::GuestMemory => {
            return Ok(Mapping::GuestMemory { pgoff: vma.pgoff });
        },
        Region::SerialBuffer => {
            return Ok(Mapping::SerialBuffer);
        },
        Region::LogBuffer => {
            return Ok(Mapping::LogBuffer);
        },
        Region::SerialTsc => {
            return Ok(Mapping::SerialTsc);
        },
        Region::Feedback(index) => index,
    };
    let buffer: FeedbackBuffer = match vm.state.feedback_buffers[index] {
        Some(buffer) => buffer,
        None => {
            return Err(MmapError::FeedbackNotRegistered(index));
        },
    };
    let ghost gpas = region_gpas(vm.state.feedback_buffers@, region);
    let ghost source = |gpa: u64| forked_source(*vm, gpa);
    assert(vm.state.feedback_buffers@[index as int]->0.wf());
    let mut pages: Vec<PageSource> = Vec::new();
    let mut i: usize = 0;
    while i < buffer.num_pages
        invariant
            vm.inv(),
            i <= buffer.num_pages <= 256,
            pages@.len() == i,
            gpas == buffer.gpas@.take(buffer.num_pages as int),
            gpas == region_gpas(vm.state.feedback_buffers@, region),
            source == |gpa: u64| forked_source(*vm, gpa),
            forall|j: int| 0 <= j < i ==> source(#[trigger] gpas[j]) == Some(pages@[j]),
            region == Region::Feedback(index),
            region_at(0, vm.state.feedback_buffers@, has_log, vma.offset(), vma.size())
                == Ok::<Region, MmapError>(region),
        decreases buffer.num_pages - i,
    {
        let gpa: u64 = buffer.gpas[i];
        assert(gpas[i as int] == gpa);
        let page_gpa = GuestPhysAddr::new(gpa);
        match vm.cow_pages.get(page_gpa) {
            Some(copy) => {
                pages.push(PageSource::Copy(copy.phys));
            },
            None => {
                if ParentVm::Forked(vm).read_page(page_gpa).is_none() {
                    assert(source(gpas[i as int]) is None);
                    return Err(MmapError::Unresolved { gpa });
                }
                pages.push(PageSource::Memory(page_gpa));
            },
        }
        i += 1;
    }
    assert(pages@ =~= gpas.map_values(|gpa: u64| source(gpa)->0));
    Ok(Mapping::Feedback { index, pages })
}

/// The frame of a page, given that the host's translation of its guest address
/// is `translated`; the host answers 0 where there is none.
pub open spec fn frame_of(source: PageSource, translated: u64) -> u64 {
    match source {
        PageSource::Copy(phys) => phys.addr,
        PageSource::Memory(_) => translated,
    }
}

/// The frames to map for the pages of a feedback buffer, given the host's
/// translations of their addresses.
pub fn host_frames(pages: &Vec<PageSource>, translated: &[u64]) -> (r: Result<Vec<u64>, MmapError>)
    requires
        translated@.len() == pages@.len(),
    ensures
        match r {
            Ok(frames) => {
                &&& frames@ == Seq::new(
                    pages@.len(),
                    |i: int| frame_of(pages@[i], translated@[i]),
                )
                &&& forall|i: int|
                    0 <= i < pages@.len() && #[trigger] pages@[i] is Memory ==> translated@[i] != 0
            },
            Err(e) => exists|i: int|
                {
                    &&& 0 <= i < pages@.len()
                    &&& #[trigger] pages@[i] is Memory
                    &&& translated@[i] == 0
                    &&& e == (MmapError::Untranslated { gpa: pages@[i]->Memory_0.addr })
                    &&& forall|j: int|
                        0 <= j < i && #[trigger] pages@[j] is Memory ==> translated@[j] != 0
                },
        },
{
    let mut frames: Vec<u64> = Vec::new();
    let mut i: usize = 0;
    while i < pages.len()
        invariant
            i <= pages@.len(),
            translated@.len() == pages@.len(),
            frames@.len() == i,
            forall|j: int|
                0 <= j < i ==> #[trigger] frames@[j] == frame_of(pages@[j], translated@[j]),
            forall|j: int| 0 <= j < i && #[trigger] pages@[j] is Memory ==> translated@[j] != 0,
        decreases pages@.len() - i,
    {
        match &pages[i] {
            PageSource::Copy(phys) => frames.push(phys.as_u64()),
            PageSource::Memory(gpa) => {
                let phys: u64 = translated[i];
                if phys == 0 {
                    assert(pages@[i as int] is Memory);
                    return Err(MmapError::Untranslated { gpa: gpa.as_u64() });
                }
                frames.push(phys);
            },
        }
        i += 1;
    }
    Ok(frames)
}

/// A region of a VM whose feedback buffers are `buffers`.
pub open spec fn is_region(
    buffers: Seq<Option<FeedbackBuffer>>,
    has_log: bool,
    region: Region,
) -> bool {
    match region {
        Region::Feedback(index) => index < 16 && buffers[index as int] is Some,
        Region::LogBuffer => has_log,
        _ => true,
    }
}

/// A mapping that is granted stays inside its region.
pub proof fn mapping_stays_in_its_region(
    guest: int,
    buffers: Seq<Option<FeedbackBuffer>>,
    has_log: bool,
    offset: int,
    size: int,
)
    requires
        guest >= 0,
        offset >= 0,
        size >= 0,
        forall|i: int| 0 <= i < 16 && buffers[i] is Some ==> (#[trigger] buffers[i])->0.wf(),
    ensures
        region_at(guest, buffers, has_log, offset, size) matches Ok(region) ==> {
            &&& is_region(buffers, has_log, region)
            &&& region_start(guest, region) <= offset
            &&& offset + size <= region_start(guest, region) + region_len(guest, region)
        },
{
    let slots = region_start(guest, Region::Feedback(0));
    let index = (offset - slots) / (FEEDBACK_BUFFER_SLOT_SIZE as int);
    if offset >= slots && 0 <= index < 16 && buffers[index] is Some {
        assert(buffers[index]->0.wf());
    }
}

/// Different regions share no byte of the file.
pub proof fn regions_are_disjoint(guest: int, a: Region, b: Region)
    requires
        guest >= 0,
        a != b,
    ensures
        region_start(guest, a) + region_len(guest, a) <= region_start(guest, b) || region_start(
            guest,
            b,
        ) + region_len(guest, b) <= region_start(guest, a),
{
}

/// Every region but guest memory can be mapped whole at its place, and guest
/// memory page by page or in longer runs.
pub proof fn every_region_can_be_mapped(
    guest: int,
    buffers: Seq<Option<FeedbackBuffer>>,
    has_log: bool,
    region: Region,
)
    requires
        guest >= 0,
        is_region(buffers, has_log, region),
        forall|i: int| 0 <= i < 16 && buffers[i] is Some ==> (#[trigger] buffers[i])->0.wf(),
    ensures
        match region {
            Region::GuestMemory => forall|offset: int, size: int|
                0 <= offset < guest && 0 <= size <= guest - offset ==> #[trigger] region_at(
                    guest,
                    buffers,
                    has_log,
                    offset,
                    size,
                ) == Ok::<Region, MmapError>(region),
            Region::Feedback(index) => region_at(
                guest,
                buffers,
                has_log,
                region_start(guest, region),
                buffers[index as int]->0.num_pages * 4096,
            ) == Ok::<Region, MmapError>(region),
            _ => region_at(
                guest,
                buffers,
                has_log,
                region_start(guest, region),
                region_len(guest, region),
            ) == Ok::<Region, MmapError>(region),
        },
{
    if let Region::Feedback(index) = region {
        assert(buffers[index as int]->0.wf());
        let slot = FEEDBACK_BUFFER_SLOT_SIZE as int;
        let slots = region_start(guest, Region::Feedback(0));
        assert(region_start(guest, region) - slots == index * slot);
        assert((index * slot) / slot == index && (index * slot) % slot == 0) by (nonlinear_arith)
            requires
                slot == 0x10_0000,
                index >= 0,
        ;
    }
}

/// A fork's guest memory is never mapped.
pub proof fn fork_memory_is_never_mapped(
    buffers: Seq<Option<FeedbackBuffer>>,
    has_log: bool,
    offset: int,
    size: int,
)
    requires
        offset >= 0,
    ensures
        region_at(0, buffers, has_log, offset, size) != Ok::<Region, MmapError>(
            Region::GuestMemory,
        ),
{
}

/// What userspace maps of a fork's own copies is what the guest writes: the frame
/// is the one that the fork's page table maps there.
pub proof fn mapped_copy_is_the_guests_page(
    vm: ForkedVm<'_>,
    pool: Seq<crate::vmx::vm::pages::GuestPage>,
    gpa: u64,
)
    requires
        crate::vmx::vm::laws::coherent(vm.cow_view(pool)),
        forked_source(vm, gpa) matches Some(PageSource::Copy(_)),
    ensures
        vm.state.ept@.contains_key(crate::vmx::memory::page_base(gpa)),
        forked_source(vm, gpa) == Some(
            PageSource::Copy(vm.state.ept@[crate::vmx::memory::page_base(gpa)].hpa),
        ),
{
    let page = crate::vmx::memory::page_base(gpa);
    assert(vm.cow_view(pool).copies.contains_key(page));
}

/// Where things are in a VM's file: guest memory from 0 on, then a page of serial
/// output, a mebibyte of log, a page of serial timestamps, and sixteen slots of a
/// mebibyte each for feedback buffers. Whatever is asked for elsewhere is refused.
pub proof fn file_offsets_are_fixed(
    guest: int,
    buffers: Seq<Option<FeedbackBuffer>>,
    has_log: bool,
    offset: int,
    size: int,
)
    requires
        guest >= 0,
        offset >= 0,
        size >= 0,
        forall|i: int| 0 <= i < 16 && buffers[i] is Some ==> (#[trigger] buffers[i])->0.wf(),
    ensures
        ({
            let r = region_at(guest, buffers, has_log, offset, size);
            let slot = (offset - guest - 0x10_2000) / 0x10_0000;
            &&& r == Ok::<Region, MmapError>(Region::GuestMemory) <==> offset < guest && offset
                + size <= guest
            &&& r == Ok::<Region, MmapError>(Region::SerialBuffer) <==> offset == guest && size
                == 0x1000
            &&& r == Ok::<Region, MmapError>(Region::LogBuffer) <==> offset == guest + 0x1000
                && size == 0x10_0000 && has_log
            &&& r == Ok::<Region, MmapError>(Region::SerialTsc) <==> offset == guest + 0x10_1000
                && size == 0x1000
            &&& r matches Ok(Region::Feedback(index)) ==> {
                &&& index == slot && offset == guest + 0x10_2000 + index * 0x10_0000
                &&& index < 16
                &&& buffers[index as int] is Some
                &&& size == buffers[index as int]->0.num_pages * 4096
            }
        }),
{
    let slots = region_start(guest, Region::Feedback(0));
    assert(slots == guest + 0x10_2000);
    let index = (offset - slots) / 0x10_0000;
    if offset >= slots && 0 <= index < 16 && buffers[index] is Some {
        assert(buffers[index]->0.wf());
    }
}

/// A feedback buffer that is registered is mapped at its slot, whole.
pub proof fn registered_buffer_is_mapped(
    guest: int,
    buffers: Seq<Option<FeedbackBuffer>>,
    has_log: bool,
    index: usize,
)
    requires
        guest >= 0,
        index < 16,
        buffers[index as int] is Some,
        buffers[index as int]->0.wf(),
    ensures
        region_at(
            guest,
            buffers,
            has_log,
            guest + 0x10_2000 + index * 0x10_0000,
            buffers[index as int]->0.num_pages * 4096,
        ) == Ok::<Region, MmapError>(Region::Feedback(index)),
{
}

/// A page of a feedback buffer comes from the fork's own copy if it has one, else
/// from the chain of its parents, as long as it lies in guest memory.
pub proof fn forks_page_comes_first(vm: ForkedVm<'_>, gpa: u64)
    ensures
        ({
            let page = crate::vmx::memory::page_base(gpa);
            &&& vm.cow_pages@.contains_key(page) ==> forked_source(vm, gpa) == Some(
                PageSource::Copy(vm.cow_pages@[page].phys),
            )
            &&& !vm.cow_pages@.contains_key(page) && gpa - gpa % 4096 + 4096 <= vm.parent.size()
                ==> forked_source(vm, gpa) == Some(PageSource::Memory(GuestPhysAddr { addr: gpa }))
            &&& !vm.cow_pages@.contains_key(page) && gpa - gpa % 4096 + 4096 > vm.parent.size()
                ==> forked_source(vm, gpa) is None
        }),
{
}

/// A page's frame is the copy's own, wherever the host would find the address, and
/// the host's where there is no copy.
pub proof fn copies_have_their_own_frames(phys: HostPhysAddr, gpa: GuestPhysAddr, translated: u64)
    ensures
        frame_of(PageSource::Copy(phys), translated) == phys.addr,
        frame_of(PageSource::Memory(gpa), translated) == translated,
{
}

/// A root VM's feedback pages are where the guest put them, inside its memory.
pub proof fn root_pages_are_in_memory(vm: RootVm, gpa: u64)
    ensures
        root_source(vm, gpa) is Some <==> gpa < vm.memory@.len(),
        gpa < vm.memory@.len() ==> root_source(vm, gpa) == Some(
            PageSource::Memory(GuestPhysAddr { addr: gpa }),
        ),
{
}

/// What a granted request maps. A feedback buffer is mapped page by page in the order
/// in which the guest registered its pages, each from where it is to be had; one page
/// that is nowhere refuses the whole.
pub proof fn buffer_is_mapped_page_by_page(
    r: Result<Mapping, MmapError>,
    index: usize,
    pgoff: u64,
    gpas: Seq<u64>,
    source: spec_fn(u64) -> Option<PageSource>,
    i: int,
)
    requires
        maps_region(r, Region::Feedback(index), pgoff, gpas, source),
        0 <= i < gpas.len(),
    ensures
        source(gpas[i]) is None ==> r is Err,
        r is Ok ==> {
            &&& r->Ok_0 is Feedback
            &&& r->Ok_0->index == index
            &&& r->Ok_0->pages@.len() == gpas.len()
            &&& source(gpas[i]) == Some(r->Ok_0->pages@[i])
        },
{
}

/// Every other region is mapped as what it is, guest memory from the page that was
/// asked for.
pub proof fn other_regions_are_mapped_as_they_are(
    r: Result<Mapping, MmapError>,
    pgoff: u64,
    gpas: Seq<u64>,
    source: spec_fn(u64) -> Option<PageSource>,
)
    ensures
        maps_region(r, Region::GuestMemory, pgoff, gpas, source) ==> r is Ok
            && r->Ok_0 is GuestMemory && r->Ok_0->pgoff == pgoff,
        maps_region(r, Region::SerialBuffer, pgoff, gpas, source) ==> r is Ok
            && r->Ok_0 is SerialBuffer,
        maps_region(r, Region::LogBuffer, pgoff, gpas, source) ==> r is Ok && r->Ok_0 is LogBuffer,
        maps_region(r, Region::SerialTsc, pgoff, gpas, source) ==> r is Ok && r->Ok_0 is SerialTsc,
{
}

/// The pages of a feedback region are those that the buffer has in use.
pub proof fn feedback_region_has_the_buffers_pages(
    buffers: Seq<Option<FeedbackBuffer>>,
    index: usize,
    i: int,
)
    requires
        index < buffers.len(),
        buffers[index as int] is Some,
        buffers[index as int]->0.wf(),
    ensures
        region_gpas(buffers, Region::Feedback(index)).len() == buffers[index as int]->0.num_pages,
        0 <= i < buffers[index as int]->0.num_pages ==> region_gpas(
            buffers,
            Region::Feedback(index),
        )[i] == buffers[index as int]->0.gpas@[i],
{
}

} // verus!
