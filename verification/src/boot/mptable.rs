//! MP Table setup for APIC discovery.
//!
//! Creates Intel MultiProcessor (MP) tables so Linux
//! can discover the Local APIC and I/O APIC.

use vstd::prelude::*;

use crate::bytes::push_le;
use crate::vmx::exits::cpuid::CpuidRegs;
use crate::vmx::exits::interrupts::IO_CHANNEL_IRQ;
use crate::vmx::state::VmState;

verus! {

/// Where the tables are.
pub const BASE_ADDR: usize = 0xF_0000;

/// MP table revision 1.4.
pub const SPEC_REV: u8 = 4;

/// Version of the local APIC.
pub const LAPIC_VERSION: u8 = 0x14;

/// Version of the I/O APIC.
pub const IOAPIC_VERSION: u8 = 0x20;

/// ID of the I/O APIC.
pub const IOAPIC_ID: u8 = 0;

/// Address of the local APIC's registers.
pub const LAPIC_PADDR: u32 = 0xFEE0_0000;

/// Address of the I/O APIC's registers.
pub const IOAPIC_PADDR: u32 = 0xFEC0_0000;

/// Size of all tables together.
pub const MP_TABLES_SIZE: usize = 128;

/// Sum of all bytes.
pub open spec fn byte_sum(data: Seq<u8>) -> nat
    decreases data.len(),
{
    if data.len() == 0 {
        0
    } else {
        byte_sum(data.drop_last()) + data.last() as nat
    }
}

/// What has to be added to the bytes for their sum to be 0 modulo 256.
pub open spec fn checksum(data: Seq<u8>) -> u8 {
    ((256 - byte_sum(data) % 256) % 256) as u8
}

/// A table whose byte at `at` makes its checksum right.
pub open spec fn sealed(data: Seq<u8>, at: int) -> Seq<u8> {
    data.update(at, checksum(data))
}

/// MP Floating Pointer Structure (16 bytes), checksum at byte 10 still 0:
/// signature, pointer to the configuration table right behind it, length in
/// 16-byte units, revision, checksum, features (all 0 = use the table).
pub open spec fn floating_pointer() -> Seq<u8> {
    seq![0x5Fu8, 0x4D, 0x50, 0x5F] + crate::bytes::le_bytes(0xF_0010, 4) + seq![
        1u8,
        SPEC_REV,
        0,
        0,
        0,
        0,
        0,
        0,
    ]
}

/// MP Configuration Table Header (44 bytes), checksum at byte 7 still 0.
pub open spec fn config_header() -> Seq<u8> {
    // Signature "PCMP", base table length, revision and checksum
    seq![0x50u8, 0x43, 0x4D, 0x50] + crate::bytes::le_bytes(112, 2) + seq![SPEC_REV, 0u8]
        // OEM ID "BEDROCK " and product ID "Hypervisor  "
         + seq![0x42u8, 0x45, 0x44, 0x52, 0x4F, 0x43, 0x4B, 0x20] + seq![
        0x48u8,
        0x79,
        0x70,
        0x65,
        0x72,
        0x76,
        0x69,
        0x73,
        0x6F,
        0x72,
        0x20,
        0x20,
    ]
        // OEM table pointer and size, entry count
         + crate::bytes::le_bytes(0, 4) + crate::bytes::le_bytes(0, 2) + crate::bytes::le_bytes(7, 2)
        // Local APIC address, extended table length, checksum, reserved
         + crate::bytes::le_bytes(LAPIC_PADDR as nat, 4) + crate::bytes::le_bytes(0, 2) + seq![
        0u8,
        0u8,
    ]
}

/// Processor entry (20 bytes, type 0): APIC ID 0, enabled and bootstrap, family
/// 6 model 5 stepping 7, feature flags, reserved.
pub open spec fn processor_entry() -> Seq<u8> {
    seq![0u8, 0u8, LAPIC_VERSION, 0x03u8] + crate::bytes::le_bytes(0x657, 4)
        + crate::bytes::le_bytes(0xBFEB_FBFF, 4) + crate::bytes::le_bytes(0, 8)
}

/// Bus entry (8 bytes, type 1): bus 0 is "ISA   ".
pub open spec fn bus_entry() -> Seq<u8> {
    seq![1u8, 0u8, 0x49u8, 0x53, 0x41, 0x20, 0x20, 0x20]
}

/// I/O APIC entry (8 bytes, type 2): usable, at its address.
pub open spec fn ioapic_entry() -> Seq<u8> {
    seq![2u8, IOAPIC_ID, IOAPIC_VERSION, 0x01u8] + crate::bytes::le_bytes(IOAPIC_PADDR as nat, 4)
}

/// I/O interrupt source entry (8 bytes, type 3): ISA interrupt `irq` goes to
/// the I/O APIC pin of the same number.
pub open spec fn interrupt_entry(irq: u8) -> Seq<u8> {
    seq![3u8, 0u8, 0u8, 0u8, 0u8, irq, IOAPIC_ID, irq]
}

/// Local interrupt entry (8 bytes, type 4): input `lint` of every local APIC
/// takes interrupts of the given kind.
pub open spec fn local_entry(kind: u8, lint: u8) -> Seq<u8> {
    seq![4u8, kind, 0u8, 0u8, 0u8, 0u8, 0xFFu8, lint]
}

/// The configuration table, checksum still 0.
pub open spec fn config_table() -> Seq<u8> {
    config_header() + processor_entry() + bus_entry() + ioapic_entry() + interrupt_entry(4)
        + interrupt_entry(IO_CHANNEL_IRQ) + local_entry(3, 0) + local_entry(1, 1)
}

/// The floating pointer structure and the configuration table behind it.
pub open spec fn mp_tables() -> Seq<u8> {
    sealed(floating_pointer(), 10) + sealed(config_table(), 7)
}

/// Memory with the tables in place.
pub open spec fn with_mp_tables(memory: Seq<u8>) -> Seq<u8> {
    Seq::new(
        memory.len(),
        |i: int|
            if BASE_ADDR <= i < BASE_ADDR + MP_TABLES_SIZE {
                mp_tables()[i - BASE_ADDR]
            } else {
                memory[i]
            },
    )
}

/// Compute MP table checksum (sum of all bytes must be 0).
pub fn mp_checksum(data: &[u8]) -> (r: u8)
    ensures
        r == checksum(data@),
{
    let mut sum: u8 = 0;
    let mut i: usize = 0;
    while i < data.len()
        invariant
            i <= data@.len(),
            sum == byte_sum(data@.take(i as int)) % 256,
        decreases data@.len() - i,
    {
        sum = sum.wrapping_add(data[i]);
        assert(data@.take(i + 1).drop_last() =~= data@.take(i as int));
        i += 1;
    }
    assert(data@.take(i as int) =~= data@);
    0u8.wrapping_sub(sum)
}

/// Set up MP tables for APIC discovery.
///
/// Creates Intel MultiProcessor (MP) tables at 0xF0000 so Linux
/// can discover the Local APIC and I/O APIC. Without these tables (or ACPI MADT),
/// Linux doesn't know the LAPIC timer exists.
///
/// Table structure:
/// - MP Floating Pointer Structure (16 bytes) at 0xF0000
/// - MP Configuration Table Header (44 bytes)
/// - Processor Entry (20 bytes) for BSP
/// - Bus Entry (8 bytes) for ISA bus
/// - I/O APIC Entry (8 bytes)
/// - I/O Interrupt Source Entries (8 bytes each) for COM1 and the I/O channel
/// - Local Interrupt Entries (8 bytes each) for LINT0 and LINT1
pub fn setup_mptable(memory: &mut [u8])
    requires
        old(memory).len() >= BASE_ADDR + MP_TABLES_SIZE,
    ensures
        final(memory)@ == with_mp_tables(old(memory)@),
{
    proof {
        lemma_sizes();
    }
    let pointer = build_floating_pointer();
    let config = build_config_table();
    let mut i: usize = 0;
    while i < 16
        invariant
            i <= 16,
            pointer@ == sealed(floating_pointer(), 10),
            pointer@.len() == 16,
            memory.len() == old(memory).len(),
            memory.len() >= BASE_ADDR + MP_TABLES_SIZE,
            forall|j: int|
                0 <= j < memory@.len() ==> #[trigger] memory@[j] == (if BASE_ADDR <= j < BASE_ADDR
                    + i {
                    pointer@[j - BASE_ADDR]
                } else {
                    old(memory)@[j]
                }),
        decreases 16 - i,
    {
        memory[BASE_ADDR + i] = pointer[i];
        i += 1;
    }
    let mut i: usize = 0;
    while i < 112
        invariant
            i <= 112,
            pointer@ == sealed(floating_pointer(), 10),
            pointer@.len() == 16,
            config@ == sealed(config_table(), 7),
            config@.len() == 112,
            memory.len() == old(memory).len(),
            memory.len() >= BASE_ADDR + MP_TABLES_SIZE,
            forall|j: int|
                0 <= j < memory@.len() ==> #[trigger] memory@[j] == (if BASE_ADDR <= j < BASE_ADDR
                    + 16 {
                    pointer@[j - BASE_ADDR]
                } else if BASE_ADDR + 16 <= j < BASE_ADDR + 16 + i {
                    config@[j - BASE_ADDR - 16]
                } else {
                    old(memory)@[j]
                }),
        decreases 112 - i,
    {
        memory[BASE_ADDR + 16 + i] = config[i];
        i += 1;
    }
    assert(memory@ =~= with_mp_tables(old(memory)@));
}

/// The MP Floating Pointer Structure.
fn build_floating_pointer() -> (r: Vec<u8>)
    ensures
        r@ == sealed(floating_pointer(), 10),
{
    proof {
        lemma_sizes();
    }
    let mut out: Vec<u8> = Vec::new();
    // Signature "_MP_"
    out.extend_from_slice([0x5F, 0x4D, 0x50, 0x5F].as_slice());
    // Physical Address Pointer (points to config table, right after this struct)
    push_le(&mut out, 0xF_0010, 4);
    // Length (in 16-byte units), revision, checksum (filled in below), MP feature
    // info bytes 1-5 (all 0 = use config table)
    out.extend_from_slice([1, SPEC_REV, 0, 0, 0, 0, 0, 0].as_slice());
    assert(out@ =~= floating_pointer());
    let sum: u8 = mp_checksum(out.as_slice());
    out.set(10, sum);
    out
}

/// The MP Configuration Table.
fn build_config_table() -> (r: Vec<u8>)
    ensures
        r@ == sealed(config_table(), 7),
{
    proof {
        lemma_sizes();
    }
    let mut out: Vec<u8> = Vec::new();
    push_config_header(&mut out);
    push_processor_entry(&mut out);
    // Bus Entry: ISA
    out.extend_from_slice([1, 0, 0x49, 0x53, 0x41, 0x20, 0x20, 0x20].as_slice());
    // I/O APIC Entry, flags: usable
    out.extend_from_slice([2, IOAPIC_ID, IOAPIC_VERSION, 0x01].as_slice());
    push_le(&mut out, IOAPIC_PADDR as u64, 4);
    assert(out@ =~= config_header() + processor_entry() + bus_entry() + ioapic_entry());
    // I/O Interrupt Source Entries: route ISA IRQs to I/O APIC. The emulated
    // platform only needs two pins: COM1 serial (IRQ 4) and the I/O channel, whose
    // pin the guest's kernel module requests so that the guest kernel programs the
    // IOAPIC redirection table entry; the hypervisor then injects on the same pin.
    push_interrupt_entry(&mut out, 4);
    push_interrupt_entry(&mut out, IO_CHANNEL_IRQ);
    // Local Interrupt Entries: ExtINT on LINT0 (for 8259 PIC compatibility), NMI
    // on LINT1
    push_local_entry(&mut out, 3, 0);
    push_local_entry(&mut out, 1, 1);
    assert(out@ =~= config_table());
    let sum: u8 = mp_checksum(out.as_slice());
    out.set(7, sum);
    out
}

fn push_config_header(out: &mut Vec<u8>)
    ensures
        final(out)@ == old(out)@ + config_header(),
{
    // Signature "PCMP", base table length, revision, checksum (filled in later)
    out.extend_from_slice([0x50, 0x43, 0x4D, 0x50].as_slice());
    push_le(out, 112, 2);
    out.extend_from_slice([SPEC_REV, 0].as_slice());
    // OEM ID "BEDROCK ", product ID "Hypervisor  "
    out.extend_from_slice([0x42, 0x45, 0x44, 0x52, 0x4F, 0x43, 0x4B, 0x20].as_slice());
    out.extend_from_slice(
        [0x48, 0x79, 0x70, 0x65, 0x72, 0x76, 0x69, 0x73, 0x6F, 0x72, 0x20, 0x20].as_slice(),
    );
    // OEM table pointer and size, entry count
    push_le(out, 0, 4);
    push_le(out, 0, 2);
    push_le(out, 7, 2);
    // Local APIC address, extended table length, checksum, reserved
    push_le(out, LAPIC_PADDR as u64, 4);
    push_le(out, 0, 2);
    out.extend_from_slice([0, 0].as_slice());
    assert(out@ =~= old(out)@ + config_header());
}

fn push_processor_entry(out: &mut Vec<u8>)
    ensures
        final(out)@ == old(out)@ + processor_entry(),
{
    // CPU flags: enabled (bit 0) + BSP (bit 1)
    out.extend_from_slice([0, 0, LAPIC_VERSION, 0x03].as_slice());
    // CPU signature: Family 6, Model 5, Stepping 7
    push_le(out, 0x657, 4);
    // Feature flags (basic x86-64 features)
    push_le(out, 0xBFEB_FBFF, 4);
    // Reserved
    push_le(out, 0, 8);
    assert(out@ =~= old(out)@ + processor_entry());
}

fn push_interrupt_entry(out: &mut Vec<u8>, irq: u8)
    ensures
        final(out)@ == old(out)@ + interrupt_entry(irq),
{
    out.extend_from_slice([3, 0, 0, 0, 0, irq, IOAPIC_ID, irq].as_slice());
    assert(out@ =~= old(out)@ + interrupt_entry(irq));
}

fn push_local_entry(out: &mut Vec<u8>, kind: u8, lint: u8)
    ensures
        final(out)@ == old(out)@ + local_entry(kind, lint),
{
    out.extend_from_slice([4, kind, 0, 0, 0, 0, 0xFF, lint].as_slice());
    assert(out@ =~= old(out)@ + local_entry(kind, lint));
}

proof fn lemma_sizes()
    ensures
        floating_pointer().len() == 16,
        config_header().len() == 44,
        processor_entry().len() == 20,
        bus_entry().len() == 8,
        ioapic_entry().len() == 8,
        config_table().len() == 112,
        mp_tables().len() == 128,
{
    crate::bytes::le_bytes_len(0xF_0010, 4);
    crate::bytes::le_bytes_len(112, 2);
    crate::bytes::le_bytes_len(0, 4);
    crate::bytes::le_bytes_len(0, 2);
    crate::bytes::le_bytes_len(7, 2);
    crate::bytes::le_bytes_len(LAPIC_PADDR as nat, 4);
    crate::bytes::le_bytes_len(0x657, 4);
    crate::bytes::le_bytes_len(0xBFEB_FBFF, 4);
    crate::bytes::le_bytes_len(0, 8);
    crate::bytes::le_bytes_len(IOAPIC_PADDR as nat, 4);
}

proof fn lemma_sum_update(data: Seq<u8>, at: int, value: u8)
    requires
        0 <= at < data.len(),
    ensures
        byte_sum(data.update(at, value)) == byte_sum(data) - data[at] + value,
    decreases data.len(),
{
    let last = data.len() - 1;
    if at == last {
        assert(data.update(at, value).drop_last() =~= data.drop_last());
    } else {
        lemma_sum_update(data.drop_last(), at, value);
        assert(data.update(at, value).drop_last() =~= data.drop_last().update(at, value));
    }
}

/// A sealed table sums to 0 modulo 256.
pub proof fn sealed_table_sums_to_zero(data: Seq<u8>, at: int)
    requires
        0 <= at < data.len(),
        data[at] == 0,
    ensures
        byte_sum(sealed(data, at)) % 256 == 0,
{
    lemma_sum_update(data, at, checksum(data));
}

/// Both tables are valid as the guest finds them: they sum to 0 modulo 256, the
/// pointer leads to the configuration table, and its length field is its length.
pub proof fn mp_tables_are_valid()
    ensures
        byte_sum(mp_tables().take(16)) % 256 == 0,
        byte_sum(mp_tables().skip(16)) % 256 == 0,
        mp_tables().subrange(4, 8) == crate::bytes::le_bytes((BASE_ADDR + 16) as nat, 4),
        mp_tables().skip(16).len() == 112,
        mp_tables().subrange(20, 22) == crate::bytes::le_bytes(112, 2),
{
    lemma_sizes();
    crate::bytes::le_bytes_len(0xF_0010, 4);
    crate::bytes::le_bytes_len(112, 2);
    sealed_table_sums_to_zero(floating_pointer(), 10);
    assert(config_table()[7] == config_header()[7]);
    sealed_table_sums_to_zero(config_table(), 7);
    assert(mp_tables().take(16) =~= sealed(floating_pointer(), 10));
    assert(mp_tables().skip(16) =~= sealed(config_table(), 7));
    assert(mp_tables().subrange(4, 8) =~= crate::bytes::le_bytes(0xF_0010, 4));
    assert forall|i: int| 0 <= i < 2 implies mp_tables().subrange(20, 22)[i]
        == crate::bytes::le_bytes(112, 2)[i] by {
        assert(config_table()[4 + i] == config_header()[4 + i]);
    }
    assert(mp_tables().subrange(20, 22) =~= crate::bytes::le_bytes(112, 2));
}

/// Nothing outside the tables is touched.
pub proof fn mp_tables_are_all_that_changes(memory: Seq<u8>, i: int)
    requires
        0 <= i < memory.len(),
        i < BASE_ADDR || i >= BASE_ADDR + MP_TABLES_SIZE,
    ensures
        with_mp_tables(memory)[i] == memory[i],
{
}

// ---- What an operating system reads ----

/// Where entry `k` of the configuration table at `table` begins, as a reader finds
/// it: entries stand behind the header one after the other; a processor entry (type
/// 0) has 20 bytes, every other one 8.
pub open spec fn entry_offset(memory: Seq<u8>, table: int, k: nat) -> int
    decreases k,
{
    if k == 0 {
        table + 44
    } else {
        let before = entry_offset(memory, table, (k - 1) as nat);
        before + (if memory[before] == 0 {
            20int
        } else {
            8
        })
    }
}

/// The configuration table's address, as the floating pointer gives it.
pub open spec fn table_address(memory: Seq<u8>) -> int {
    crate::bytes::le_value(memory.subrange(0xF_0004, 0xF_0008)) as int
}

/// How many entries the configuration table says it has.
pub open spec fn table_entries(memory: Seq<u8>) -> nat {
    let table = table_address(memory);
    crate::bytes::le_value(memory.subrange(table + 34, table + 36))
}

/// Where the table's entry `k` begins.
pub open spec fn table_entry(memory: Seq<u8>, k: nat) -> int {
    entry_offset(memory, table_address(memory), k)
}

/// The entry at `at` is a bus entry that names the ISA bus.
pub open spec fn names_the_isa_bus(memory: Seq<u8>, at: int) -> bool {
    &&& memory[at] == 1
    &&& memory[at + 2] == 0x49 && memory[at + 3] == 0x53 && memory[at + 4] == 0x41
    &&& memory[at + 5] == 0x20 && memory[at + 6] == 0x20 && memory[at + 7] == 0x20
}

/// The entry at `at` is that of a usable I/O APIC whose registers are at
/// 0xFEC0_0000.
pub open spec fn names_the_ioapic(memory: Seq<u8>, at: int) -> bool {
    &&& memory[at] == 2
    &&& memory[at + 3] == 1
    &&& crate::bytes::le_value(memory.subrange(at + 4, at + 8)) == 0xFEC0_0000
}

/// The entry at `at` routes vectored interrupt `irq` of the bus of the entry at
/// `bus`, with that bus's polarity and trigger mode, to pin `pin` of the I/O APIC of
/// the entry at `ioapic`.
pub open spec fn routes(
    memory: Seq<u8>,
    at: int,
    bus: int,
    irq: u8,
    ioapic: int,
    pin: u8,
) -> bool {
    &&& memory[at] == 3 && memory[at + 1] == 0
    &&& memory[at + 2] == 0 && memory[at + 3] == 0
    &&& memory[at + 4] == memory[bus + 1]
    &&& memory[at + 5] == irq
    &&& memory[at + 6] == memory[ioapic + 1]
    &&& memory[at + 7] == pin
}

proof fn lemma_bytes(memory: Seq<u8>)
    requires
        memory.len() >= BASE_ADDR + MP_TABLES_SIZE,
    ensures
        with_mp_tables(memory).len() == memory.len(),
        with_mp_tables(memory).subrange(0xF_0000, 0xF_000A) == seq![
            0x5Fu8,
            0x4D,
            0x50,
            0x5F,
            0x10,
            0,
            0x0F,
            0,
            1,
            4,
        ],
        with_mp_tables(memory).subrange(0xF_000B, 0xF_0017) == seq![
            0u8,
            0,
            0,
            0,
            0,
            0x50,
            0x43,
            0x4D,
            0x50,
            112,
            0,
            4,
        ],
        with_mp_tables(memory).subrange(0xF_0030, 0xF_0080) == seq![
            0u8,
            0,
            7,
            0,
            0,
            0,
            0xE0,
            0xFE,
            0,
            0,
            0,
            0,
            0,
            0,
            0x14,
            3,
            0x57,
            6,
            0,
            0,
            0xFF,
            0xFB,
            0xEB,
            0xBF,
            0,
            0,
            0,
            0,
            0,
            0,
            0,
            0,
            1,
            0,
            0x49,
            0x53,
            0x41,
            0x20,
            0x20,
            0x20,
            2,
            0,
            0x20,
            1,
            0,
            0,
            0xC0,
            0xFE,
            3,
            0,
            0,
            0,
            0,
            4,
            0,
            4,
            3,
            0,
            0,
            0,
            0,
            9,
            0,
            9,
            4,
            3,
            0,
            0,
            0,
            0,
            0xFF,
            0,
            4,
            1,
            0,
            0,
            0,
            0,
            0xFF,
            1,
        ],
{
    lemma_sizes();
    reveal_with_fuel(crate::bytes::le_bytes, 9);
    let m = with_mp_tables(memory);
    assert(0xF_0010nat / 256 / 256 / 256 == 0);
    assert(config_header() =~= seq![
        0x50u8, 0x43, 0x4D, 0x50, 112, 0, 4, 0, 0x42, 0x45, 0x44, 0x52, 0x4F, 0x43, 0x4B, 0x20,
        0x48, 0x79, 0x70, 0x65, 0x72, 0x76, 0x69, 0x73, 0x6F, 0x72, 0x20, 0x20, 0, 0, 0, 0, 0, 0,
        7, 0, 0, 0, 0xE0, 0xFE, 0, 0, 0, 0,
    ]);
    assert(processor_entry() =~= seq![
        0u8, 0, 0x14, 3, 0x57, 6, 0, 0, 0xFF, 0xFB, 0xEB, 0xBF, 0, 0, 0, 0, 0, 0, 0, 0,
    ]);
    assert(ioapic_entry() =~= seq![2u8, 0, 0x20, 1, 0, 0, 0xC0, 0xFE]);
    assert(floating_pointer() =~= seq![
        0x5Fu8, 0x4D, 0x50, 0x5F, 0x10, 0, 0x0F, 0, 1, 4, 0, 0, 0, 0, 0, 0,
    ]);
    let a = sealed(config_table(), 7);
    assert forall|i: int| 0 <= i < 7 implies a[i] == config_header()[i] by {}
    assert forall|i: int| 8 <= i < 44 implies a[i] == config_header()[i] by {}
    assert forall|i: int| 44 <= i < 64 implies a[i] == processor_entry()[i - 44] by {}
    assert forall|i: int| 64 <= i < 72 implies a[i] == bus_entry()[i - 64] by {}
    assert forall|i: int| 72 <= i < 80 implies a[i] == ioapic_entry()[i - 72] by {}
    assert forall|i: int| 80 <= i < 88 implies a[i] == interrupt_entry(4)[i - 80] by {}
    assert forall|i: int| 88 <= i < 96 implies a[i] == interrupt_entry(9)[i - 88] by {}
    assert forall|i: int| 96 <= i < 104 implies a[i] == local_entry(3, 0)[i - 96] by {}
    assert forall|i: int| 104 <= i < 112 implies a[i] == local_entry(1, 1)[i - 104] by {}
    assert forall|i: int| 0xF_0010 <= i < 0xF_0080 implies m[i] == a[i - 0xF_0010] by {}
}

proof fn lemma_entries(memory: Seq<u8>)
    requires
        memory.len() >= BASE_ADDR + MP_TABLES_SIZE,
    ensures
        ({
            let m = with_mp_tables(memory);
            &&& table_address(m) == 0xF_0010
            &&& table_entries(m) == 7
            &&& table_entry(m, 0) == 0xF_003C
            &&& table_entry(m, 1) == 0xF_0050
            &&& table_entry(m, 2) == 0xF_0058
            &&& table_entry(m, 3) == 0xF_0060
            &&& table_entry(m, 4) == 0xF_0068
            &&& table_entry(m, 5) == 0xF_0070
            &&& table_entry(m, 6) == 0xF_0078
            &&& table_entry(m, 7) == 0xF_0080
        }),
{
    lemma_bytes(memory);
    let m = with_mp_tables(memory);
    let head = m.subrange(0xF_0000, 0xF_000A);
    let tail = m.subrange(0xF_0030, 0xF_0080);
    assert forall|i: int| 0xF_0000 <= i < 0xF_000A implies m[i] == head[i - 0xF_0000] by {}
    assert forall|i: int| 0xF_0030 <= i < 0xF_0080 implies m[i] == tail[i - 0xF_0030] by {}
    reveal_with_fuel(crate::bytes::le_value, 5);
    assert(table_address(m) == 0xF_0010);
    assert(table_entries(m) == 7);
    reveal_with_fuel(entry_offset, 8);
    assert(table_entry(m, 0) == 0xF_003C);
    assert(table_entry(m, 1) == 0xF_0050);
    assert(table_entry(m, 2) == 0xF_0058);
    assert(table_entry(m, 3) == 0xF_0060);
    assert(table_entry(m, 4) == 0xF_0068);
    assert(table_entry(m, 5) == 0xF_0070);
    assert(table_entry(m, 6) == 0xF_0078);
}

/// The tables are found and walked: the signatures are in place, both structures
/// give revision 1.4, the pointer leads to a table that lies in memory, walking as
/// many entries as it says it has ends where its length says it ends, and the local
/// APIC is at 0xFEE0_0000.
pub proof fn tables_can_be_walked(memory: Seq<u8>)
    requires
        memory.len() >= 0xF_0080,
    ensures
        ({
            let m = with_mp_tables(memory);
            let table = table_address(m);
            &&& m.len() == memory.len()
            &&& m[0xF_0000] == 0x5F && m[0xF_0001] == 0x4D && m[0xF_0002] == 0x50 && m[0xF_0003]
                == 0x5F
            &&& m[0xF_0008] == 1 && m[0xF_0009] == 4 && m[0xF_000B] == 0
            &&& 0 <= table && table + 44 <= m.len()
            &&& m[table] == 0x50 && m[table + 1] == 0x43 && m[table + 2] == 0x4D && m[table + 3]
                == 0x50
            &&& m[table + 6] == 4
            &&& table_entry(m, table_entries(m)) == table + crate::bytes::le_value(
                m.subrange(table + 4, table + 6),
            ) <= m.len()
            &&& crate::bytes::le_value(m.subrange(table + 36, table + 40)) == 0xFEE0_0000
        }),
{
    lemma_bytes(memory);
    lemma_entries(memory);
    let m = with_mp_tables(memory);
    let head = m.subrange(0xF_0000, 0xF_000A);
    let mid = m.subrange(0xF_000B, 0xF_0017);
    let tail = m.subrange(0xF_0030, 0xF_0080);
    assert forall|i: int| 0xF_0000 <= i < 0xF_000A implies m[i] == head[i - 0xF_0000] by {}
    assert forall|i: int| 0xF_000B <= i < 0xF_0017 implies m[i] == mid[i - 0xF_000B] by {}
    assert forall|i: int| 0xF_0030 <= i < 0xF_0080 implies m[i] == tail[i - 0xF_0030] by {}
    reveal_with_fuel(crate::bytes::le_value, 5);
}

/// An interrupt that the platform raises is routed to the I/O APIC pin of its own
/// number: both the serial port's (4) and the I/O channel's (9) come from the bus
/// that the table calls ISA, and go to the I/O APIC that it says is usable.
pub proof fn platform_interrupts_are_routed(memory: Seq<u8>, irq: u8)
    requires
        memory.len() >= 0xF_0080,
        irq == 4 || irq == 9,
    ensures
        ({
            let m = with_mp_tables(memory);
            exists|k: nat, bus: nat, ioapic: nat|
                {
                    &&& k < table_entries(m) && bus < table_entries(m) && ioapic < table_entries(m)
                    &&& names_the_isa_bus(m, #[trigger] table_entry(m, bus))
                    &&& names_the_ioapic(m, #[trigger] table_entry(m, ioapic))
                    &&& routes(
                        m,
                        #[trigger] table_entry(m, k),
                        table_entry(m, bus),
                        irq,
                        table_entry(m, ioapic),
                        irq,
                    )
                }
        }),
{
    lemma_bytes(memory);
    lemma_entries(memory);
    let m = with_mp_tables(memory);
    let tail = m.subrange(0xF_0030, 0xF_0080);
    assert forall|i: int| 0xF_0030 <= i < 0xF_0080 implies m[i] == tail[i - 0xF_0030] by {}
    reveal_with_fuel(crate::bytes::le_value, 5);
    assert(names_the_isa_bus(m, table_entry(m, 1)));
    assert(names_the_ioapic(m, table_entry(m, 2)));
    let k: nat = if irq == 4 {
        3
    } else {
        4
    };
    assert(routes(m, table_entry(m, k), table_entry(m, 1), irq, table_entry(m, 2), irq));
}

/// No other interrupt is routed, and none to another pin: an interrupt entry of the
/// table is about 4 or 9, and the pin is the interrupt's number.
pub proof fn no_other_interrupt_is_routed(memory: Seq<u8>, k: nat)
    requires
        memory.len() >= 0xF_0080,
        k < table_entries(with_mp_tables(memory)),
        with_mp_tables(memory)[table_entry(with_mp_tables(memory), k)] == 3,
    ensures
        ({
            let m = with_mp_tables(memory);
            let at = table_entry(m, k);
            &&& m[at + 5] == 4 || m[at + 5] == 9
            &&& m[at + 7] == m[at + 5]
        }),
{
    lemma_entries(memory);
    lemma_kinds(memory);
    let m = with_mp_tables(memory);
    if k == 0 {
    } else if k == 1 {
    } else if k == 2 {
    } else if k == 3 {
    } else if k == 4 {
    } else if k == 5 {
    } else {
        assert(k == 6);
    }
}

proof fn lemma_kinds(memory: Seq<u8>)
    requires
        memory.len() >= BASE_ADDR + MP_TABLES_SIZE,
    ensures
        ({
            let m = with_mp_tables(memory);
            &&& m[0xF_003C] == 0 && m[0xF_0050] == 1 && m[0xF_0058] == 2
            &&& m[0xF_0070] == 4 && m[0xF_0078] == 4
            &&& m[0xF_0065] == 4 && m[0xF_0067] == 4
            &&& m[0xF_006D] == 9 && m[0xF_006F] == 9
        }),
{
    lemma_bytes(memory);
    let m = with_mp_tables(memory);
    let tail = m.subrange(0xF_0030, 0xF_0080);
    assert forall|i: int| 0xF_0030 <= i < 0xF_0080 implies m[i] == tail[i - 0xF_0030] by {}
}

/// The pin that the table gives for the I/O channel's interrupt is the one that the
/// hypervisor raises: a request that is due is delivered with the vector that the
/// guest programmed for that pin.
pub proof fn advertised_channel_pin_is_the_raised_one(memory: Seq<u8>, k: nat, s: VmState)
    requires
        memory.len() >= 0xF_0080,
        k < table_entries(with_mp_tables(memory)),
        with_mp_tables(memory)[table_entry(with_mp_tables(memory), k)] == 3,
        with_mp_tables(memory)[table_entry(with_mp_tables(memory), k) + 5] == 9,
        s.io_channel.page_gpa != 0,
        s.io_channel.request_len != 0,
        !s.io_channel.request_delivered,
        s.emulated_tsc >= s.io_channel.request_target_tsc,
        ({
            let pin = with_mp_tables(memory)[table_entry(with_mp_tables(memory), k) + 7];
            let entry = s.devices.ioapic.redtbl@[pin as int];
            (entry >> 16) & 1 == 0 && entry & 0xFF >= 16
        }),
    ensures
        ({
            let pin = with_mp_tables(memory)[table_entry(with_mp_tables(memory), k) + 7];
            let entry = s.devices.ioapic.redtbl@[pin as int];
            let after = crate::vmx::exits::interrupts::io_channel_checked(s);
            &&& after.io_channel.request_delivered
            &&& crate::vmx::devices::vectors::has_vector(
                after.devices.apic.irr@,
                (entry & 0xFF) as u8,
            )
        }),
{
    no_other_interrupt_is_routed(memory, k);
    let entry = s.devices.ioapic.redtbl@[9];
    crate::vmx::devices::vectors::vector_bits_are_independent(
        s.devices.apic.irr@,
        (entry & 0xFF) as u8,
        (entry & 0xFF) as u8,
    );
}

/// The one processor of the table is enabled and starts the system, has APIC ID 0,
/// and bears the signature that CPUID gives: its family, model and stepping. Its
/// local APIC takes external interrupts of the old controller on input 0 and NMIs on
/// input 1.
pub proof fn processor_is_described(
    memory: Seq<u8>,
    subleaf: u32,
    tsc_frequency: u64,
    host: CpuidRegs,
)
    requires
        memory.len() >= 0xF_0080,
    ensures
        ({
            let m = with_mp_tables(memory);
            let at = table_entry(m, 0);
            let cpuid = crate::vmx::exits::cpuid::guest_cpuid(1, subleaf, tsc_frequency, host);
            &&& m[at] == 0 && m[at + 3] == 3
            &&& m[at + 1] == cpuid.ebx >> 24 == 0
            &&& crate::bytes::le_value(m.subrange(at + 4, at + 8)) == cpuid.eax & 0xFFF
        }),
        ({
            let m = with_mp_tables(memory);
            let last = (table_entries(m) - 1) as nat;
            let ext = table_entry(m, (last - 1) as nat);
            let nmi = table_entry(m, last);
            &&& m[ext] == 4 && m[ext + 1] == 3 && m[ext + 6] == 0xFF && m[ext + 7] == 0
            &&& m[nmi] == 4 && m[nmi + 1] == 1 && m[nmi + 6] == 0xFF && m[nmi + 7] == 1
        }),
{
    lemma_bytes(memory);
    lemma_entries(memory);
    let m = with_mp_tables(memory);
    let tail = m.subrange(0xF_0030, 0xF_0080);
    assert forall|i: int| 0xF_0030 <= i < 0xF_0080 implies m[i] == tail[i - 0xF_0030] by {}
    reveal_with_fuel(crate::bytes::le_value, 5);
    let ebx = host.ebx;
    assert(((ebx & 0x0000_FFFF) | 0x0001_0000) >> 24 == 0 && 0x0005_0657u32 & 0xFFF == 0x657)
        by (bit_vector);
}

} // verus!
