//! What is read out of the host's descriptor tables.

use vstd::prelude::*;

use crate::bytes::read_le;

verus! {

/// Bytes of a system segment descriptor in 64-bit mode.
pub const TSS_DESCRIPTOR_SIZE: usize = 16;

/// The table index that a selector holds, without its privilege and table bits.
pub open spec fn selector_index(selector: u16) -> int {
    selector as int / 8
}

/// The base address in a 64-bit TSS descriptor, which scatters its bytes.
///
/// ```text
/// Bytes 0-1: Limit 15:0
/// Bytes 2-3: Base 15:0
/// Byte 4: Base 23:16
/// Byte 5: Type/Attributes
/// Byte 6: Limit 19:16 / Flags
/// Byte 7: Base 31:24
/// Bytes 8-11: Base 63:32
/// Bytes 12-15: Reserved
/// ```
pub open spec fn descriptor_base(d: Seq<u8>) -> nat {
    crate::bytes::le_value(seq![d[2], d[3], d[4], d[7], d[8], d[9], d[10], d[11]])
}

/// Where the descriptor that the task register selects lies.
pub open spec fn descriptor_address(gdtr_base: u64, tr: u16) -> Option<int> {
    if selector_index(tr) == 0 {
        None
    } else {
        Some(gdtr_base + 8 * selector_index(tr))
    }
}

/// Where the descriptor that the task register selects lies, if it selects one.
pub fn tr_descriptor_address(gdtr_base: u64, tr: u16) -> (r: Option<u64>)
    requires
        gdtr_base + 8 * selector_index(tr) <= u64::MAX,
    ensures
        r == (if selector_index(tr) == 0 {
            None
        } else {
            Some((gdtr_base + 8 * selector_index(tr)) as u64)
        }),
        r is Some <==> descriptor_address(gdtr_base, tr) is Some,
        r is Some ==> r->0 == descriptor_address(gdtr_base, tr)->0,
{
    let index: u64 = (tr / 8) as u64;
    if index == 0 {
        return None;
    }
    Some(gdtr_base + index * 8)
}

/// The base of the task state segment that `descriptor` describes.
pub fn tss_base(descriptor: &[u8]) -> (r: u64)
    requires
        descriptor.len() >= TSS_DESCRIPTOR_SIZE,
    ensures
        r == descriptor_base(descriptor@),
{
    let mut base: Vec<u8> = Vec::new();
    base.push(descriptor[2]);
    base.push(descriptor[3]);
    base.push(descriptor[4]);
    base.push(descriptor[7]);
    base.push(descriptor[8]);
    base.push(descriptor[9]);
    base.push(descriptor[10]);
    base.push(descriptor[11]);
    let ghost d = descriptor@;
    assert(base@.subrange(0, 8) =~= seq![d[2], d[3], d[4], d[7], d[8], d[9], d[10], d[11]]);
    read_le(base.as_slice(), 0, 8)
}

/// The base of the current task state segment: 0 where the task register
/// selects nothing, else what the descriptor at its place says.
pub fn read_tr_base(tr: u16, descriptor: &[u8]) -> (r: u64)
    requires
        selector_index(tr) != 0 ==> descriptor.len() >= TSS_DESCRIPTOR_SIZE,
    ensures
        r == (if selector_index(tr) == 0 {
            0
        } else {
            descriptor_base(descriptor@)
        }),
{
    if tr / 8 == 0 {
        return 0;
    }
    tss_base(descriptor)
}

/// A descriptor whose base bytes are scattered as the processor has them, and a base
/// that is put together from them: the base's bytes 0 to 2 are the descriptor's 2 to
/// 4, byte 3 is its byte 7, and the upper half its bytes 8 to 11.
pub proof fn base_is_gathered_from_its_bytes(d: Seq<u8>, base: u64)
    requires
        d.len() >= 16,
        d[2] == base as int % 0x100,
        d[3] == (base as int / 0x100) % 0x100,
        d[4] == (base as int / 0x1_0000) % 0x100,
        d[7] == (base as int / 0x100_0000) % 0x100,
        d[8] == (base as int / 0x1_0000_0000) % 0x100,
        d[9] == (base as int / 0x100_0000_0000) % 0x100,
        d[10] == (base as int / 0x1_0000_0000_0000) % 0x100,
        d[11] == (base as int / 0x100_0000_0000_0000) % 0x100,
    ensures
        descriptor_base(d) == base,
{
    let bytes = seq![d[2], d[3], d[4], d[7], d[8], d[9], d[10], d[11]];
    let v = base as nat;
    crate::bytes::capacities();
    crate::bytes::le_round_trip(v, 8);
    reveal_with_fuel(crate::bytes::le_bytes, 9);
    assert(v / 256 / 256 == v / 0x1_0000);
    assert(v / 0x1_0000 / 256 == v / 0x100_0000);
    assert(v / 0x100_0000 / 256 == v / 0x1_0000_0000);
    assert(v / 0x1_0000_0000 / 256 == v / 0x100_0000_0000);
    assert(v / 0x100_0000_0000 / 256 == v / 0x1_0000_0000_0000);
    assert(v / 0x1_0000_0000_0000 / 256 == v / 0x100_0000_0000_0000);
    assert(crate::bytes::le_bytes(v, 8) =~= bytes);
}

/// A selector's privilege level and table bit do not matter.
pub proof fn selector_bits_are_left_out(index: u16, low: u16)
    requires
        index < 0x2000,
        low < 8,
    ensures
        selector_index((8 * index + low) as u16) == index,
{
}

/// The task register's descriptor is the entry of the table that its selector names,
/// eight bytes to an entry; a null selector names none, whatever its low bits.
pub proof fn task_register_names_a_table_entry(gdtr_base: u64, index: u16, low: u16)
    requires
        index < 0x2000,
        low < 8,
    ensures
        ({
            let r = descriptor_address(gdtr_base, (8 * index + low) as u16);
            &&& index == 0 ==> r is None
            &&& index != 0 ==> r == Some(gdtr_base + 8 * index)
        }),
{
    selector_bits_are_left_out(index, low);
}

} // verus!
