//! Exit records and state hashes.

use bedrock::vmx::devices::ioapic::IoApicState;
use bedrock::vmx::devices::rtc::RtcState;
use bedrock::vmx::exit_record::hash::{hash_guest_memory, StateHash, Xxh64Hasher};
use bedrock::vmx::exit_record::record::{ExitRecord, EXIT_RECORD_SIZE};

#[test]
fn test_xxh64_cargo_returns_zero() {
    let h = Xxh64Hasher::new();
    assert_eq!(h.finish(), 0);
}

#[test]
fn test_hash_guest_memory_cargo_returns_zero() {
    let memory = [0u8; 4096];
    assert_eq!(hash_guest_memory(&memory), 0);
}

#[test]
fn test_log_entry_size() {
    assert_eq!(core::mem::size_of::<ExitRecord>(), 512);
    assert_eq!(EXIT_RECORD_SIZE, 512);
}

#[test]
fn hasher_is_fed_little_endian() {
    let mut h = Xxh64Hasher::new();
    h.write_u8(0x01);
    h.write_u16(0x0302);
    h.write_u32(0x0706_0504);
    h.write_u64(0x0f0e_0d0c_0b0a_0908);
    h.write_u32s(&[0x1312_1110]);
    h.write_u64s(&[0x1b1a_1918_1716_1514]);
    h.write_bytes(&[0x1c, 0x1d]);
    let expected: Vec<u8> = (0x01..=0x1d).collect();
    assert_eq!(h.stream(), &expected[..]);
    assert_eq!(h.finish(), 0);
}

#[test]
fn device_state_is_handed_out_to_be_digested() {
    let rtc = RtcState {
        index: 0x32,
        base_time: 0x0807_0605_0403_0201,
    };
    assert_eq!(rtc.state_stream(), vec![0x32, 1, 2, 3, 4, 5, 6, 7, 8]);
    assert_eq!(rtc.state_hash(), 0);
    let ioapic = IoApicState {
        ioregsel: 0x10,
        id: 0x0200_0000,
        redtbl: [0x1_0000; 24],
    };
    let stream = ioapic.state_stream();
    assert_eq!(stream.len(), 4 + 4 + 24 * 8);
    assert_eq!(stream[..8], [0x10, 0, 0, 0, 0, 0, 0, 2]);
}
