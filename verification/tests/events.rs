//! The event stream.

use bedrock::vm::events::{Event, EventStream};
use bedrock::vmx::events::{
    align_up, push_record, EventCategories, EventHeader, EventKind, InjectPayload,
    IoChannelPayload, IoChannelPhase, RandomPayload, EVENT_FLAG_DETERMINISTIC,
    EVENT_HEADER_SIZE,
};

#[test]
fn header_is_32_bytes_no_padding() {
    assert_eq!(core::mem::size_of::<EventHeader>(), 32);
    assert_eq!(core::mem::size_of::<EventHeader>(), EVENT_HEADER_SIZE);
}

#[test]
fn payload_sizes_are_fixed() {
    assert_eq!(core::mem::size_of::<InjectPayload>(), 16);
    assert_eq!(core::mem::size_of::<RandomPayload>(), 16);
    assert_eq!(core::mem::size_of::<IoChannelPayload>(), 16);
}

#[test]
fn align_up_rounds_to_eight() {
    assert_eq!(align_up(0, 8), 0);
    assert_eq!(align_up(1, 8), 8);
    assert_eq!(align_up(8, 8), 8);
    assert_eq!(align_up(9, 8), 16);
    assert_eq!(align_up(32 + 16, 8), 48);
    // Serial line of 13 bytes -> record body padded to 16.
    assert_eq!(align_up(13, 8), 16);
}

#[test]
fn kind_to_category_mapping() {
    assert_eq!(EventKind::Exit.category().0, EventCategories::EXIT);
    assert_eq!(EventKind::Serial.category().0, EventCategories::SERIAL);
    assert_eq!(EventKind::Inject.category().0, EventCategories::INJECT);
    assert_eq!(
        EventKind::Randomness.category().0,
        EventCategories::RANDOMNESS
    );
    assert_eq!(
        EventKind::IoChannel.category().0,
        EventCategories::IO_CHANNEL
    );
    assert_eq!(
        EventKind::Diagnostic.category().0,
        EventCategories::DIAGNOSTIC
    );
}

#[test]
fn default_flags_clear_deterministic_only_for_diagnostic() {
    assert_eq!(EventKind::Serial.default_flags(), EVENT_FLAG_DETERMINISTIC);
    assert_eq!(EventKind::Exit.default_flags(), EVENT_FLAG_DETERMINISTIC);
    assert_eq!(
        EventKind::Randomness.default_flags(),
        EVENT_FLAG_DETERMINISTIC
    );
    assert_eq!(EventKind::Diagnostic.default_flags(), 0);
}

#[test]
fn categories_contains_and_union() {
    let serial = EventCategories(EventCategories::SERIAL);
    let randomness = EventCategories(EventCategories::RANDOMNESS);
    let mask = serial.union(randomness);
    assert!(mask.contains(serial));
    assert!(mask.contains(randomness));
    assert!(!mask.contains(EventCategories(EventCategories::EXIT)));
    assert!(!mask.contains(EventCategories(EventCategories::INJECT)));
    assert!(EventCategories::empty().0 == 0);
    // contains(empty) is always true.
    assert!(EventCategories::empty().contains(EventCategories::empty()));
}

#[test]
fn kind_as_u16_matches_discriminant() {
    assert_eq!(EventKind::Exit.as_u16(), 0);
    assert_eq!(EventKind::Serial.as_u16(), 1);
    assert_eq!(EventKind::Inject.as_u16(), 2);
    assert_eq!(EventKind::Randomness.as_u16(), 3);
    assert_eq!(EventKind::IoChannel.as_u16(), 4);
    assert_eq!(EventKind::Diagnostic.as_u16(), 5);
}

#[test]
fn kind_numbers_are_undone() {
    for number in 0..6u16 {
        assert_eq!(EventKind::from_u16(number).unwrap().as_u16(), number);
    }
    assert!(EventKind::from_u16(6).is_none());
}

#[test]
fn header_is_little_endian() {
    let header = EventHeader {
        seq: 1,
        tsc: 2,
        real_tsc: 3,
        kind: 4,
        flags: 5,
        len: 6,
    };
    let mut out = Vec::new();
    header.encode(&mut out);
    let mut expected = vec![0u8; 32];
    expected[0] = 1;
    expected[8] = 2;
    expected[16] = 3;
    expected[24] = 4;
    expected[26] = 5;
    expected[28] = 6;
    assert_eq!(out, expected);
    assert_eq!(EventHeader::decode(&out), header);
}

#[test]
fn payloads_survive_their_bytes() {
    let random = RandomPayload {
        value: 0x1122_3344_5566_7788,
        source: 1,
        width: 4,
        _pad: [0; 6],
    };
    assert_eq!(RandomPayload::decode(&random.as_bytes()), random);
    let io = IoChannelPayload {
        phase: IoChannelPhase::Response.as_u8(),
        _pad: [0; 7],
        target_tsc: 77,
    };
    assert_eq!(IoChannelPayload::decode(&io.as_bytes()), io);
}

#[test]
fn stream_gives_back_its_records() {
    let mut buf = Vec::new();
    push_record(&mut buf, 0, 10, 100, EventKind::Serial.as_u16(), 1, b"hello\n");
    assert_eq!(buf.len(), 40);
    push_record(&mut buf, 1, 20, 200, 99, 0, b"12345678");
    let mut stream = EventStream::new(&buf);
    let first = stream.next_record().unwrap();
    assert_eq!(first.tsc(), 10);
    assert_eq!(first.payload, b"hello\n");
    assert!(matches!(first.event(), Event::Serial(b"hello\n")));
    let second = stream.next_record().unwrap();
    assert_eq!(second.header.seq, 1);
    assert_eq!(second.payload, b"12345678");
    assert!(matches!(second.event(), Event::Unknown(99, b"12345678")));
    assert!(stream.next_record().is_none());
    assert!(stream.next_record().is_none());
}

#[test]
fn truncated_record_ends_the_stream() {
    let mut buf = Vec::new();
    push_record(&mut buf, 0, 10, 0, EventKind::Serial.as_u16(), 1, b"complete");
    push_record(&mut buf, 1, 20, 0, EventKind::Serial.as_u16(), 1, b"cut off!");
    let cut = &buf[..buf.len() - 1];
    let mut stream = EventStream::new(cut);
    assert!(stream.next_record().is_some());
    assert!(stream.next_record().is_none());
}
