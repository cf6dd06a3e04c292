//! Recording and replaying inputs, and the bash I/O channel.
//!
//! These exercise the pure decode path with hand-built event bytes, so they need
//! no VM.

use bedrock::lab::bash::{encode_request as encode_bash, BashOutput, BashTarget};
use bedrock::lab::rng::{
    InputRecording, InputSource, IoInput, RecordedInputSource, RngInput, RngMode,
};
use bedrock::lab::time::VirtTime;
use bedrock::vm::events::EventStream;
use bedrock::vm::io_channel::{decode_request, encode_request, IoTarget};
use bedrock::vmx::events::{
    EventKind, IoChannelPayload, IoChannelPhase, RandomPayload, EVENT_FLAG_DETERMINISTIC,
    EVENT_HEADER_SIZE,
};

const FREQ: u64 = 2_995_200_000;

/// Append one TLV record to `buf`, padding to an 8-byte boundary, by hand.
fn push_record(buf: &mut Vec<u8>, seq: u64, tsc: u64, kind: u16, payload: &[u8]) {
    let before = buf.len();
    buf.extend_from_slice(&seq.to_le_bytes());
    buf.extend_from_slice(&tsc.to_le_bytes());
    buf.extend_from_slice(&0u64.to_le_bytes()); // real_tsc, ignored on decode
    buf.extend_from_slice(&kind.to_le_bytes());
    buf.extend_from_slice(&EVENT_FLAG_DETERMINISTIC.to_le_bytes());
    buf.extend_from_slice(&(payload.len() as u32).to_le_bytes());
    assert_eq!(buf.len() - before, EVENT_HEADER_SIZE);
    buf.extend_from_slice(payload);
    while buf.len() % 8 != 0 {
        buf.push(0);
    }
}

fn random_record(buf: &mut Vec<u8>, seq: u64, tsc: u64, value: u64) {
    let p = RandomPayload {
        value,
        source: 0, // RDRAND
        width: 8,
        _pad: [0; 6],
    };
    push_record(buf, seq, tsc, EventKind::Randomness.as_u16(), &p.as_bytes());
}

fn io_record(buf: &mut Vec<u8>, seq: u64, tsc: u64, phase: IoChannelPhase, envelope: &[u8]) {
    let meta = IoChannelPayload {
        phase: phase.as_u8(),
        _pad: [0; 7],
        // Source-driven requests are queued fire-ASAP, so the wire `target_tsc`
        // is 0; the header `tsc` is what the recording uses for `at`.
        target_tsc: 0,
    };
    let mut payload = meta.as_bytes();
    payload.extend_from_slice(envelope);
    push_record(buf, seq, tsc, EventKind::IoChannel.as_u16(), &payload);
}

/// Drive every record in `buf` through `record_event`.
fn recording_from(buf: &[u8]) -> InputRecording {
    let mut rec = InputRecording::new();
    let mut stream = EventStream::new(buf);
    while let Some(record) = stream.next_record() {
        rec.record_event(&record, FREQ);
    }
    rec
}

#[test]
fn randomness_events_become_rng_inputs() {
    let mut buf = Vec::new();
    random_record(&mut buf, 0, 1_000, 0xDEAD_BEEF);
    random_record(&mut buf, 1, 2_000, 0x0BAD_F00D);

    let rec = recording_from(&buf);
    assert_eq!(rec.io_inputs().len(), 0);
    assert_eq!(
        rec.rng_inputs(),
        &[
            RngInput {
                at: VirtTime::from_instructions(1_000, FREQ),
                value: 0xDEAD_BEEF,
            },
            RngInput {
                at: VirtTime::from_instructions(2_000, FREQ),
                value: 0x0BAD_F00D,
            },
        ]
    );
}

#[test]
fn io_request_events_become_io_inputs() {
    let mut buf = Vec::new();
    io_record(
        &mut buf,
        0,
        3_000,
        IoChannelPhase::Request,
        &encode_request(None, "echo hi", true),
    );
    io_record(
        &mut buf,
        1,
        4_000,
        IoChannelPhase::Request,
        &encode_request(Some("bitcoind1"), "bitcoin-cli getinfo", false),
    );

    let rec = recording_from(&buf);
    assert_eq!(rec.rng_inputs().len(), 0);
    assert_eq!(
        rec.io_inputs(),
        &[
            IoInput {
                at: VirtTime::from_instructions(3_000, FREQ),
                target: BashTarget::Host,
                command: "echo hi".to_string(),
                record_output: true,
            },
            IoInput {
                at: VirtTime::from_instructions(4_000, FREQ),
                target: BashTarget::container("bitcoind1"),
                command: "bitcoin-cli getinfo".to_string(),
                record_output: false,
            },
        ]
    );
}

#[test]
fn responses_and_other_kinds_are_ignored() {
    let mut buf = Vec::new();
    // An I/O channel *response* carries host-derived output, not an input.
    io_record(
        &mut buf,
        0,
        10,
        IoChannelPhase::Response,
        b"opaque response",
    );
    // A serial line is not an input either.
    push_record(&mut buf, 1, 20, EventKind::Serial.as_u16(), b"hello\n");
    // ...but a request between them still records.
    io_record(
        &mut buf,
        2,
        30,
        IoChannelPhase::Request,
        &encode_request(None, "true", false),
    );

    let rec = recording_from(&buf);
    assert_eq!(rec.rng_inputs().len(), 0);
    assert_eq!(rec.io_inputs().len(), 1);
    assert_eq!(rec.io_inputs()[0].command, "true");
}

#[test]
fn recording_round_trips_through_replay_source() {
    let mut buf = Vec::new();
    random_record(&mut buf, 0, 1_000, 0x11);
    io_record(
        &mut buf,
        1,
        2_000,
        IoChannelPhase::Request,
        &encode_request(None, "first", false),
    );
    random_record(&mut buf, 2, 3_000, 0x22);
    io_record(
        &mut buf,
        3,
        4_000,
        IoChannelPhase::Request,
        &encode_request(None, "second", true),
    );

    let rec = recording_from(&buf);
    let mut source = RecordedInputSource::new(rec);

    // RNG and I/O each replay in capture order, on independent cursors.
    assert_eq!(source.next_rng_u64(), Some(0x11));
    assert_eq!(source.next_rng_u64(), Some(0x22));
    assert_eq!(source.next_rng_u64(), None);

    let first = source.next_io_input().unwrap();
    assert_eq!(first.command, "first");
    assert!(!first.record_output);
    let second = source.next_io_input().unwrap();
    assert_eq!(second.command, "second");
    assert!(second.record_output);
    assert!(source.next_io_input().is_none());
}

#[test]
fn cloned_source_replays_from_where_it_stands() {
    let mut buf = Vec::new();
    random_record(&mut buf, 0, 1, 5);
    random_record(&mut buf, 1, 2, 6);
    let mut source = RecordedInputSource::from(recording_from(&buf));
    assert_eq!(source.recording().rng_inputs().len(), 2);
    assert_eq!(source.next_rng_u64(), Some(5));
    let mut copy = source.clone_box();
    assert_eq!(copy.next_rng_u64(), Some(6));
    assert_eq!(source.next_rng_u64(), Some(6));
    assert_eq!(source.next_rng_u64(), None);
}

#[test]
fn pulls_of_one_kind_do_not_disturb_the_other() {
    let mut buf = Vec::new();
    for i in 0..3 {
        random_record(&mut buf, 2 * i, u64::from(i), 100 + u64::from(i));
        io_record(
            &mut buf,
            2 * i + 1,
            u64::from(i),
            IoChannelPhase::Request,
            &encode_request(None, &format!("cmd{i}"), false),
        );
    }
    let rec = recording_from(&buf);
    let mut source = RecordedInputSource::new(rec.clone());
    assert_eq!(source.next_io_input().unwrap().command, "cmd0");
    assert_eq!(source.next_rng_u64(), Some(100));
    assert_eq!(source.next_io_input().unwrap().command, "cmd1");
    assert_eq!(source.next_io_input().unwrap().command, "cmd2");
    let mut copy = source.clone_box();
    assert!(source.next_io_input().is_none());
    assert_eq!(source.next_rng_u64(), Some(101));
    assert_eq!(source.next_rng_u64(), Some(102));
    assert_eq!(source.next_rng_u64(), None);
    assert!(source.next_io_input().is_none());
    assert_eq!(source.next_rng_u64(), None);
    assert_eq!(source.recording(), &rec);
    // The copy goes on from where it was taken.
    assert_eq!(copy.next_rng_u64(), Some(101));
    assert!(copy.next_io_input().is_none());
}

#[test]
fn rng_mode_defaults_to_inheriting() {
    assert!(matches!(RngMode::default(), RngMode::Inherit));
}

#[test]
fn requests_survive_the_wire() {
    let bytes = encode_request(Some("db"), "psql -c 'select 1'", true);
    let request = decode_request(&bytes).unwrap();
    assert!(matches!(&request.target, IoTarget::Container(name) if name == "db"));
    assert_eq!(request.command, "psql -c 'select 1'");
    assert!(request.record_output);

    let bytes = encode_bash(&BashTarget::host(), "true", false);
    let request = decode_request(&bytes).unwrap();
    assert!(matches!(request.target, IoTarget::Host));
    assert_eq!(request.command, "true");
    assert!(!request.record_output);

    assert!(decode_request(&[]).is_none());
}

#[test]
fn targets_name_their_container() {
    assert_eq!(BashTarget::host().container_name(), None);
    assert_eq!(BashTarget::container("web").container_name(), Some("web"));
}

#[test]
fn success_takes_delivery_and_exit_code() {
    let output = |status: i32, exit_code: i32| BashOutput {
        status,
        exit_code,
        output: Vec::new(),
    };
    assert!(output(0, 0).success());
    assert!(!output(0, 1).success());
    assert!(!output(-1, 0).success());
}

#[test]
fn output_is_decoded_lossily() {
    let output = BashOutput {
        status: 0,
        exit_code: 0,
        output: vec![b'o', b'k', 0xff, b'!'],
    };
    assert_eq!(output.output_lossy(), "ok\u{fffd}!");
    let output = BashOutput {
        status: 0,
        exit_code: 0,
        output: "h\u{e9}llo".as_bytes().to_vec(),
    };
    assert_eq!(output.output_lossy(), "h\u{e9}llo");
}
