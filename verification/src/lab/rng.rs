//! RDRAND/RDSEED emulation modes available to a lab experiment.
//!
//! The RNG mode is picked once when constructing the tree and applies to every
//! branch forked from any checkpoint in the tree. Two kernel-side modes
//! (`Seeded` and `Inherit`) run entirely inside the hypervisor with no userspace
//! round-trip per RDRAND. The third ([`RngMode::Source`]) pulls fresh values from
//! a userspace [`InputSource`] on every `RDRAND`/`RDSEED`.

use vstd::prelude::*;

use super::bash::BashTarget;
use super::time::VirtTime;
use crate::vm::events::{Event, EventRecord, RecordView};
use crate::vm::io_channel::{decode_request, IoTarget, RequestView};
use crate::vmx::events::{
    EventHeader, EventKind, IoChannelPayload, IoChannelPhase, RandomPayload,
};

verus! {

/// One host-driven I/O action supplied by an [`InputSource`].
#[derive(Debug, Clone, PartialEq, Eq)]
pub struct IoInput {
    /// Virtual time at which the command should be injected.
    pub at: VirtTime,
    /// Where the command should run.
    pub target: BashTarget,
    /// Command to run.
    pub command: String,
    /// Whether to capture the command's output into the output feedback buffer.
    pub record_output: bool,
}

/// One RDRAND/RDSEED value fed to a branch.
#[derive(Debug, Clone, Copy, PartialEq, Eq, Structural)]
pub struct RngInput {
    /// Virtual time at which the value was fed.
    pub at: VirtTime,
    /// Value returned to the guest instruction.
    pub value: u64,
}

/// The randomness that a record carries as an input.
pub open spec fn rng_input_of(record: RecordView, freq: u64) -> Option<RngInput> {
    if EventKind::of(record.header.kind) == Some(EventKind::Randomness) && record.payload.len()
        >= 16 {
        Some(
            RngInput {
                at: VirtTime { instructions: record.header.tsc, frequency: freq },
                value: crate::bytes::le_value(record.payload.subrange(0, 8)) as u64,
            },
        )
    } else {
        None
    }
}

/// The I/O request that a record carries as an input.
pub open spec fn request_of(record: RecordView) -> Option<RequestView> {
    if EventKind::of(record.header.kind) == Some(EventKind::IoChannel) && record.payload.len() >= 16
        && record.payload[0] == IoChannelPhase::Request.number() {
        crate::vm::io_channel::parsed_request(record.payload.skip(16))
    } else {
        None
    }
}

/// Whether an I/O action is what a request at time `tsc` asks for.
pub open spec fn is_input_for(input: IoInput, request: RequestView, tsc: u64, freq: u64) -> bool {
    &&& input.at == (VirtTime { instructions: tsc, frequency: freq })
    &&& input.record_output == request.record_output
    &&& crate::vm::io_channel::is_text_of(input.command@, request.command)
    &&& match request.container {
        None => input.target == BashTarget::Host,
        Some(name) => input.target is Container && crate::vm::io_channel::is_text_of(
            input.target->Container_0@,
            name,
        ),
    }
}

/// Inputs consumed by a branch, suitable for replay.
///
/// The recording is reconstructed from the branch's unified event stream rather
/// than tracked separately: a branch with an [`InputSource`] forces on the
/// `Randomness` and `IoChannel` event categories, and every drained record is
/// fed through [`record_event`](Self::record_event). The stream is therefore the
/// single source of truth for what reached the guest.
#[derive(Debug, Clone, PartialEq, Eq)]
pub struct InputRecording {
    rng_inputs: Vec<RngInput>,
    io_inputs: Vec<IoInput>,
}

impl Default for InputRecording {
    fn default() -> (r: Self)
        ensures
            r.rng().len() == 0,
            r.io().len() == 0,
    {
        InputRecording { rng_inputs: Vec::new(), io_inputs: Vec::new() }
    }
}

impl InputRecording {
    /// Recorded randomness, in consumption order.
    pub closed spec fn rng(&self) -> Seq<RngInput> {
        self.rng_inputs@
    }

    /// Recorded I/O actions, in queue order.
    pub closed spec fn io(&self) -> Seq<IoInput> {
        self.io_inputs@
    }

    /// Create an empty recording.
    pub fn new() -> (r: Self)
        ensures
            r.rng().len() == 0,
            r.io().len() == 0,
    {
        Self::default()
    }

    /// RDRAND/RDSEED values fed to the branch, in consumption order.
    pub fn rng_inputs(&self) -> (r: &[RngInput])
        ensures
            r@ == self.rng(),
    {
        self.rng_inputs.as_slice()
    }

    /// I/O actions queued from the branch's [`InputSource`], in queue order.
    pub fn io_inputs(&self) -> (r: &[IoInput])
        ensures
            r@ == self.io(),
    {
        self.io_inputs.as_slice()
    }

    /// Extract the determinism *input* carried by one event-stream record and
    /// append it to the recording. A `Randomness` record yields one
    /// [`RngInput`]; an `IoChannel` *request* yields one [`IoInput`]. Every other
    /// kind - including I/O channel *responses*, which carry host-derived
    /// output - is ignored.
    ///
    /// `freq` converts the record's emulated-TSC timestamp into [`VirtTime`].
    /// For I/O the record's own emit TSC (the moment the request was signaled to
    /// the guest) is used, not the request's scheduled `target_tsc`: source-driven
    /// requests are queued "fire as soon as interruptible" (target 0), so the
    /// emit TSC is the point a replay must stop at to re-inject the command.
    pub fn record_event(&mut self, record: &EventRecord<'_>, freq: u64)
        ensures
            final(self).rng() == (match rng_input_of(record@, freq) {
                Some(input) => old(self).rng().push(input),
                None => old(self).rng(),
            }),
            match request_of(record@) {
                Some(request) => {
                    &&& final(self).io().len() == old(self).io().len() + 1
                    &&& final(self).io().drop_last() == old(self).io()
                    &&& is_input_for(final(self).io().last(), request, record.header.tsc, freq)
                },
                None => final(self).io() == old(self).io(),
            },
    {
        match record.event() {
            Event::Randomness(p) => {
                self.rng_inputs.push(
                    RngInput {
                        at: VirtTime::from_instructions(record.tsc(), freq),
                        value: p.value,
                    },
                );
            },
            Event::IoChannel(meta, data) => {
                if meta.phase != IoChannelPhase::Request.as_u8() {
                    return ;
                }
                let req = match decode_request(data) {
                    Some(req) => req,
                    None => {
                        return ;
                    },
                };
                let input = IoInput {
                    at: VirtTime::from_instructions(record.tsc(), freq),
                    target: match req.target {
                        IoTarget::Host => BashTarget::Host,
                        IoTarget::Container(name) => BashTarget::Container(name),
                    },
                    command: req.command,
                    record_output: req.record_output,
                };
                self.io_inputs.push(input);
                assert(self.io_inputs@.drop_last() =~= old(self).io_inputs@);
            },
            _ => {},
        }
    }
}

/// A userspace source of lab inputs.
///
/// The RNG side is used to serve guest RDRAND/RDSEED instructions when a
/// tree is configured with [`RngMode::Source`]. The I/O side lets callers
/// keep deterministic host-driven I/O inputs in the same forked stream.
///
/// Sources must be cloneable: every checkpoint captures the source state
/// at its creation point, and every branch forks off its own clone. That
/// way branching twice produces two branches whose input streams are
/// independent of the order in which they're driven - same model as VM
/// state itself.
pub trait InputSource: Send + Sync {
    /// Pull the next RNG `u64` from the source.
    ///
    /// Return `None` to signal exhaustion. Once `None` is returned, future calls
    /// should keep returning `None`.
    fn next_rng_u64(&mut self) -> Option<u64>;

    /// Pull the next I/O input from the source.
    ///
    /// Return `None` to signal that no more I/O input is available from this
    /// source.
    fn next_io_input(&mut self) -> (r: Option<IoInput>)
        default_ensures
            r is None,
    {
        None
    }

    /// Produce an independent copy of this source. Future input pulls on the
    /// clone must not affect this source's stream, and vice versa.
    fn clone_box(&self) -> Box<Self> where Self: Sized;
}

/// A pull on a source: of a random value, or of an I/O action.
#[derive(Debug, Clone, Copy, PartialEq, Eq, Structural)]
pub enum Pull {
    Rng,
    Io,
}

/// How many of the pulls are of the given kind.
pub open spec fn pulls_of(pulls: Seq<Pull>, kind: Pull) -> nat
    decreases pulls.len(),
{
    if pulls.len() == 0 {
        0
    } else if pulls.last() == kind {
        pulls_of(pulls.drop_last(), kind) + 1
    } else {
        pulls_of(pulls.drop_last(), kind)
    }
}

/// Replay source backed by an [`InputRecording`].
#[derive(Debug, Clone)]
pub struct RecordedInputSource {
    recording: InputRecording,
    rng_pos: usize,
    io_pos: usize,
}

impl RecordedInputSource {
    /// The recording that is replayed.
    pub closed spec fn recorded(&self) -> InputRecording {
        self.recording
    }

    /// How many random values have been replayed.
    pub closed spec fn rng_position(&self) -> int {
        self.rng_pos as int
    }

    /// How many I/O actions have been replayed.
    pub closed spec fn io_position(&self) -> int {
        self.io_pos as int
    }

    /// What the next pull of a random value gives.
    pub open spec fn next_rng(&self) -> Option<u64> {
        if self.rng_position() < self.recorded().rng().len() {
            Some(self.recorded().rng()[self.rng_position()].value)
        } else {
            None
        }
    }

    /// What the next pull of an I/O action gives.
    pub open spec fn next_io(&self) -> Option<IoInput> {
        if self.io_position() < self.recorded().io().len() {
            Some(self.recorded().io()[self.io_position()])
        } else {
            None
        }
    }

    /// The source after one pull. An exhausted stream stays where it is.
    pub closed spec fn pulled(self, pull: Pull) -> Self {
        match pull {
            Pull::Rng => if self.next_rng() is Some {
                RecordedInputSource { rng_pos: (self.rng_pos + 1) as usize, ..self }
            } else {
                self
            },
            Pull::Io => if self.next_io() is Some {
                RecordedInputSource { io_pos: (self.io_pos + 1) as usize, ..self }
            } else {
                self
            },
        }
    }

    /// The source after pulls, made in order.
    pub open spec fn after_pulls(self, pulls: Seq<Pull>) -> Self
        decreases pulls.len(),
    {
        if pulls.len() == 0 {
            self
        } else {
            self.after_pulls(pulls.drop_last()).pulled(pulls.last())
        }
    }

    /// Replay a previously captured recording.
    pub fn new(recording: InputRecording) -> (r: Self)
        ensures
            r.recorded() == recording,
            r.rng_position() == 0,
            r.io_position() == 0,
    {
        RecordedInputSource { recording, rng_pos: 0, io_pos: 0 }
    }

    /// Access the underlying recording.
    pub fn recording(&self) -> (r: &InputRecording)
        ensures
            *r == self.recorded(),
    {
        &self.recording
    }
}

impl From<InputRecording> for RecordedInputSource {
    fn from(recording: InputRecording) -> (r: Self)
        ensures
            r.recorded() == recording,
            r.rng_position() == 0,
            r.io_position() == 0,
    {
        Self::new(recording)
    }
}

impl vstd::std_specs::convert::FromSpecImpl<InputRecording> for RecordedInputSource {
    open spec fn obeys_from_spec() -> bool {
        true
    }

    closed spec fn from_spec(recording: InputRecording) -> RecordedInputSource {
        RecordedInputSource { recording, rng_pos: 0, io_pos: 0 }
    }
}

impl InputSource for RecordedInputSource {
    fn next_rng_u64(&mut self) -> (r: Option<u64>)
        ensures
            r == old(self).next_rng(),
            *final(self) == old(self).pulled(Pull::Rng),
            final(self).recorded() == old(self).recorded(),
            final(self).io_position() == old(self).io_position(),
            final(self).rng_position() == old(self).rng_position() + (if r is Some {
                1int
            } else {
                0
            }),
    {
        if self.rng_pos < self.recording.rng_inputs.len() {
            let value: u64 = self.recording.rng_inputs[self.rng_pos].value;
            self.rng_pos += 1;
            Some(value)
        } else {
            None
        }
    }

    fn next_io_input(&mut self) -> (r: Option<IoInput>)
        ensures
            r == old(self).next_io(),
            *final(self) == old(self).pulled(Pull::Io),
            final(self).recorded() == old(self).recorded(),
            final(self).rng_position() == old(self).rng_position(),
            final(self).io_position() == old(self).io_position() + (if r is Some {
                1int
            } else {
                0
            }),
    {
        if self.io_pos < self.recording.io_inputs.len() {
            let input = copy_input(&self.recording.io_inputs[self.io_pos]);
            self.io_pos += 1;
            Some(input)
        } else {
            None
        }
    }

    fn clone_box(&self) -> (r: Box<Self>)
        ensures
            r.recorded().rng() == self.recorded().rng(),
            r.recorded().io() == self.recorded().io(),
            r.rng_position() == self.rng_position(),
            r.io_position() == self.io_position(),
    {
        let mut rng_inputs: Vec<RngInput> = Vec::new();
        let mut i: usize = 0;
        while i < self.recording.rng_inputs.len()
            invariant
                i <= self.recording.rng_inputs@.len(),
                rng_inputs@ == self.recording.rng_inputs@.take(i as int),
            decreases self.recording.rng_inputs@.len() - i,
        {
            rng_inputs.push(self.recording.rng_inputs[i]);
            assert(rng_inputs@ =~= self.recording.rng_inputs@.take(i + 1));
            i += 1;
        }
        assert(rng_inputs@ =~= self.recording.rng_inputs@);
        let mut io_inputs: Vec<IoInput> = Vec::new();
        let mut i: usize = 0;
        while i < self.recording.io_inputs.len()
            invariant
                i <= self.recording.io_inputs@.len(),
                io_inputs@ == self.recording.io_inputs@.take(i as int),
            decreases self.recording.io_inputs@.len() - i,
        {
            io_inputs.push(copy_input(&self.recording.io_inputs[i]));
            assert(io_inputs@ =~= self.recording.io_inputs@.take(i + 1));
            i += 1;
        }
        assert(io_inputs@ =~= self.recording.io_inputs@);
        Box::new(
            RecordedInputSource {
                recording: InputRecording { rng_inputs, io_inputs },
                rng_pos: self.rng_pos,
                io_pos: self.io_pos,
            },
        )
    }
}

/// A copy of an I/O action.
fn copy_input(input: &IoInput) -> (r: IoInput)
    ensures
        r == *input,
{
    IoInput {
        at: input.at,
        target: match &input.target {
            BashTarget::Host => BashTarget::Host,
            BashTarget::Container(name) => BashTarget::Container(name.clone()),
        },
        command: input.command.clone(),
        record_output: input.record_output,
    }
}

/// How a tree should serve guest `RDRAND`/`RDSEED` instructions.
///
/// Set once on the root checkpoint; the mode is applied to the root VM's RDRAND
/// state and inherited by every forked branch via the standard COW VM-state fork.
pub enum RngMode {
    /// Don't touch the VM's RDRAND config - use whatever the caller set up on
    /// the VM. The default.
    Inherit,
    /// Kernel-side `xorshift64` PRNG starting from `seed`. Each branch's
    /// kernel state forks at branch creation, so two branches with no extra
    /// RDRANDs between fork and use start producing the same sequence.
    Seeded(u64),
    /// Exit to userspace on every guest `RDRAND`/`RDSEED` and serve the
    /// value from this source. The source is shared across every branch in
    /// the tree.
    Source(Box<dyn InputSource>),
}

impl Default for RngMode {
    fn default() -> (r: Self)
        ensures
            r is Inherit,
    {
        RngMode::Inherit
    }
}

/// Replaying gives the recorded streams back, each in its order and whatever pulls
/// of the other lie between: after `k` pulls of random values the next one gives
/// the `k`-th recorded value, and nothing from the end on; the same holds of I/O
/// actions. The recording stays, and a pull of either kind leaves what the other
/// gives next.
pub proof fn replay_gives_the_recording_back(s: RecordedInputSource, pulls: Seq<Pull>)
    requires
        s.rng_position() == 0,
        s.io_position() == 0,
    ensures
        ({
            let t = s.after_pulls(pulls);
            let rng = s.recorded().rng();
            let io = s.recorded().io();
            let k = pulls_of(pulls, Pull::Rng) as int;
            let l = pulls_of(pulls, Pull::Io) as int;
            &&& t.recorded() == s.recorded()
            &&& t.next_rng() == (if k < rng.len() {
                Some(rng[k].value)
            } else {
                None
            })
            &&& t.next_io() == (if l < io.len() {
                Some(io[l])
            } else {
                None
            })
            &&& t.pulled(Pull::Rng).next_io() == t.next_io()
            &&& t.pulled(Pull::Io).next_rng() == t.next_rng()
        }),
{
    lemma_positions(s, pulls);
}

/// A copy taken at any point replays on its own cursor what the source it was
/// taken of replays from there.
pub proof fn copies_replay_alike(a: RecordedInputSource, b: RecordedInputSource, pulls: Seq<Pull>)
    requires
        a.recorded().rng() == b.recorded().rng(),
        a.recorded().io() == b.recorded().io(),
        a.rng_position() == b.rng_position(),
        a.io_position() == b.io_position(),
    ensures
        a.after_pulls(pulls).next_rng() == b.after_pulls(pulls).next_rng(),
        a.after_pulls(pulls).next_io() == b.after_pulls(pulls).next_io(),
{
    lemma_alike(a, b, pulls);
}

proof fn lemma_positions(s: RecordedInputSource, pulls: Seq<Pull>)
    requires
        s.rng_pos == 0,
        s.io_pos == 0,
    ensures
        ({
            let t = s.after_pulls(pulls);
            let k = pulls_of(pulls, Pull::Rng);
            let l = pulls_of(pulls, Pull::Io);
            let n = s.recording.rng_inputs@.len();
            let m = s.recording.io_inputs@.len();
            &&& t.recording == s.recording
            &&& t.rng_pos == (if k < n {
                k
            } else {
                n
            })
            &&& t.io_pos == (if l < m {
                l
            } else {
                m
            })
        }),
    decreases pulls.len(),
{
    if pulls.len() > 0 {
        lemma_positions(s, pulls.drop_last());
        assert(s.recording.rng_inputs.len() == s.recording.rng_inputs@.len());
        assert(s.recording.io_inputs.len() == s.recording.io_inputs@.len());
    }
}

proof fn lemma_alike(a: RecordedInputSource, b: RecordedInputSource, pulls: Seq<Pull>)
    requires
        a.recording.rng_inputs@ == b.recording.rng_inputs@,
        a.recording.io_inputs@ == b.recording.io_inputs@,
        a.rng_pos == b.rng_pos,
        a.io_pos == b.io_pos,
    ensures
        ({
            let x = a.after_pulls(pulls);
            let y = b.after_pulls(pulls);
            &&& x.recording.rng_inputs@ == y.recording.rng_inputs@
            &&& x.recording.io_inputs@ == y.recording.io_inputs@
            &&& x.rng_pos == y.rng_pos
            &&& x.io_pos == y.io_pos
        }),
    decreases pulls.len(),
{
    if pulls.len() > 0 {
        lemma_alike(a, b, pulls.drop_last());
    }
}

/// A value served to RDRAND or RDSEED is recorded as that value, at the time of
/// its record, and is no I/O action.
pub proof fn served_randomness_is_recorded(header: EventHeader, p: RandomPayload, freq: u64)
    requires
        header.kind == EventKind::Randomness.number(),
    ensures
        rng_input_of(RecordView { header, payload: p.bytes() }, freq) == Some(
            RngInput {
                at: VirtTime { instructions: header.tsc, frequency: freq },
                value: p.value,
            },
        ),
        request_of(RecordView { header, payload: p.bytes() }) is None,
{
    crate::bytes::capacities();
    crate::bytes::le_round_trip(p.value as nat, 8);
    assert(p.bytes().subrange(0, 8) =~= crate::bytes::le_bytes(p.value as nat, 8));
}

/// A request sent to the guest is recorded as that request, whatever time it was
/// scheduled for, and is no randomness.
pub proof fn sent_request_is_recorded(
    header: EventHeader,
    meta: IoChannelPayload,
    request: RequestView,
    freq: u64,
)
    requires
        header.kind == EventKind::IoChannel.number(),
        meta.phase == IoChannelPhase::Request.number(),
        request.container is Some ==> request.container->0.len() <= u32::MAX,
    ensures
        ({
            let payload = meta.bytes() + crate::vm::io_channel::request_bytes(request);
            &&& request_of(RecordView { header, payload }) == Some(request)
            &&& rng_input_of(RecordView { header, payload }, freq) is None
        }),
{
    let message = crate::vm::io_channel::request_bytes(request);
    crate::bytes::le_bytes_len(meta.target_tsc as nat, 8);
    crate::vm::io_channel::request_round_trip(request);
    assert((meta.bytes() + message).skip(16) =~= message);
}

/// Responses of the guest, and records of every other kind, are no inputs.
pub proof fn outputs_are_not_recorded(record: RecordView, freq: u64)
    requires
        EventKind::of(record.header.kind) != Some(EventKind::Randomness),
        EventKind::of(record.header.kind) == Some(EventKind::IoChannel) ==> record.payload.len()
            >= 16 && record.payload[0] == IoChannelPhase::Response.number(),
    ensures
        rng_input_of(record, freq) is None,
        request_of(record) is None,
{
}

/// A recorded action carries the time of its record in the guest's own instructions,
/// with the frequency that they are counted at, and asks for what the request asked
/// for.
pub proof fn recorded_action_repeats_the_request(
    input: IoInput,
    request: RequestView,
    command: Seq<char>,
    tsc: u64,
    freq: u64,
)
    requires
        is_input_for(input, request, tsc, freq),
        request.command == vstd::utf8::encode_utf8(command),
    ensures
        input.at.instructions == tsc,
        input.at.frequency == freq,
        input.record_output == request.record_output,
        input.command@ == command,
        input.target is Host <==> request.container is None,
{
    crate::vm::io_channel::encoded_text_survives(command, input.command@);
}

/// Records are told apart by their numbers on the wire: 3 is randomness, whose value
/// stands in the first eight bytes, and 4 with a first byte of 0 is a request to the
/// guest. No record is both.
pub proof fn inputs_are_told_by_their_numbers(record: RecordView, freq: u64)
    ensures
        rng_input_of(record, freq) is Some <==> record.header.kind == 3 && record.payload.len()
            >= 16,
        rng_input_of(record, freq) is Some ==> rng_input_of(record, freq)->0.at.instructions
            == record.header.tsc && rng_input_of(record, freq)->0.at.frequency == freq,
        request_of(record) is Some ==> record.header.kind == 4 && record.payload[0] == 0,
        record.header.kind == 4 && record.payload.len() >= 16 && record.payload[0] == 0
            ==> request_of(record) == crate::vm::io_channel::parsed_request(
            record.payload.skip(16),
        ),
{
}

} // verus!
