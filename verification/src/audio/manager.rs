//! The capture loop that owns the microphone: it answers start, stop, buffer and status
//! requests one at a time, and holds at most one recording.

use vstd::prelude::*;

verus! {

/// A request to the capture loop.
#[derive(PartialEq, Eq, Structural, Clone, Copy, Debug)]
pub enum AudioCommand {
    Start { sample_rate: u32 },
    Stop,
    GetBuffer,
    IsRecording,
}

/// What the capture loop does with a request.
#[derive(PartialEq, Eq, Structural, Clone, Copy, Debug)]
pub enum CaptureDecision {
    /// Open the input device at this rate and start recording; report the outcome.
    OpenDevice { sample_rate: u32 },
    /// Answer "Already recording".
    RefuseAlreadyRecording,
    /// Stop the recording and answer with its samples.
    StopDevice,
    /// Answer "Not recording".
    RefuseNotRecording,
    /// Answer with a copy of the samples recorded so far.
    ReadBuffer,
    /// Answer with no samples.
    ReplyEmptyBuffer,
    /// Answer whether a recording is held.
    ReplyRecording(bool),
}

/// The decision on a request and whether a recording is held afterwards.
pub open spec fn capture_step(recording: bool, cmd: AudioCommand) -> (bool, CaptureDecision) {
    match cmd {
        AudioCommand::Start { sample_rate } => if recording {
            (true, CaptureDecision::RefuseAlreadyRecording)
        } else {
            (false, CaptureDecision::OpenDevice { sample_rate })
        },
        AudioCommand::Stop => if recording {
            (false, CaptureDecision::StopDevice)
        } else {
            (false, CaptureDecision::RefuseNotRecording)
        },
        AudioCommand::GetBuffer => if recording {
            (true, CaptureDecision::ReadBuffer)
        } else {
            (false, CaptureDecision::ReplyEmptyBuffer)
        },
        AudioCommand::IsRecording => (recording, CaptureDecision::ReplyRecording(recording)),
    }
}

/// Whether a recording is held once the outcome of opening the device is known.
pub open spec fn open_step(recording: bool, started: bool) -> bool {
    recording || started
}

/// The refusal text a decision answers with, if it is a refusal.
pub open spec fn spec_refusal(d: CaptureDecision) -> Option<Seq<char>> {
    match d {
        CaptureDecision::RefuseAlreadyRecording => Some("Already recording"@),
        CaptureDecision::RefuseNotRecording => Some("Not recording"@),
        _ => None,
    }
}

impl CaptureDecision {
    /// The text of a refusal; `None` for any other decision.
    pub fn refusal(&self) -> (r: Option<&'static str>)
        ensures
            match r {
                Some(t) => spec_refusal(*self) == Some(t@),
                None => spec_refusal(*self) is None,
            },
    {
        match self {
            CaptureDecision::RefuseAlreadyRecording => Some("Already recording"),
            CaptureDecision::RefuseNotRecording => Some("Not recording"),
            _ => None,
        }
    }
}

/// The state of the capture loop: whether it holds a recording, and, as a ghost, everything it
/// has learnt so far.
pub struct CaptureLoop {
    recording: bool,
    history: Ghost<Seq<CaptureInput>>,
}

impl CaptureLoop {
    /// A recording is held exactly as the inputs learnt so far say.
    #[verifier::type_invariant]
    spec fn follows_history(&self) -> bool {
        self.recording == recording_after(self.history@)
    }

    pub closed spec fn spec_recording(&self) -> bool {
        self.recording
    }

    /// The requests and device outcomes the loop has learnt, in order.
    pub closed spec fn history(&self) -> Seq<CaptureInput> {
        self.history@
    }

    /// A loop holding no recording, having learnt nothing.
    pub fn new() -> (r: Self)
        ensures
            !r.spec_recording(),
            r.history() == Seq::<CaptureInput>::empty(),
    {
        CaptureLoop { recording: false, history: Ghost(Seq::empty()) }
    }

    /// Whether a recording is held: exactly when the device was once opened successfully and
    /// no stop was requested since.
    pub fn is_recording(&self) -> (r: bool)
        ensures
            r == self.spec_recording(),
            r <==> exists|i: int| #[trigger] started_at_unstopped(self.history(), i),
    {
        proof {
            use_type_invariant(self);
            law_recording_iff_started_not_stopped(self.history());
            assert(self.recording == recording_after(self.history()));
        }
        self.recording
    }

    /// Decides what to do with a request.
    pub fn decide(&mut self, cmd: AudioCommand) -> (r: CaptureDecision)
        ensures
            (final(self).spec_recording(), r) == capture_step(old(self).spec_recording(), cmd),
            final(self).history() == old(self).history().push(CaptureInput::Cmd(cmd)),
    {
        proof {
            use_type_invariant(&*self);
        }
        let ghost h = self.history@.push(CaptureInput::Cmd(cmd));
        proof {
            assert(h.drop_last() =~= self.history@);
        }
        let (recording, decision) = match cmd {
            AudioCommand::Start { sample_rate } => {
                if self.recording {
                    (true, CaptureDecision::RefuseAlreadyRecording)
                } else {
                    (false, CaptureDecision::OpenDevice { sample_rate })
                }
            },
            AudioCommand::Stop => {
                if self.recording {
                    (false, CaptureDecision::StopDevice)
                } else {
                    (false, CaptureDecision::RefuseNotRecording)
                }
            },
            AudioCommand::GetBuffer => {
                if self.recording {
                    (true, CaptureDecision::ReadBuffer)
                } else {
                    (false, CaptureDecision::ReplyEmptyBuffer)
                }
            },
            AudioCommand::IsRecording => (self.recording, CaptureDecision::ReplyRecording(self.recording)),
        };
        *self = CaptureLoop { recording, history: Ghost(h) };
        decision
    }

    /// Records the outcome of opening the device: a recording is held afterwards if one was
    /// held before or the device started.
    pub fn opened(&mut self, started: bool)
        ensures
            final(self).spec_recording() == open_step(old(self).spec_recording(), started),
            final(self).history() == old(self).history().push(CaptureInput::Opened(started)),
    {
        proof {
            use_type_invariant(&*self);
        }
        let ghost h = self.history@.push(CaptureInput::Opened(started));
        proof {
            assert(h.drop_last() =~= self.history@);
        }
        let recording = self.recording || started;
        *self = CaptureLoop { recording, history: Ghost(h) };
    }
}

/// A second start, while a recording is held, is refused and changes nothing.
pub proof fn law_second_start_refused(sample_rate: u32, second_rate: u32)
    ensures
        ({
            let (r1, d1) = capture_step(false, AudioCommand::Start { sample_rate });
            let held = open_step(r1, true);
            capture_step(held, AudioCommand::Start { sample_rate: second_rate }) == (
                true,
                CaptureDecision::RefuseAlreadyRecording,
            ) && d1 == CaptureDecision::OpenDevice { sample_rate }
        }),
{
}

/// After a recording has started, stopping it hands over its samples and leaves no recording;
/// a stop after that is refused.
pub proof fn law_stop_after_start(sample_rate: u32)
    ensures
        ({
            let (r1, _) = capture_step(false, AudioCommand::Start { sample_rate });
            let held = open_step(r1, true);
            let (r2, d2) = capture_step(held, AudioCommand::Stop);
            let (r3, d3) = capture_step(r2, AudioCommand::Stop);
            d2 == CaptureDecision::StopDevice && !r2 && d3 == CaptureDecision::RefuseNotRecording
                && !r3
        }),
{
}

/// Asking whether a recording is held answers the state and changes nothing; so does asking
/// for the buffer.
pub proof fn law_queries_change_nothing(recording: bool)
    ensures
        capture_step(recording, AudioCommand::IsRecording) == (
            recording,
            CaptureDecision::ReplyRecording(recording),
        ),
        capture_step(recording, AudioCommand::GetBuffer).0 == recording,
        !recording ==> capture_step(recording, AudioCommand::GetBuffer).1
            == CaptureDecision::ReplyEmptyBuffer,
{
}

/// A failed start leaves no recording: the next stop is refused.
pub proof fn law_failed_start_holds_nothing(sample_rate: u32)
    ensures
        ({
            let (r1, _) = capture_step(false, AudioCommand::Start { sample_rate });
            let held = open_step(r1, false);
            capture_step(held, AudioCommand::Stop) == (false, CaptureDecision::RefuseNotRecording)
        }),
{
}

/// What the capture loop learns, in order: a request, or the outcome of opening the device.
#[derive(PartialEq, Eq, Structural, Clone, Copy, Debug)]
pub enum CaptureInput {
    Cmd(AudioCommand),
    Opened(bool),
}

/// Whether a recording is held after one input.
pub open spec fn capture_input_step(recording: bool, i: CaptureInput) -> bool {
    match i {
        CaptureInput::Cmd(c) => capture_step(recording, c).0,
        CaptureInput::Opened(started) => open_step(recording, started),
    }
}

/// Whether a recording is held after the inputs `ins`, starting from none.
pub open spec fn recording_after(ins: Seq<CaptureInput>) -> bool
    decreases ins.len(),
{
    if ins.len() == 0 {
        false
    } else {
        capture_input_step(recording_after(ins.drop_last()), ins.last())
    }
}

/// Whether the input at `i` is a successful start with no stop request after it.
pub open spec fn started_at_unstopped(ins: Seq<CaptureInput>, i: int) -> bool {
    &&& 0 <= i < ins.len()
    &&& ins[i] == CaptureInput::Opened(true)
    &&& forall|j: int| i < j < ins.len() ==> #[trigger] ins[j] != CaptureInput::Cmd(AudioCommand::Stop)
}

/// A recording is held exactly when the device was once opened successfully and no stop was
/// requested since, whatever the requests were.
pub proof fn law_recording_iff_started_not_stopped(ins: Seq<CaptureInput>)
    ensures
        recording_after(ins) <==> exists|i: int| #[trigger] started_at_unstopped(ins, i),
    decreases ins.len(),
{
    if ins.len() > 0 {
        let front = ins.drop_last();
        let x = ins.last();
        let n = ins.len() - 1;
        law_recording_iff_started_not_stopped(front);
        assert forall|i: int| 0 <= i < n implies (#[trigger] started_at_unstopped(ins, i) <==> (
        started_at_unstopped(front, i) && x != CaptureInput::Cmd(AudioCommand::Stop))) by {
            assert(ins[i] == front[i]);
            if started_at_unstopped(front, i) && x != CaptureInput::Cmd(AudioCommand::Stop) {
                assert forall|j: int| i < j < ins.len() implies #[trigger] ins[j] != CaptureInput::Cmd(
                    AudioCommand::Stop,
                ) by {
                    if j < n {
                        assert(ins[j] == front[j]);
                    }
                }
            }
            if started_at_unstopped(ins, i) {
                assert(ins[n] != CaptureInput::Cmd(AudioCommand::Stop));
                assert forall|j: int| i < j < front.len() implies #[trigger] front[j] != CaptureInput::Cmd(
                    AudioCommand::Stop,
                ) by {
                    assert(ins[j] == front[j]);
                }
            }
        }
        if x == CaptureInput::Cmd(AudioCommand::Stop) {
            assert forall|i: int| !#[trigger] started_at_unstopped(ins, i) by {
                if 0 <= i < n {
                    assert(ins[n] == CaptureInput::Cmd(AudioCommand::Stop));
                }
            }
        } else if x == CaptureInput::Opened(true) {
            assert(started_at_unstopped(ins, n));
        } else {
            assert(!started_at_unstopped(ins, n));
            if recording_after(front) {
                let i = choose|i: int| #[trigger] started_at_unstopped(front, i);
                assert(started_at_unstopped(ins, i));
            }
            if exists|i: int| #[trigger] started_at_unstopped(ins, i) {
                let i = choose|i: int| #[trigger] started_at_unstopped(ins, i);
                assert(i != n);
                assert(started_at_unstopped(front, i));
            }
        }
    }
}

} // verus!
