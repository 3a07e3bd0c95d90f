//! Streaming transcription: base64 PCM arrives in pieces of any size. As each piece completes
//! new groups of four base64 characters, those groups are decoded and their bytes added to the
//! audio; the rest waits for the next piece, and whatever is left when the body ends is padded
//! and decoded. Samples are cut from all the bytes received, so a byte left over from one piece
//! pairs with the next. Each time another second (16000 samples) has arrived, the audio so far
//! is transcribed for a partial result; the whole audio is transcribed once the body ends.

use crate::codec::{
    append_bytes, conservative_decoded_len, copy_prefix, decode_standard_into, decodes_padded,
    decodes_unpadded, fails_whole, standard_decode, Base64Fault,
};
use crate::pcm::{pcm_samples, pcm_samples_of};
use crate::server::handlers::StreamParams;
use crate::text::{concat, from_utf8_lossy, utf8_lossy};
use vstd::prelude::*;
use vstd::utf8::encode_utf8;

verus! {

/// Where a streaming session stands.
#[derive(PartialEq, Eq, Structural, Clone, Copy, Debug)]
pub enum StreamPhase {
    /// Reading the request body.
    Receiving,
    /// Waiting for the transcriber to be loaded.
    Loading,
    /// Waiting for the transcription of the collected audio.
    Transcribing,
    /// Finished; nothing more is sent.
    Done,
}

/// An event sent to the client.
#[derive(Debug)]
pub enum StreamEvent {
    Transcript { text: String, partial: bool },
    Error { message: String },
}

/// An event as the contracts see it.
pub enum StreamEventView {
    Transcript { text: Seq<char>, partial: bool },
    Error { message: Seq<char> },
}

impl View for StreamEvent {
    type V = StreamEventView;

    open spec fn view(&self) -> StreamEventView {
        match self {
            StreamEvent::Transcript { text, partial } => StreamEventView::Transcript {
                text: text@,
                partial: *partial,
            },
            StreamEvent::Error { message } => StreamEventView::Error { message: message@ },
        }
    }
}

/// What the caller is to do next.
#[derive(Debug)]
pub enum StreamAction {
    /// Nothing to send; read on.
    Wait,
    /// Tell the client how many samples have been received so far; if `transcribe_partial`,
    /// also transcribe `samples()` and send the text as a partial transcript; read on.
    Progress { received_samples: usize, transcribe_partial: bool },
    /// Stop without sending anything more.
    Abort,
    /// Send this event; the session is over.
    Finish(StreamEvent),
    /// Load the transcriber and report the outcome.
    LoadTranscriber,
    /// Tell the client the audio is being transcribed, then transcribe `samples()` and report
    /// the outcome.
    Transcribe,
}

/// An action as the contracts see it.
pub enum StreamActionView {
    Wait,
    Progress { received_samples: nat, transcribe_partial: bool },
    Abort,
    Finish(StreamEventView),
    LoadTranscriber,
    Transcribe,
}

impl View for StreamAction {
    type V = StreamActionView;

    open spec fn view(&self) -> StreamActionView {
        match self {
            StreamAction::Wait => StreamActionView::Wait,
            StreamAction::Progress { received_samples, transcribe_partial } => StreamActionView::Progress {
                received_samples: *received_samples as nat,
                transcribe_partial: *transcribe_partial,
            },
            StreamAction::Abort => StreamActionView::Abort,
            StreamAction::Finish(e) => StreamActionView::Finish(e@),
            StreamAction::LoadTranscriber => StreamActionView::LoadTranscriber,
            StreamAction::Transcribe => StreamActionView::Transcribe,
        }
    }
}

/// The state of a session: its phase, every byte of base64 text received, the bytes decoded so
/// far, and the number of samples at the last partial transcription.
pub struct SessionView {
    pub phase: StreamPhase,
    pub received: Seq<u8>,
    pub decoded: Seq<u8>,
    pub mark: nat,
}

/// The number of samples received between two partial transcriptions (one second at 16 kHz).
pub open spec fn partial_interval() -> nat {
    16000
}

/// The `=` byte that pads base64.
pub open spec fn pad_byte() -> u8 {
    61u8
}

/// `text` followed by `=` until its length is a multiple of four.
pub open spec fn padded(text: Seq<u8>) -> Seq<u8> {
    text + Seq::new(((4 - text.len() % 4) % 4) as nat, |i: int| pad_byte())
}

/// The number of bytes of `text` that form complete groups of four.
pub open spec fn complete_len(text: Seq<u8>) -> int {
    (text.len() / 4 * 4) as int
}

/// The decoding of the complete groups of `text`, taken as one text.
pub open spec fn decoded_text(text: Seq<u8>) -> Result<Seq<u8>, Base64Fault> {
    if complete_len(text) == 0 {
        Ok(Seq::empty())
    } else {
        standard_decode(text.take(complete_len(text)))
    }
}

/// The samples a session holds.
pub open spec fn session_samples(v: SessionView) -> Seq<i16> {
    pcm_samples_of(v.decoded)
}

/// The text a piece of the body adds: the piece read as UTF-8, invalid sequences replaced.
pub open spec fn piece_text(piece: Seq<u8>) -> Seq<u8> {
    encode_utf8(utf8_lossy(piece))
}

/// The step taken on a piece of the request body: the piece's text is added to the text
/// received; when that completes new groups of four, those groups are decoded on their own and
/// their bytes are added to the audio, or, if they do not decode, the session stops.
pub open spec fn piece_step(v: SessionView, piece: Seq<u8>) -> (SessionView, StreamActionView) {
    if v.phase != StreamPhase::Receiving {
        (v, StreamActionView::Wait)
    } else {
        let text = v.received + piece_text(piece);
        let c = complete_len(v.received);
        let c2 = complete_len(text);
        if c2 == c {
            (SessionView { received: text, ..v }, StreamActionView::Wait)
        } else {
            match standard_decode(text.subrange(c, c2)) {
                Err(_) => (
                    SessionView { phase: StreamPhase::Done, received: text, ..v },
                    StreamActionView::Abort,
                ),
                Ok(b) => {
                    let d = v.decoded + b;
                    let s = d.len() / 2;
                    let p = s >= v.mark + partial_interval();
                    (
                        SessionView {
                            phase: StreamPhase::Receiving,
                            received: text,
                            decoded: d,
                            mark: if p {
                                s
                            } else {
                                v.mark
                            },
                        },
                        StreamActionView::Progress { received_samples: s, transcribe_partial: p },
                    )
                },
            }
        }
    }
}

/// The bytes held once the body has ended: the text that waits after the complete groups is
/// padded with `=` and decoded on its own, and its bytes are added if it decodes.
pub open spec fn flushed_bytes(v: SessionView) -> Seq<u8> {
    let rest = v.received.skip(complete_len(v.received));
    if rest.len() == 0 {
        v.decoded
    } else {
        match standard_decode(padded(rest)) {
            Ok(b) => v.decoded + b,
            Err(_) => v.decoded,
        }
    }
}

/// A session agrees with the whole text it received: while receiving, whenever the complete
/// groups received decode as one text, the session holds exactly their decoding, however the
/// text was split into pieces.
pub open spec fn agrees_with_whole_text(v: SessionView) -> bool {
    v.phase == StreamPhase::Receiving ==> (decoded_text(v.received) is Ok ==> decoded_text(
        v.received,
    ) == Ok::<Seq<u8>, Base64Fault>(v.decoded))
}

/// The decoding of a whole body: its complete groups followed by the rest padded with `=`,
/// taken as one text.
pub open spec fn end_text(t: Seq<u8>) -> Result<Seq<u8>, Base64Fault> {
    let c = complete_len(t);
    if t.skip(c).len() == 0 {
        decoded_text(t)
    } else {
        standard_decode(t.take(c) + padded(t.skip(c)))
    }
}

/// The message sent when a body held no audio.
pub open spec fn no_audio_message() -> Seq<char> {
    "No audio data received"@
}

/// The step taken when the request body ends.
pub open spec fn end_step(v: SessionView) -> (SessionView, StreamActionView) {
    if v.phase != StreamPhase::Receiving {
        (v, StreamActionView::Wait)
    } else {
        let d = flushed_bytes(v);
        if pcm_samples_of(d).len() == 0 {
            (
                SessionView { phase: StreamPhase::Done, decoded: d, ..v },
                StreamActionView::Finish(StreamEventView::Error { message: no_audio_message() }),
            )
        } else {
            (SessionView { phase: StreamPhase::Loading, decoded: d, ..v }, StreamActionView::LoadTranscriber)
        }
    }
}

/// The step taken when reading the request body fails.
pub open spec fn body_error_step(v: SessionView) -> (SessionView, StreamActionView) {
    if v.phase != StreamPhase::Receiving {
        (v, StreamActionView::Wait)
    } else {
        (SessionView { phase: StreamPhase::Done, ..v }, StreamActionView::Abort)
    }
}

/// The step taken once loading the transcriber has succeeded (`None`) or failed with a message.
pub open spec fn load_step(v: SessionView, failure: Option<Seq<char>>) -> (SessionView, StreamActionView) {
    if v.phase != StreamPhase::Loading {
        (v, StreamActionView::Wait)
    } else {
        match failure {
            Some(e) => (
                SessionView { phase: StreamPhase::Done, ..v },
                StreamActionView::Finish(
                    StreamEventView::Error { message: "Failed to load transcriber: "@ + e },
                ),
            ),
            None => (SessionView { phase: StreamPhase::Transcribing, ..v }, StreamActionView::Transcribe),
        }
    }
}

/// The step taken once the final transcription has given a text (`Ok`) or failed with a message.
pub open spec fn transcript_step(v: SessionView, outcome: Result<Seq<char>, Seq<char>>) -> (
    SessionView,
    StreamActionView,
) {
    if v.phase != StreamPhase::Transcribing {
        (v, StreamActionView::Wait)
    } else {
        match outcome {
            Ok(text) => (
                SessionView { phase: StreamPhase::Done, ..v },
                StreamActionView::Finish(StreamEventView::Transcript { text, partial: false }),
            ),
            Err(e) => (
                SessionView { phase: StreamPhase::Done, ..v },
                StreamActionView::Finish(
                    StreamEventView::Error { message: "Transcription error: "@ + e },
                ),
            ),
        }
    }
}

/// The step taken when changing the sample rate of the collected audio fails.
pub open spec fn resample_error_step(v: SessionView, e: Seq<char>) -> (SessionView, StreamActionView) {
    if v.phase != StreamPhase::Transcribing {
        (v, StreamActionView::Wait)
    } else {
        (
            SessionView { phase: StreamPhase::Done, ..v },
            StreamActionView::Finish(StreamEventView::Error { message: "Resample error: "@ + e }),
        )
    }
}

/// The event sent for a partial transcription: its text, marked partial; nothing when it failed.
pub open spec fn partial_event(outcome: Result<Seq<char>, Seq<char>>) -> Option<StreamEventView> {
    match outcome {
        Ok(text) => Some(StreamEventView::Transcript { text, partial: true }),
        Err(_) => None,
    }
}

/// `c + w` rounded down to a multiple of four, when `c` is one.
proof fn lemma_complete_shift(c: int, w: int)
    requires
        c >= 0,
        w >= 0,
        c % 4 == 0,
    ensures
        (c + w) / 4 * 4 == c + w / 4 * 4,
        (c + w) / 4 * 3 == c / 4 * 3 + w / 4 * 3,
        (c + w) - (c + w) / 4 * 4 == w - w / 4 * 4,
        w - w / 4 * 4 < 4,
        w / 4 * 4 <= w,
        (w / 4 * 4) % 4 == 0,
        (w / 4 * 4) / 4 * 3 == w / 4 * 3,
{
    assert((c + w) / 4 * 4 == c + w / 4 * 4) by (nonlinear_arith)
        requires
            c % 4 == 0,
            c >= 0,
            w >= 0,
    ;
    assert((c + w) / 4 * 3 == c / 4 * 3 + w / 4 * 3) by (nonlinear_arith)
        requires
            c % 4 == 0,
            c >= 0,
            w >= 0,
    ;
    assert(w - w / 4 * 4 < 4) by (nonlinear_arith)
        requires
            w >= 0,
    ;
    assert(w / 4 * 4 <= w) by (nonlinear_arith)
        requires
            w >= 0,
    ;
    assert((w / 4 * 4) % 4 == 0) by (nonlinear_arith)
        requires
            w >= 0,
    ;
    assert((w / 4 * 4) / 4 * 3 == w / 4 * 3) by (nonlinear_arith)
        requires
            w >= 0,
    ;
}

/// One streaming transcription request.
pub struct StreamSession {
    phase: StreamPhase,
    received: Ghost<Seq<u8>>,
    pending: Vec<u8>,
    decoded: Vec<u8>,
    mark: usize,
    sample_rate: u32,
    language: Option<String>,
    translate: bool,
}

impl View for StreamSession {
    type V = SessionView;

    closed spec fn view(&self) -> SessionView {
        SessionView {
            phase: self.phase,
            received: self.received@,
            decoded: self.decoded@,
            mark: self.mark as nat,
        }
    }
}

impl StreamSession {
    /// The session's own consistency: the waiting text is what follows the complete groups;
    /// while receiving, the session agrees with the whole text received, holds at most three
    /// bytes for each complete group, and has not marked more samples than it holds.
    pub closed spec fn wf(&self) -> bool {
        let t = self.received@;
        let c = complete_len(t);
        &&& self.pending@ == t.skip(c)
        &&& agrees_with_whole_text(self@)
        &&& self.phase == StreamPhase::Receiving ==> {
            &&& self.decoded@.len() <= c / 4 * 3
            &&& self.mark <= self.decoded@.len() / 2
        }
    }

    /// The sample rate the client declared.
    pub closed spec fn spec_sample_rate(&self) -> u32 {
        self.sample_rate
    }

    /// The language hint the client gave.
    pub closed spec fn spec_language(&self) -> Option<String> {
        self.language
    }

    /// Whether the client asked for a translation.
    pub closed spec fn spec_translate(&self) -> bool {
        self.translate
    }

    /// A session that has received nothing yet; an absent sample rate means 16 kHz and an absent
    /// translation flag means none.
    pub fn new(params: StreamParams) -> (r: Self)
        ensures
            r.wf(),
            agrees_with_whole_text(r@),
            r@.phase == StreamPhase::Receiving,
            r@.received.len() == 0,
            r@.decoded.len() == 0,
            r@.mark == 0,
            r.spec_sample_rate() == match params.sample_rate {
                Some(s) => s,
                None => 16000u32,
            },
            r.spec_language() == params.language,
            r.spec_translate() == match params.translate {
                Some(t) => t,
                None => false,
            },
    {
        let StreamParams { sample_rate, language, translate } = params;
        let r = StreamSession {
            phase: StreamPhase::Receiving,
            received: Ghost(Seq::empty()),
            pending: Vec::new(),
            decoded: Vec::new(),
            mark: 0,
            sample_rate: match sample_rate {
                Some(s) => s,
                None => 16000,
            },
            language,
            translate: match translate {
                Some(t) => t,
                None => false,
            },
        };
        assert(r.pending@ =~= r.received@.skip(0));
        r
    }

    /// The event sent as soon as a stream is accepted.
    pub fn opening_event() -> (r: StreamEvent)
        ensures
            r@ == (StreamEventView::Transcript { text: "Receiving audio..."@, partial: true }),
    {
        StreamEvent::Transcript { text: String::from_str("Receiving audio..."), partial: true }
    }

    /// The event sent for a partial transcription that gave a text (`Ok`) or failed.
    pub fn partial_transcript(outcome: Result<String, String>) -> (r: Option<StreamEvent>)
        ensures
            match r {
                Some(e) => partial_event(
                    match outcome {
                        Ok(t) => Ok(t@),
                        Err(e) => Err(e@),
                    },
                ) == Some(e@),
                None => partial_event(
                    match outcome {
                        Ok(t) => Ok(t@),
                        Err(e) => Err(e@),
                    },
                ) is None,
            },
    {
        match outcome {
            Ok(text) => Some(StreamEvent::Transcript { text, partial: true }),
            Err(_) => None,
        }
    }

    pub fn phase(&self) -> (r: StreamPhase)
        ensures
            r == self@.phase,
    {
        self.phase
    }

    /// The samples collected so far.
    pub fn samples(&self) -> (r: Vec<i16>)
        ensures
            r@ == session_samples(self@),
    {
        pcm_samples(self.decoded.as_slice())
    }

    /// The number of samples collected so far.
    pub fn sample_count(&self) -> (r: usize)
        ensures
            r == session_samples(self@).len(),
    {
        self.decoded.len() / 2
    }

    pub fn sample_rate(&self) -> (r: u32)
        ensures
            r == self.spec_sample_rate(),
    {
        self.sample_rate
    }

    pub fn language(&self) -> (r: &Option<String>)
        ensures
            *r == self.spec_language(),
    {
        &self.language
    }

    pub fn translate(&self) -> (r: bool)
        ensures
            r == self.spec_translate(),
    {
        self.translate
    }

    /// Takes a piece of the request body. While receiving, audio once decoded is kept: the
    /// decoded bytes before are the beginning of those after. The session keeps agreeing with
    /// the whole text received, and it stops only on a text whose complete groups do not decode
    /// as one text.
    #[verifier::rlimit(60)]
    pub fn on_piece(&mut self, piece: &[u8]) -> (r: StreamAction)
        requires
            old(self).wf(),
        ensures
            final(self).wf(),
            (final(self)@, r@) == piece_step(old(self)@, piece@),
            agrees_with_whole_text(final(self)@),
            old(self)@.phase == StreamPhase::Receiving && r@ is Abort ==> decoded_text(
                final(self)@.received,
            ) is Err,
            old(self)@.phase == StreamPhase::Receiving ==> final(self)@.decoded.take(
                old(self)@.decoded.len() as int,
            ) == old(self)@.decoded,
            final(self).spec_sample_rate() == old(self).spec_sample_rate(),
            final(self).spec_language() == old(self).spec_language(),
            final(self).spec_translate() == old(self).spec_translate(),
    {
        match self.phase {
            StreamPhase::Receiving => {},
            _ => {
                return StreamAction::Wait;
            },
        }
        let ghost t = self.received@;
        let ghost c = complete_len(t);
        let ghost prior = t.take(c);
        let ghost before = self.decoded@;
        let text = from_utf8_lossy(piece);
        let ghost lossy = encode_utf8(text@);
        let mut work: Vec<u8> = copy_prefix(self.pending.as_slice(), self.pending.len());
        append_bytes(&mut work, text.as_str().as_bytes());
        let ghost t2 = t + lossy;
        assert(work@ =~= t2.skip(c)) by {
            assert(self.pending@ =~= t.skip(c));
        }
        let len = work.len();
        let k = len / 4 * 4;
        proof {
            lemma_complete_shift(c, len as int);
            assert(t.len() == c + self.pending@.len());
            assert(t2.len() == c + len);
            assert(complete_len(t2) == c + k);
            assert(t2.take(c) =~= prior);
        }
        if k == 0 {
            self.received = Ghost(t2);
            self.pending = work;
            proof {
                assert(t2.take(c) =~= t.take(c));
            }
            return StreamAction::Wait;
        }
        let (head, tail) = work.as_slice().split_at(k);
        proof {
            assert(head@ =~= t2.subrange(c, c + k));
            assert(t2.take(c + k) =~= prior + head@);
            assert(k / 4 * 3 >= conservative_decoded_len(k as int)) by (nonlinear_arith)
                requires
                    k % 4 == 0,
                    k >= 0,
            ;
        }
        let mut buffer = vec![0u8; k / 4 * 3];
        let outcome = decode_standard_into(head, &mut buffer);
        proof {
            // What the whole text's complete groups give, from what the earlier ones gave.
            if c == 0 {
                assert(prior + head@ =~= head@);
                assert(before.len() == 0);
            } else if decoded_text(t) is Ok {
                assert(prior.len() % 4 == 0);
                assert(standard_decode(prior) == Ok::<Seq<u8>, Base64Fault>(before));
                if before.len() == c / 4 * 3 {
                    assert(decodes_unpadded(prior));
                } else {
                    assert(decodes_padded(prior));
                }
            } else {
                assert(prior.len() % 4 == 0);
                assert(fails_whole(prior));
            }
        }
        match outcome {
            Err(_) => {
                self.phase = StreamPhase::Done;
                self.received = Ghost(t2);
                self.pending = copy_prefix(tail, tail.len());
                proof {
                    assert(self.pending@ =~= t2.skip(c + k));
                }
                StreamAction::Abort
            },
            Ok(n) => {
                let fresh = copy_prefix(buffer.as_slice(), n);
                append_bytes(&mut self.decoded, fresh.as_slice());
                self.received = Ghost(t2);
                self.pending = copy_prefix(tail, tail.len());
                proof {
                    assert(self.pending@ =~= t2.skip(c + k));
                    assert(self.decoded@.take(before.len() as int) =~= before);
                    if c == 0 {
                        assert(self.decoded@ =~= fresh@);
                    }
                    assert(self.decoded@.len() <= (c + k) / 4 * 3) by {
                        lemma_complete_shift(c, k as int);
                    }
                }
                let s = self.decoded.len() / 2;
                let p = s - self.mark >= 16000;
                if p {
                    self.mark = s;
                }
                StreamAction::Progress { received_samples: s, transcribe_partial: p }
            },
        }
    }

    /// Reading the request body failed.
    pub fn on_body_error(&mut self) -> (r: StreamAction)
        requires
            old(self).wf(),
        ensures
            final(self).wf(),
            (final(self)@, r@) == body_error_step(old(self)@),
            final(self).spec_sample_rate() == old(self).spec_sample_rate(),
            final(self).spec_language() == old(self).spec_language(),
            final(self).spec_translate() == old(self).spec_translate(),
    {
        match self.phase {
            StreamPhase::Receiving => {
                self.phase = StreamPhase::Done;
                StreamAction::Abort
            },
            _ => StreamAction::Wait,
        }
    }

    /// The request body has ended. The decoded bytes before are the beginning of those after,
    /// and when the whole body, its rest padded, decodes as one text, the session holds exactly
    /// that decoding.
    #[verifier::rlimit(30)]
    pub fn on_end(&mut self) -> (r: StreamAction)
        requires
            old(self).wf(),
        ensures
            final(self).wf(),
            (final(self)@, r@) == end_step(old(self)@),
            old(self)@.phase == StreamPhase::Receiving ==> final(self)@.decoded.take(
                old(self)@.decoded.len() as int,
            ) == old(self)@.decoded,
            old(self)@.phase == StreamPhase::Receiving && end_text(old(self)@.received) is Ok
                ==> end_text(old(self)@.received) == Ok::<Seq<u8>, Base64Fault>(
                final(self)@.decoded,
            ),
            final(self).spec_sample_rate() == old(self).spec_sample_rate(),
            final(self).spec_language() == old(self).spec_language(),
            final(self).spec_translate() == old(self).spec_translate(),
    {
        match self.phase {
            StreamPhase::Receiving => {},
            _ => {
                return StreamAction::Wait;
            },
        }
        let ghost t = self.received@;
        let ghost c = complete_len(t);
        let ghost prior = t.take(c);
        let ghost before = self.decoded@;
        proof {
            assert(self.decoded@.take(before.len() as int) =~= before);
            lemma_complete_shift(0, t.len() as int);
            assert(prior.len() % 4 == 0);
            assert(self.pending@ =~= t.skip(c));
        }
        if self.pending.len() > 0 {
            let mut text: Vec<u8> = copy_prefix(self.pending.as_slice(), self.pending.len());
            let ghost start = text@;
            while text.len() % 4 != 0
                invariant
                    start.len() > 0,
                    text@.len() <= start.len() + 3,
                    text@.len() >= start.len(),
                    text@ == start + Seq::new((text@.len() - start.len()) as nat, |i: int| pad_byte()),
                    text@.len() % 4 != 0 ==> (text@.len() - start.len()) < (4 - start.len() % 4) % 4,
                    text@.len() % 4 == 0 ==> (text@.len() - start.len()) == (4 - start.len() % 4) % 4,
                decreases start.len() + 3 - text@.len(),
            {
                text.push(61u8);
                assert(text@ =~= start + Seq::new((text@.len() - start.len()) as nat, |i: int| pad_byte()));
            }
            assert(text@ =~= padded(self.pending@));
            let mut buffer = vec![0u8; text.len() / 4 * 3];
            assert(text.len() / 4 * 3 >= conservative_decoded_len(text@.len() as int))
                by (nonlinear_arith)
                requires
                    text@.len() % 4 == 0,
            ;
            let outcome = decode_standard_into(text.as_slice(), &mut buffer);
            proof {
                if c == 0 {
                    assert(prior + text@ =~= text@);
                    assert(before.len() == 0);
                } else if decoded_text(t) is Ok {
                    assert(standard_decode(prior) == Ok::<Seq<u8>, Base64Fault>(before));
                    if before.len() == c / 4 * 3 {
                        assert(decodes_unpadded(prior));
                    } else {
                        assert(decodes_padded(prior));
                    }
                } else {
                    assert(fails_whole(prior));
                }
            }
            match outcome {
                Ok(n) => {
                    let fresh = copy_prefix(buffer.as_slice(), n);
                    append_bytes(&mut self.decoded, fresh.as_slice());
                    proof {
                        assert(self.decoded@.take(before.len() as int) =~= before);
                        if c == 0 {
                            assert(self.decoded@ =~= fresh@);
                        }
                    }
                },
                Err(_) => {},
            }
        }
        if self.decoded.len() / 2 == 0 {
            self.phase = StreamPhase::Done;
            StreamAction::Finish(StreamEvent::Error { message: String::from_str("No audio data received") })
        } else {
            self.phase = StreamPhase::Loading;
            StreamAction::LoadTranscriber
        }
    }

    /// Loading the transcriber succeeded (`None`) or failed with the given message.
    pub fn on_loaded(&mut self, failure: Option<String>) -> (r: StreamAction)
        requires
            old(self).wf(),
        ensures
            final(self).wf(),
            (final(self)@, r@) == load_step(
                old(self)@,
                match failure {
                    Some(e) => Some(e@),
                    None => None,
                },
            ),
            final(self).spec_sample_rate() == old(self).spec_sample_rate(),
            final(self).spec_language() == old(self).spec_language(),
            final(self).spec_translate() == old(self).spec_translate(),
    {
        match self.phase {
            StreamPhase::Loading => {},
            _ => {
                return StreamAction::Wait;
            },
        }
        match failure {
            Some(e) => {
                self.phase = StreamPhase::Done;
                StreamAction::Finish(
                    StreamEvent::Error { message: concat("Failed to load transcriber: ", e.as_str()) },
                )
            },
            None => {
                self.phase = StreamPhase::Transcribing;
                StreamAction::Transcribe
            },
        }
    }

    /// The final transcription gave a text (`Ok`) or failed with a message.
    pub fn on_transcript(&mut self, outcome: Result<String, String>) -> (r: StreamAction)
        requires
            old(self).wf(),
        ensures
            final(self).wf(),
            (final(self)@, r@) == transcript_step(
                old(self)@,
                match outcome {
                    Ok(t) => Ok(t@),
                    Err(e) => Err(e@),
                },
            ),
            final(self).spec_sample_rate() == old(self).spec_sample_rate(),
            final(self).spec_language() == old(self).spec_language(),
            final(self).spec_translate() == old(self).spec_translate(),
    {
        match self.phase {
            StreamPhase::Transcribing => {},
            _ => {
                return StreamAction::Wait;
            },
        }
        self.phase = StreamPhase::Done;
        match outcome {
            Ok(text) => StreamAction::Finish(StreamEvent::Transcript { text, partial: false }),
            Err(e) => StreamAction::Finish(
                StreamEvent::Error { message: concat("Transcription error: ", e.as_str()) },
            ),
        }
    }

    /// Changing the sample rate of the collected audio failed with the given message.
    pub fn on_resample_error(&mut self, e: &str) -> (r: StreamAction)
        requires
            old(self).wf(),
        ensures
            final(self).wf(),
            (final(self)@, r@) == resample_error_step(old(self)@, e@),
            final(self).spec_sample_rate() == old(self).spec_sample_rate(),
            final(self).spec_language() == old(self).spec_language(),
            final(self).spec_translate() == old(self).spec_translate(),
    {
        match self.phase {
            StreamPhase::Transcribing => {},
            _ => {
                return StreamAction::Wait;
            },
        }
        self.phase = StreamPhase::Done;
        StreamAction::Finish(StreamEvent::Error { message: concat("Resample error: ", e) })
    }
}

} // verus!
