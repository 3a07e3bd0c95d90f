//! What holds of whole streaming sessions: the audio does not depend on how the text was split
//! into pieces, a partial transcription is asked for each time another second has arrived, and
//! a session ends exactly once, after which nothing more is sent.

use crate::codec::{prefixes_decode, standard_decode, Base64Fault};
use crate::server::stream::{
    agrees_with_whole_text, body_error_step, complete_len, decoded_text, end_step, load_step,
    partial_interval, piece_step, resample_error_step, session_samples, transcript_step,
    SessionView, StreamActionView, StreamPhase,
};
use vstd::prelude::*;

verus! {

/// A session that has received nothing.
pub open spec fn fresh_view() -> SessionView {
    SessionView {
        phase: StreamPhase::Receiving,
        received: Seq::empty(),
        decoded: Seq::empty(),
        mark: 0,
    }
}

proof fn lemma_complete_len(t: Seq<u8>)
    ensures
        0 <= complete_len(t) <= t.len(),
        complete_len(t) % 4 == 0,
        t.len() % 4 == 0 ==> complete_len(t) == t.len(),
{
    let n = t.len() as int;
    assert(0 <= n / 4 * 4 <= n && (n / 4 * 4) % 4 == 0 && (n % 4 == 0 ==> n / 4 * 4 == n))
        by (nonlinear_arith)
        requires
            n >= 0,
    ;
}

/// The audio of a stream does not depend on how its text was split. Every step of a session
/// keeps it agreeing with the whole text it received (`StreamSession::on_piece`, `on_end`);
/// so two receiving sessions that received the same text, whose complete groups decode as one
/// text, hold the same bytes, namely that decoding, and the end of the body gives them the same
/// action and the same samples.
pub proof fn law_split_independent(v: SessionView, w: SessionView)
    requires
        agrees_with_whole_text(v),
        agrees_with_whole_text(w),
        v.phase == StreamPhase::Receiving,
        w.phase == StreamPhase::Receiving,
        v.received == w.received,
        decoded_text(v.received) is Ok,
    ensures
        Ok::<Seq<u8>, Base64Fault>(v.decoded) == decoded_text(v.received),
        v.decoded == w.decoded,
        session_samples(v) == session_samples(w),
        end_step(v).1 == end_step(w).1,
        end_step(v).0.decoded == end_step(w).0.decoded,
        end_step(v).0.phase == end_step(w).0.phase,
{
}

/// A text whose whole-group beginnings all decode (as every text of whole groups that decodes
/// does, see `decode_standard`) is never refused while it arrives: whatever part of it has been
/// received, its complete groups decode as one text, so no piece of it stops the session.
pub proof fn law_valid_text_is_never_refused(t: Seq<u8>, received: Seq<u8>)
    requires
        prefixes_decode(t),
        received.len() <= t.len(),
        t.take(received.len() as int) == received,
    ensures
        decoded_text(received) is Ok,
{
    lemma_complete_len(received);
    let c = complete_len(received);
    if c > 0 {
        assert(received.take(c) =~= t.take(c));
        assert(standard_decode(t.take(c)) is Ok);
    }
}

/// Each time the samples received reach another second past the last partial transcription,
/// a piece asks for a partial transcription of all the audio so far and moves the mark there;
/// otherwise the mark stays.
pub proof fn law_partial_every_interval(v: SessionView, piece: Seq<u8>)
    requires
        v.phase == StreamPhase::Receiving,
    ensures
        ({
            let (w, a) = piece_step(v, piece);
            a matches StreamActionView::Progress { received_samples, transcribe_partial } ==> {
                &&& received_samples == session_samples(w).len()
                &&& transcribe_partial <==> received_samples >= v.mark + partial_interval()
                &&& w.mark == if transcribe_partial {
                    received_samples
                } else {
                    v.mark
                }
            }
        }),
        piece_step(v, piece).1 matches StreamActionView::Progress { .. } || piece_step(v, piece).0.mark
            == v.mark,
{
}

/// A body that ends before any text arrived holds no audio: the session ends with the
/// "No audio data received" error.
pub proof fn law_empty_body_reports_no_audio()
    ensures
        end_step(fresh_view()) == (
            SessionView { phase: StreamPhase::Done, ..fresh_view() },
            StreamActionView::Finish(
                crate::server::stream::StreamEventView::Error {
                    message: crate::server::stream::no_audio_message(),
                },
            ),
        ),
{
    assert(complete_len(Seq::<u8>::empty()) == 0);
    assert(Seq::<u8>::empty().skip(0).len() == 0);
}

/// What can happen to a session.
pub enum StreamInput {
    Piece(Seq<u8>),
    BodyError,
    End,
    Loaded(Option<Seq<char>>),
    Transcribed(Result<Seq<char>, Seq<char>>),
    ResampleFailed(Seq<char>),
}

/// The step a session takes on an input.
pub open spec fn input_step(v: SessionView, i: StreamInput) -> (SessionView, StreamActionView) {
    match i {
        StreamInput::Piece(p) => piece_step(v, p),
        StreamInput::BodyError => body_error_step(v),
        StreamInput::End => end_step(v),
        StreamInput::Loaded(f) => load_step(v, f),
        StreamInput::Transcribed(o) => transcript_step(v, o),
        StreamInput::ResampleFailed(e) => resample_error_step(v, e),
    }
}

/// The session after the inputs `ins`, and the actions taken on them, in order.
pub open spec fn run_inputs(v: SessionView, ins: Seq<StreamInput>) -> (SessionView, Seq<StreamActionView>)
    decreases ins.len(),
{
    if ins.len() == 0 {
        (v, Seq::empty())
    } else {
        let (w, acts) = run_inputs(v, ins.drop_last());
        let (x, a) = input_step(w, ins.last());
        (x, acts.push(a))
    }
}

/// Whether an action ends the session: it stops, or it sends the last event.
pub open spec fn ends_session(a: StreamActionView) -> bool {
    a is Abort || a is Finish
}

/// How many of the actions end the session.
pub open spec fn ending_count(acts: Seq<StreamActionView>) -> nat
    decreases acts.len(),
{
    if acts.len() == 0 {
        0
    } else {
        ending_count(acts.drop_last()) + if ends_session(acts.last()) {
            1nat
        } else {
            0nat
        }
    }
}

/// A finished session ignores whatever happens next: it stays as it is and sends nothing; before
/// that, an input ends the session exactly when its action is a stop or a last event.
pub proof fn law_finished_session_is_inert(v: SessionView, i: StreamInput)
    ensures
        v.phase == StreamPhase::Done ==> input_step(v, i) == (v, StreamActionView::Wait),
        v.phase != StreamPhase::Done ==> (ends_session(input_step(v, i).1) <==> input_step(
            v,
            i,
        ).0.phase == StreamPhase::Done),
{
}

/// A session ends exactly once: whatever happens to a session that has not ended, the actions
/// taken hold one ending (a stop, or the last event sent) if the session has ended and none
/// otherwise, and every action after an ending is to wait, sending nothing.
pub proof fn law_single_ending(v: SessionView, ins: Seq<StreamInput>)
    requires
        v.phase != StreamPhase::Done,
    ensures
        run_inputs(v, ins).1.len() == ins.len(),
        ending_count(run_inputs(v, ins).1) == if run_inputs(v, ins).0.phase == StreamPhase::Done {
            1nat
        } else {
            0nat
        },
        forall|i: int, j: int|
            0 <= i < j < ins.len() && ends_session(#[trigger] run_inputs(v, ins).1[i])
                ==> #[trigger] run_inputs(v, ins).1[j] is Wait,
        forall|i: int|
            0 <= i < ins.len() && ends_session(#[trigger] run_inputs(v, ins).1[i])
                ==> run_inputs(v, ins).0.phase == StreamPhase::Done,
    decreases ins.len(),
{
    if ins.len() > 0 {
        let front = ins.drop_last();
        law_single_ending(v, front);
        let (w, acts) = run_inputs(v, front);
        law_finished_session_is_inert(w, ins.last());
        let (x, a) = input_step(w, ins.last());
        let all = acts.push(a);
        assert(run_inputs(v, ins) == (x, all));
        assert(all.drop_last() =~= acts);
        assert forall|i: int| 0 <= i < ins.len() && ends_session(#[trigger] all[i]) implies x.phase
            == StreamPhase::Done by {
            if i < ins.len() - 1 {
                assert(all[i] == acts[i]);
            }
        }
        assert forall|i: int, j: int|
            0 <= i < j < ins.len() && ends_session(#[trigger] all[i]) implies #[trigger] all[j] is Wait by {
            assert(all[i] == acts[i]);
            if j < ins.len() - 1 {
                assert(all[j] == acts[j]);
            } else {
                assert(w.phase == StreamPhase::Done);
            }
        }
    }
}

} // verus!
