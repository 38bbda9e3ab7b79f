//! Transcription in segments while the user speaks.

use vstd::prelude::*;
use vstd::string::*;

use crate::samples::{pad_short, padded};

verus! {

/// How many frames before speech belong to its segment.
pub const VAD_PREFILL_FRAMES: usize = 15;

/// How many quiet frames do not end a segment yet.
pub const VAD_HANGOVER_FRAMES: usize = 15;

/// How many frames of speech start a segment.
pub const VAD_ONSET_FRAMES: usize = 2;

/// What voice activity detection makes of a frame.
pub enum VadFrame<S> {
    Speech(Vec<S>),
    Noise,
    Failed,
}

/// The mathematical state of an [`IncrementalTranscriptionSession`].
pub struct IncrementalModel<S> {
    /// The speech that waits to be transcribed.
    pub segment: Seq<S>,
    /// The last frame that counted was speech.
    pub was_speech: bool,
    /// A segment is being transcribed.
    pub transcribing: bool,
    /// The text of the segments so far.
    pub text: Seq<char>,
}

/// The speech in a frame.
pub open spec fn speech<S>(frame: VadFrame<S>) -> Seq<S> {
    match frame {
        VadFrame::Speech(samples) => samples@,
        _ => Seq::empty(),
    }
}

/// The state after a frame, and the segment that is to be transcribed.
///
/// Noise after speech ends a segment. If the one before is still being
/// transcribed, the speech is kept and goes on with the next segment.
pub open spec fn framed<S>(m: IncrementalModel<S>, frame: VadFrame<S>) -> (
    IncrementalModel<S>,
    Option<Seq<S>>,
) {
    match frame {
        VadFrame::Speech(samples) => (
            IncrementalModel { segment: m.segment + samples@, was_speech: true, ..m },
            None,
        ),
        VadFrame::Noise => if m.was_speech && m.segment.len() > 0 {
            if m.transcribing {
                (IncrementalModel { was_speech: false, ..m }, None)
            } else {
                (
                    IncrementalModel {
                        segment: Seq::empty(),
                        was_speech: false,
                        transcribing: true,
                        ..m
                    },
                    Some(m.segment),
                )
            }
        } else {
            (m, None)
        },
        VadFrame::Failed => (m, None),
    }
}

/// The text with that of one more segment at its end.
pub open spec fn joined(text: Seq<char>, more: Seq<char>) -> Seq<char> {
    if more.len() == 0 {
        text
    } else if text.len() == 0 {
        more
    } else {
        text.push(' ') + more
    }
}

/// A session that transcribes each stretch of speech when it ends.
pub struct IncrementalTranscriptionSession<S> {
    segment_buffer: Vec<S>,
    was_speech: bool,
    is_transcribing: bool,
    accumulated_text: String,
}

impl<S> View for IncrementalTranscriptionSession<S> {
    type V = IncrementalModel<S>;

    closed spec fn view(&self) -> IncrementalModel<S> {
        IncrementalModel {
            segment: self.segment_buffer@,
            was_speech: self.was_speech,
            transcribing: self.is_transcribing,
            text: self.accumulated_text@,
        }
    }
}

impl<S: Copy> IncrementalTranscriptionSession<S> {
    /// How long the worker waits for a frame before it looks whether it is to
    /// stop.
    pub const FRAME_WAIT_MS: u64 = 50;

    /// A session that has heard nothing.
    pub fn start() -> (r: Self)
        ensures
            r@ == (IncrementalModel::<S> {
                segment: Seq::empty(),
                was_speech: false,
                transcribing: false,
                text: Seq::empty(),
            }),
    {
        IncrementalTranscriptionSession {
            segment_buffer: Vec::new(),
            was_speech: false,
            is_transcribing: false,
            accumulated_text: String::new(),
        }
    }

    /// Takes in a frame, and returns a segment that is to be transcribed now.
    pub fn push_frame(&mut self, frame: VadFrame<S>, silence: S) -> (r: Option<Vec<S>>)
        ensures
            final(self)@ == framed(old(self)@, frame).0,
            match (framed(old(self)@, frame).1, r) {
                (Some(segment), Some(samples)) => samples@ == padded(segment, silence),
                (None, None) => true,
                _ => false,
            },
    {
        match frame {
            VadFrame::Speech(samples) => {
                let mut samples = samples;
                self.segment_buffer.append(&mut samples);
                self.was_speech = true;
                None
            },
            VadFrame::Noise => {
                if self.was_speech && self.segment_buffer.len() > 0 {
                    self.was_speech = false;
                    if self.is_transcribing {
                        return None;
                    }
                    let mut segment: Vec<S> = Vec::new();
                    segment.append(&mut self.segment_buffer);
                    self.is_transcribing = true;
                    Some(pad_short(segment, silence))
                } else {
                    None
                }
            },
            VadFrame::Failed => None,
        }
    }

    /// Takes the transcription of a segment, and returns the whole text if it
    /// has grown. `None` is a failure.
    pub fn segment_transcribed(&mut self, result: Option<String>) -> (r: Option<String>)
        ensures
            final(self)@ == (IncrementalModel {
                transcribing: false,
                text: match result {
                    Some(text) => joined(old(self)@.text, text@),
                    None => old(self)@.text,
                },
                ..old(self)@
            }),
            final(self)@ == happened(old(self)@, IncrementalEvent::Transcribed(result)).0,
            r matches Some(shown) ==> shown@ == final(self)@.text,
            r is Some <==> (result matches Some(text) && text@.len() > 0),
    {
        self.is_transcribing = false;
        match result {
            Some(text) => {
                if text.as_str().is_empty() {
                    return None;
                }
                if !self.accumulated_text.as_str().is_empty() {
                    self.accumulated_text.push(' ');
                }
                proof {
                    let before = old(self).accumulated_text@;
                    assert(before.len() == 0 ==> before + text@ =~= text@);
                }
                self.accumulated_text.append(text.as_str());
                Some(self.accumulated_text.clone())
            },
            None => None,
        }
    }

    /// The text of all segments so far.
    pub fn get_accumulated_text(&self) -> (r: String)
        ensures
            r@ == self@.text,
    {
        self.accumulated_text.clone()
    }
}

/// What happens to a session.
pub enum IncrementalEvent<S> {
    Frame(VadFrame<S>),
    /// A segment was transcribed.
    Transcribed(Option<String>),
}

/// The state after an event, and the segment that is to be transcribed.
pub open spec fn happened<S>(m: IncrementalModel<S>, event: IncrementalEvent<S>) -> (
    IncrementalModel<S>,
    Option<Seq<S>>,
) {
    match event {
        IncrementalEvent::Frame(frame) => framed(m, frame),
        IncrementalEvent::Transcribed(result) => (
            IncrementalModel {
                transcribing: false,
                text: match result {
                    Some(text) => joined(m.text, text@),
                    None => m.text,
                },
                ..m
            },
            None,
        ),
    }
}

/// The state after a row of events.
pub open spec fn state_after<S>(
    m: IncrementalModel<S>,
    events: Seq<IncrementalEvent<S>>,
) -> IncrementalModel<S>
    decreases events.len(),
{
    if events.len() == 0 {
        m
    } else {
        happened(state_after(m, events.drop_last()), events.last()).0
    }
}

/// All the speech in a row of events.
pub open spec fn all_speech<S>(events: Seq<IncrementalEvent<S>>) -> Seq<S>
    decreases events.len(),
{
    if events.len() == 0 {
        Seq::empty()
    } else {
        all_speech(events.drop_last()) + match events.last() {
            IncrementalEvent::Frame(frame) => speech(frame),
            IncrementalEvent::Transcribed(_) => Seq::empty(),
        }
    }
}

/// The speech in all segments that a row of events has sent off.
pub open spec fn all_segments<S>(m: IncrementalModel<S>, events: Seq<IncrementalEvent<S>>) -> Seq<S>
    decreases events.len(),
{
    if events.len() == 0 {
        Seq::empty()
    } else {
        all_segments(m, events.drop_last()) + match happened(
            state_after(m, events.drop_last()),
            events.last(),
        ).1 {
            Some(segment) => segment,
            None => Seq::empty(),
        }
    }
}

/// No speech is lost, doubled or put out of order: the segments that were sent
/// off, and the one that waits, are the speech that came in.
pub proof fn law_speech_is_conserved<S>(m: IncrementalModel<S>, events: Seq<IncrementalEvent<S>>)
    ensures
        all_segments(m, events) + state_after(m, events).segment == m.segment + all_speech(events),
    decreases events.len(),
{
    if events.len() == 0 {
        assert(all_segments(m, events) + m.segment =~= m.segment + all_speech(events));
    } else {
        let before = events.drop_last();
        law_speech_is_conserved(m, before);
        assert(all_segments(m, events) + state_after(m, events).segment =~= all_segments(m, before)
            + state_after(m, before).segment + match events.last() {
            IncrementalEvent::Frame(frame) => speech(frame),
            IncrementalEvent::Transcribed(_) => Seq::empty(),
        });
        assert(m.segment + all_speech(events) =~= m.segment + all_speech(before)
            + match events.last() {
            IncrementalEvent::Frame(frame) => speech(frame),
            IncrementalEvent::Transcribed(_) => Seq::empty(),
        });
    }
}

/// A segment is sent off only when none is being transcribed, and then it is
/// not empty.
pub proof fn law_one_segment_at_a_time<S>(m: IncrementalModel<S>, event: IncrementalEvent<S>)
    ensures
        happened(m, event).1 matches Some(segment) ==> {
            &&& !m.transcribing
            &&& happened(m, event).0.transcribing
            &&& segment.len() > 0
        },
{
}

/// The text grows only at its end.
pub proof fn law_preview_grows<S>(m: IncrementalModel<S>, event: IncrementalEvent<S>)
    ensures
        m.text.is_prefix_of(happened(m, event).0.text),
{
}

/// The end of speech, and nothing else, sends off a segment: all the speech that
/// waits, which then waits no more. While another segment is being transcribed
/// the speech waits on, and the next end of speech sends it off.
pub proof fn law_the_end_of_speech_sends_it_off<S>(m: IncrementalModel<S>, samples: Vec<S>)
    ensures
        ({
            let ended = happened(m, IncrementalEvent::Frame(VadFrame::Noise));
            let spoken = happened(m, IncrementalEvent::Frame(VadFrame::Speech(samples)));
            let due = m.was_speech && m.segment.len() > 0;
            &&& due && !m.transcribing ==> ended.1 == Some(m.segment) && ended.0 == (
            IncrementalModel {
                segment: Seq::<S>::empty(),
                was_speech: false,
                transcribing: true,
                text: m.text,
            })
            &&& due && m.transcribing ==> ended.1 is None && ended.0 == (IncrementalModel {
                was_speech: false,
                ..m
            })
            &&& !due ==> ended == (m, None::<Seq<S>>)
            &&& spoken.1 is None
            &&& spoken.0 == (IncrementalModel {
                segment: m.segment + samples@,
                was_speech: true,
                ..m
            })
            &&& happened(m, IncrementalEvent::Frame(VadFrame::Failed)) == (m, None::<Seq<S>>)
        }),
{
}

/// A segment's text goes behind those before it, after a space; a failure, or an
/// empty text, adds nothing. Either way the next segment can be sent off.
pub proof fn law_segments_are_joined_by_spaces<S>(m: IncrementalModel<S>, more: String)
    ensures
        ({
            let after = happened(m, IncrementalEvent::Transcribed(Some(more))).0;
            let failed = happened(m, IncrementalEvent::Transcribed(None)).0;
            &&& more@.len() == 0 ==> after.text == m.text
            &&& more@.len() > 0 && m.text.len() == 0 ==> after.text == more@
            &&& more@.len() > 0 && m.text.len() > 0 ==> after.text == m.text + seq![' '] + more@
            &&& failed == (IncrementalModel { transcribing: false, ..m })
            &&& after.segment == m.segment && after.was_speech == m.was_speech
                && !after.transcribing
        }),
{
    assert(m.text.push(' ') + more@ =~= m.text + seq![' '] + more@);
}

/// A segment begins with the second frame of speech, takes the fifteen frames
/// before it along, and outlasts fifteen quiet frames.
pub proof fn law_what_belongs_to_a_segment()
    ensures
        VAD_ONSET_FRAMES == 2,
        VAD_PREFILL_FRAMES == 15,
        VAD_HANGOVER_FRAMES == 15,
{
}

} // verus!
