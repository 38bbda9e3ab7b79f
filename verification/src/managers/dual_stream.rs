//! Two transcriptions, of the microphone and of the system audio, merged into
//! one timeline.

use vstd::prelude::*;
use vstd::string::*;
use vstd::utf8::*;

use crate::text::{blank, is_blank, trim, trimmed};

verus! {

/// A stretch of one stream's text; true for the microphone.
pub type Segment = (Seq<char>, bool);

/// The segments that a sequence of labelled strings holds.
pub open spec fn segments_of(s: Seq<(String, bool)>) -> Seq<Segment> {
    s.map_values(|p: (String, bool)| (p.0@, p.1))
}

/// What stands before the text of a stream.
pub open spec fn label(is_mic: bool) -> Seq<char> {
    if is_mic {
        "[🎤 Mic] "@
    } else {
        "[🔊 System Audio] "@
    }
}

/// The timeline of the segments, and the stream that its last line belongs to.
///
/// A segment of the stream that spoke last goes on in that stream's line; one
/// of the other stream starts a new line with a label. Blank segments count
/// for nothing.
pub open spec fn timeline(segments: Seq<Segment>) -> (Seq<char>, Option<bool>)
    decreases segments.len(),
{
    if segments.len() == 0 {
        (Seq::empty(), None)
    } else {
        let (text, speaker) = timeline(segments.drop_last());
        let (said, is_mic) = segments.last();
        if blank(said) {
            (text, speaker)
        } else if speaker == Some(is_mic) {
            (text.push(' ') + trimmed(said), speaker)
        } else {
            (new_line(text) + label(is_mic) + trimmed(said), Some(is_mic))
        }
    }
}

/// The text, ready for another line.
pub open spec fn new_line(text: Seq<char>) -> Seq<char> {
    if text.len() == 0 {
        text
    } else {
        text.push('\n')
    }
}

/// The text with a labelled line for `said` at its end, unless that is blank.
pub open spec fn with_line(text: Seq<char>, is_mic: bool, said: Seq<char>) -> Seq<char> {
    if blank(said) {
        text
    } else {
        new_line(text) + label(is_mic) + trimmed(said)
    }
}

/// The timeline of the segments or, where that is empty, a line for each
/// stream's whole text.
pub open spec fn final_text(
    segments: Seq<Segment>,
    mic_final: Seq<char>,
    sys_final: Seq<char>,
) -> Seq<char> {
    let interleaved = timeline(segments).0;
    if interleaved.len() > 0 {
        interleaved
    } else {
        with_line(with_line(Seq::empty(), true, mic_final), false, sys_final)
    }
}

/// What a stream's text holds beyond its first `seen` bytes.
pub open spec fn delta(text: Seq<char>, seen: nat) -> Option<Seq<char>> {
    let bytes = encode_utf8(text);
    if bytes.len() > seen {
        Some(decode_utf8(bytes.subrange(seen as int, bytes.len() as int)))
    } else {
        None
    }
}

/// The stream's text, where it has grown, has a character end at `seen` bytes.
pub open spec fn readable(text: Seq<char>, seen: nat) -> bool {
    encode_utf8(text).len() > seen ==> is_char_boundary(encode_utf8(text), seen as int)
}

/// The mathematical state of a [`DualStreamCoordinator`].
pub struct DualStreamModel {
    /// How many bytes of the microphone's text were taken in.
    pub mic_seen: nat,
    /// How many bytes of the system audio's text were taken in.
    pub sys_seen: nat,
    /// The segments so far, oldest first.
    pub segments: Seq<Segment>,
    /// The timeline that was last shown.
    pub merged: Seq<char>,
}

/// The segments with one more, unless it is blank.
pub open spec fn with_segment(segments: Seq<Segment>, said: Seq<char>, is_mic: bool) -> Seq<Segment> {
    if blank(said) {
        segments
    } else {
        segments.push((said, is_mic))
    }
}

/// The segments after a look at one stream.
pub open spec fn segments_after(
    segments: Seq<Segment>,
    text: Seq<char>,
    seen: nat,
    is_mic: bool,
) -> Seq<Segment> {
    match delta(text, seen) {
        Some(said) => with_segment(segments, said, is_mic),
        None => segments,
    }
}

/// The larger of a length in bytes and the length of a text.
pub open spec fn seen_after(text: Seq<char>, seen: nat) -> nat {
    if encode_utf8(text).len() > seen {
        encode_utf8(text).len()
    } else {
        seen
    }
}

/// The state after a look at both streams.
pub open spec fn polled(m: DualStreamModel, mic: Seq<char>, sys: Seq<char>) -> DualStreamModel {
    let segments = segments_after(
        segments_after(m.segments, mic, m.mic_seen, true),
        sys,
        m.sys_seen,
        false,
    );
    DualStreamModel {
        mic_seen: seen_after(mic, m.mic_seen),
        sys_seen: seen_after(sys, m.sys_seen),
        segments,
        merged: if delta(mic, m.mic_seen) is Some || delta(sys, m.sys_seen) is Some {
            timeline(segments).0
        } else {
            m.merged
        },
    }
}

/// Merges the transcriptions of the microphone and of the system audio.
pub struct DualStreamCoordinator {
    last_mic_len: usize,
    last_sys_len: usize,
    merged_text: String,
    segments: Vec<(String, bool)>,
}

impl View for DualStreamCoordinator {
    type V = DualStreamModel;

    closed spec fn view(&self) -> DualStreamModel {
        DualStreamModel {
            mic_seen: self.last_mic_len as nat,
            sys_seen: self.last_sys_len as nat,
            segments: segments_of(self.segments@),
            merged: self.merged_text@,
        }
    }
}

/// What `text` holds beyond its first `seen` bytes.
fn text_delta(text: &str, seen: usize) -> (r: Option<String>)
    requires
        readable(text@, seen as nat),
    ensures
        match r {
            Some(said) => delta(text@, seen as nat) == Some(said@),
            None => delta(text@, seen as nat) is None,
        },
{
    if text.as_bytes().len() > seen {
        let (_, said) = text.split_at(seen);
        proof {
            encode_utf8_decode_utf8(said@);
        }
        Some(said.to_owned())
    } else {
        None
    }
}

impl DualStreamCoordinator {
    /// How long the coordinator rests between two looks at the streams.
    pub const POLL_INTERVAL_MS: u64 = 200;

    /// A coordinator that has taken nothing in.
    pub fn start() -> (r: Self)
        ensures
            r@ == (DualStreamModel {
                mic_seen: 0,
                sys_seen: 0,
                segments: Seq::empty(),
                merged: Seq::empty(),
            }),
    {
        let r = DualStreamCoordinator {
            last_mic_len: 0,
            last_sys_len: 0,
            merged_text: String::new(),
            segments: Vec::new(),
        };
        proof {
            assert(r@.segments =~= Seq::<Segment>::empty());
        }
        r
    }

    /// Takes in what the two streams have added, and returns the merged text
    /// if there was anything.
    pub fn poll(&mut self, mic_text: &str, sys_text: &str) -> (r: Option<String>)
        requires
            readable(mic_text@, old(self)@.mic_seen),
            readable(sys_text@, old(self)@.sys_seen),
        ensures
            final(self)@ == polled(old(self)@, mic_text@, sys_text@),
            r matches Some(display) ==> display@ == final(self)@.merged,
            r is Some <==> delta(mic_text@, old(self)@.mic_seen) is Some || delta(
                sys_text@,
                old(self)@.sys_seen,
            ) is Some,
    {
        let mut changed: bool = false;
        if let Some(said) = text_delta(mic_text, self.last_mic_len) {
            changed = true;
            self.add_segment(said, true);
            self.last_mic_len = mic_text.as_bytes().len();
        }
        if let Some(said) = text_delta(sys_text, self.last_sys_len) {
            changed = true;
            self.add_segment(said, false);
            self.last_sys_len = sys_text.as_bytes().len();
        }
        if changed {
            let display = Self::build_interleaved_text(self.segments.as_slice());
            self.merged_text = display.clone();
            Some(display)
        } else {
            None
        }
    }

    fn add_segment(&mut self, said: String, is_mic: bool)
        ensures
            final(self)@ == (DualStreamModel {
                segments: with_segment(old(self)@.segments, said@, is_mic),
                ..old(self)@
            }),
            final(self).last_mic_len == old(self).last_mic_len,
            final(self).last_sys_len == old(self).last_sys_len,
    {
        if !is_blank(said.as_str()) {
            let ghost before = self.segments@;
            self.segments.push((said, is_mic));
            proof {
                assert(segments_of(self.segments@) =~= segments_of(before).push((said@, is_mic)));
            }
        }
    }

    /// The merged text that was last shown.
    pub fn get_text_ref(&self) -> (r: &String)
        ensures
            r@ == self@.merged,
    {
        &self.merged_text
    }

    /// The segments that were taken in; true for the microphone.
    pub fn stop(&self) -> (r: Vec<(String, bool)>)
        ensures
            segments_of(r@) == self@.segments,
    {
        let mut r: Vec<(String, bool)> = Vec::new();
        let mut i: usize = 0;
        while i < self.segments.len()
            invariant
                i <= self.segments@.len(),
                segments_of(r@) == segments_of(self.segments@).take(i as int),
            decreases self.segments.len() - i,
        {
            let ghost before = r@;
            r.push((self.segments[i].0.clone(), self.segments[i].1));
            proof {
                assert(segments_of(r@) =~= segments_of(before).push(
                    segments_of(self.segments@)[i as int],
                ));
                assert(segments_of(self.segments@).take(i + 1) =~= segments_of(
                    self.segments@,
                ).take(i as int).push(segments_of(self.segments@)[i as int]));
            }
            i = i + 1;
        }
        proof {
            assert(segments_of(self.segments@).take(i as int) =~= segments_of(self.segments@));
        }
        r
    }

    /// The text to paste when both streams have ended.
    pub fn build_final_text(segments: &[(String, bool)], mic_final: &str, sys_final: &str) -> (r:
        String)
        ensures
            r@ == final_text(segments_of(segments@), mic_final@, sys_final@),
    {
        let interleaved = Self::build_interleaved_text(segments);
        if !interleaved.as_str().is_empty() {
            return interleaved;
        }
        let mut result = String::new();
        if !is_blank(mic_final) {
            result.append("[🎤 Mic] ");
            result.append(trim(mic_final).as_str());
        }
        if !is_blank(sys_final) {
            if !result.as_str().is_empty() {
                result.push('\n');
            }
            result.append("[🔊 System Audio] ");
            result.append(trim(sys_final).as_str());
        }
        result
    }

    /// The timeline of the segments.
    pub fn build_interleaved_text(segments: &[(String, bool)]) -> (r: String)
        ensures
            r@ == timeline(segments_of(segments@)).0,
    {
        let mut result = String::new();
        let mut last_source: Option<bool> = None;
        let mut i: usize = 0;
        let ghost all = segments_of(segments@);
        while i < segments.len()
            invariant
                i <= segments@.len(),
                all == segments_of(segments@),
                timeline(all.take(i as int)) == (result@, last_source),
            decreases segments.len() - i,
        {
            let is_mic = segments[i].1;
            let said = trim(segments[i].0.as_str());
            proof {
                assert(all.take(i + 1).drop_last() =~= all.take(i as int));
                assert(all.take(i + 1).last() == all[i as int]);
            }
            if !said.as_str().is_empty() {
                let goes_on = match last_source {
                    Some(source) => source == is_mic,
                    None => false,
                };
                if goes_on {
                    result.push(' ');
                    result.append(said.as_str());
                } else {
                    if !result.as_str().is_empty() {
                        result.push('\n');
                    }
                    if is_mic {
                        result.append("[🎤 Mic] ");
                    } else {
                        result.append("[🔊 System Audio] ");
                    }
                    result.append(said.as_str());
                    last_source = Some(is_mic);
                }
            }
            i = i + 1;
        }
        proof {
            assert(all.take(i as int) =~= all);
        }
        result
    }
}

proof fn lemma_encoding_of_appended(a: Seq<char>, b: Seq<char>)
    ensures
        encode_utf8(a + b) == encode_utf8(a) + encode_utf8(b),
        is_char_boundary(encode_utf8(a + b), encode_utf8(a).len() as int),
    decreases a.len(),
{
    encode_utf8_valid_utf8(a + b);
    if a.len() == 0 {
        assert(a + b =~= b);
        assert(encode_utf8(a) + encode_utf8(b) =~= encode_utf8(b));
    } else {
        let rest = a.drop_first();
        assert((a + b).drop_first() =~= rest + b);
        lemma_encoding_of_appended(rest, b);
        encode_utf8_first_scalar(a + b);
        assert(encode_utf8(a + b) =~= encode_utf8(a) + encode_utf8(b));
        assert(pop_first_scalar(encode_utf8(a + b)) =~= encode_utf8(rest + b));
    }
}

/// What a stream appends is what the next look takes in, and that look is
/// always possible.
pub proof fn law_growth_is_taken_in(before: Seq<char>, added: Seq<char>)
    ensures
        readable(before + added, encode_utf8(before).len()),
        added.len() > 0 ==> delta(before + added, encode_utf8(before).len()) == Some(added),
        added.len() == 0 ==> delta(before + added, encode_utf8(before).len()) is None,
        seen_after(before + added, encode_utf8(before).len()) == encode_utf8(before + added).len(),
{
    lemma_encoding_of_appended(before, added);
    let bytes = encode_utf8(before + added);
    assert(bytes.subrange(encode_utf8(before).len() as int, bytes.len() as int) =~= encode_utf8(
        added,
    ));
    encode_utf8_decode_utf8(added);
    if added.len() > 0 {
        encode_utf8_first_scalar(added);
        assert(encode_utf8(added).len() > 0);
    }
}

/// Looks only ever add segments at the end, and what is shown after a look is
/// the timeline of all segments if it was before.
pub proof fn law_segments_accumulate(m: DualStreamModel, mic: Seq<char>, sys: Seq<char>)
    ensures
        m.segments.is_prefix_of(polled(m, mic, sys).segments),
        m.merged == timeline(m.segments).0 ==> polled(m, mic, sys).merged == timeline(
            polled(m, mic, sys).segments,
        ).0,
{
}

/// Blank segments leave no trace in the timeline.
pub proof fn law_blank_segments_do_not_show(segments: Seq<Segment>)
    ensures
        timeline(segments) == timeline(segments.filter(|p: Segment| !blank(p.0))),
    decreases segments.len(),
{
    reveal(Seq::filter);
    let keep = |p: Segment| !blank(p.0);
    if segments.len() > 0 {
        law_blank_segments_do_not_show(segments.drop_last());
        let before = segments.drop_last().filter(keep);
        if keep(segments.last()) {
            assert(before.push(segments.last()).drop_last() =~= before);
        }
    }
}

/// The timeline is empty exactly when every segment is blank.
pub proof fn law_timeline_is_empty_only_of_blanks(segments: Seq<Segment>)
    ensures
        timeline(segments).0.len() == 0 <==> forall|i: int|
            0 <= i < segments.len() ==> blank(#[trigger] segments[i].0),
    decreases segments.len(),
{
    if segments.len() > 0 {
        let before = segments.drop_last();
        law_timeline_is_empty_only_of_blanks(before);
        assert(forall|i: int| 0 <= i < before.len() ==> before[i] == segments[i]);
        assert(segments.last() == segments[segments.len() - 1]);
        if timeline(segments).0.len() == 0 {
            assert forall|i: int| 0 <= i < segments.len() implies blank(#[trigger] segments[i].0) by {
                if i < segments.len() - 1 {
                    assert(before[i].0 == segments[i].0);
                }
            }
        } else if blank(segments.last().0) {
            let i = choose|i: int| 0 <= i < before.len() && !blank(#[trigger] before[i].0);
            assert(!blank(segments[i].0));
        }
    }
}

/// The timeline only ever grows at its end, as segments are added.
pub proof fn law_timeline_grows(segments: Seq<Segment>, more: Seq<Segment>)
    ensures
        timeline(segments).0.is_prefix_of(timeline(segments + more).0),
    decreases more.len(),
{
    if more.len() == 0 {
        assert(segments + more =~= segments);
    } else {
        let before = segments + more.drop_last();
        law_timeline_grows(segments, more.drop_last());
        assert((segments + more).drop_last() =~= before);
        let shorter = timeline(segments).0;
        let middle = timeline(before).0;
        let longer = timeline(segments + more).0;
        assert(middle.is_prefix_of(longer));
        assert(shorter =~= longer.take(shorter.len() as int));
    }
}

} // verus!
