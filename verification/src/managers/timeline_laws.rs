//! What the merged text of two streams owes to each of them: nothing that was
//! said is lost, and everything stands behind the label of who said it.

use vstd::prelude::*;
use vstd::utf8::*;

use crate::managers::dual_stream::{
    final_text, law_growth_is_taken_in, law_timeline_is_empty_only_of_blanks, polled,
    timeline, DualStreamModel, Segment,
};
use crate::text::{blank, trimmed};

verus! {

/// The segment at `j` is the last one that is not blank.
pub open spec fn last_spoken(segments: Seq<Segment>, j: int) -> bool {
    &&& 0 <= j < segments.len()
    &&& !blank(segments[j].0)
    &&& forall|k: int| j < k < segments.len() ==> blank(#[trigger] segments[k].0)
}

/// No segment holds anything but whitespace.
pub open spec fn nothing_spoken(segments: Seq<Segment>) -> bool {
    forall|k: int| 0 <= k < segments.len() ==> blank(#[trigger] segments[k].0)
}

proof fn lemma_speaker(segments: Seq<Segment>)
    ensures
        nothing_spoken(segments) ==> timeline(segments).1 is None,
        forall|j: int|
            last_spoken(segments, j) ==> timeline(segments).1 == Some((#[trigger] segments[j]).1),
    decreases segments.len(),
{
    if segments.len() > 0 {
        let before = segments.drop_last();
        let last = segments.len() - 1;
        lemma_speaker(before);
        if nothing_spoken(segments) {
            assert(blank(segments[last].0));
            assert forall|k: int| 0 <= k < before.len() implies blank(#[trigger] before[k].0) by {
                assert(blank(segments[k].0));
            }
        }
        assert forall|j: int| last_spoken(segments, j) implies timeline(segments).1 == Some(
            (#[trigger] segments[j]).1,
        ) by {
            if j < last {
                assert(blank(segments[last].0));
                assert(before[j] == segments[j]);
                assert forall|k: int| j < k < before.len() implies blank(
                    #[trigger] before[k].0,
                ) by {
                    assert(blank(segments[k].0));
                }
                assert(last_spoken(before, j));
            }
        }
    }
}

/// Nothing that was said is lost. Whatever a stream says last stands at the end
/// of the timeline, without the whitespace around it: after a space where the
/// same stream spoke before it, and otherwise at the beginning of a line, behind
/// the label of its stream. What is blank changes nothing.
pub proof fn law_what_is_said_is_told(segments: Seq<Segment>, said: Seq<char>, is_mic: bool)
    ensures
        ({
            let before = timeline(segments).0;
            let after = timeline(segments.push((said, is_mic))).0;
            let label = if is_mic {
                "[🎤 Mic] "@
            } else {
                "[🔊 System Audio] "@
            };
            &&& blank(said) ==> after == before
            &&& !blank(said) && nothing_spoken(segments) ==> after == label + trimmed(said)
            &&& forall|j: int|
                !blank(said) && last_spoken(segments, j) ==> after == if (
                #[trigger] segments[j]).1 == is_mic {
                    before.push(' ') + trimmed(said)
                } else {
                    before.push('\n') + label + trimmed(said)
                }
        }),
{
    let after = segments.push((said, is_mic));
    assert(after.drop_last() =~= segments);
    lemma_speaker(segments);
    law_timeline_is_empty_only_of_blanks(segments);
    if nothing_spoken(segments) {
        assert(timeline(segments).0 =~= Seq::empty());
        if !blank(said) {
            let label = if is_mic {
                "[🎤 Mic] "@
            } else {
                "[🔊 System Audio] "@
            };
            assert(Seq::<char>::empty() + label + trimmed(said) =~= label + trimmed(said));
        }
    }
}

/// Where anything was said during the recording, the timeline of it is pasted;
/// where nothing was, what the two streams yielded at their ends: the
/// microphone's first, each in a line of its own behind its label, and what is
/// blank not at all.
pub proof fn law_what_is_pasted_of_two_streams(
    segments: Seq<Segment>,
    mic: Seq<char>,
    sys: Seq<char>,
)
    ensures
        !nothing_spoken(segments) ==> final_text(segments, mic, sys) == timeline(segments).0,
        nothing_spoken(segments) ==> final_text(segments, mic, sys) == if blank(mic) && blank(sys) {
            Seq::empty()
        } else if blank(sys) {
            "[🎤 Mic] "@ + trimmed(mic)
        } else if blank(mic) {
            "[🔊 System Audio] "@ + trimmed(sys)
        } else {
            ("[🎤 Mic] "@ + trimmed(mic)).push('\n') + "[🔊 System Audio] "@ + trimmed(sys)
        },
{
    law_timeline_is_empty_only_of_blanks(segments);
    if nothing_spoken(segments) {
        let nothing = Seq::<char>::empty();
        assert(nothing + "[🎤 Mic] "@ + trimmed(mic) =~= "[🎤 Mic] "@ + trimmed(mic));
        assert(nothing + "[🔊 System Audio] "@ + trimmed(sys) =~= "[🔊 System Audio] "@ + trimmed(
            sys,
        ));
    }
}

/// A stream's text is what was read of it before and what it has added since; or
/// it has not become longer than what was read, and has added nothing.
pub open spec fn has_added(seen: nat, read: Seq<char>, added: Seq<char>) -> bool {
    ||| seen == encode_utf8(read).len()
    ||| added.len() == 0 && encode_utf8(read).len() <= seen
}

/// A look at the two streams takes in what each has added, the microphone's
/// first, and remembers how far it has read; and it shows the timeline of all
/// that was taken in. Where neither has added anything nothing changes.
pub proof fn law_a_look_takes_in_both_streams(
    m: DualStreamModel,
    mic: Seq<char>,
    mic_added: Seq<char>,
    sys: Seq<char>,
    sys_added: Seq<char>,
)
    requires
        has_added(m.mic_seen, mic, mic_added),
        has_added(m.sys_seen, sys, sys_added),
    ensures
        ({
            let after = polled(m, mic + mic_added, sys + sys_added);
            let from_mic = if blank(mic_added) {
                Seq::<Segment>::empty()
            } else {
                seq![(mic_added, true)]
            };
            let from_sys = if blank(sys_added) {
                Seq::<Segment>::empty()
            } else {
                seq![(sys_added, false)]
            };
            &&& after.mic_seen == if mic_added.len() == 0 {
                m.mic_seen
            } else {
                encode_utf8(mic + mic_added).len()
            }
            &&& after.sys_seen == if sys_added.len() == 0 {
                m.sys_seen
            } else {
                encode_utf8(sys + sys_added).len()
            }
            &&& after.segments == m.segments + from_mic + from_sys
            &&& after.merged == if mic_added.len() == 0 && sys_added.len() == 0 {
                m.merged
            } else {
                timeline(m.segments + from_mic + from_sys).0
            }
        }),
{
    law_growth_is_taken_in(mic, mic_added);
    law_growth_is_taken_in(sys, sys_added);
    if mic_added.len() == 0 {
        assert(mic + mic_added =~= mic);
    }
    if sys_added.len() == 0 {
        assert(sys + sys_added =~= sys);
    }
    assert(polled(m, mic + mic_added, sys + sys_added).segments =~= m.segments + (if blank(
        mic_added,
    ) {
        Seq::<Segment>::empty()
    } else {
        seq![(mic_added, true)]
    }) + (if blank(sys_added) {
        Seq::<Segment>::empty()
    } else {
        seq![(sys_added, false)]
    }));
}

/// A stream whose text has not become longer adds nothing, and what was read of
/// it stays read.
pub proof fn law_nothing_is_read_twice(m: DualStreamModel, mic: Seq<char>, sys: Seq<char>)
    ensures
        encode_utf8(mic).len() <= m.mic_seen && encode_utf8(sys).len() <= m.sys_seen ==> polled(
            m,
            mic,
            sys,
        ) == m,
        polled(m, mic, sys).mic_seen >= m.mic_seen,
        polled(m, mic, sys).sys_seen >= m.sys_seen,
        polled(polled(m, mic, sys), mic, sys) == polled(m, mic, sys),
{
}

} // verus!
