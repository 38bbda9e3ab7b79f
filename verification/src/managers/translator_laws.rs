//! When a growing transcription is translated, and how failures are met.

use vstd::prelude::*;

use crate::json::Json;
use crate::managers::streaming_translator::{
    first_choice, foreign_letter, likely_english, needs_no_translation, new_part, observed,
    replied, translation_backoff, usable, TranslatorModel,
};
use crate::text::{blank, trimmed, unicode_alphabetic};

verus! {

/// A text that is new, not empty and as a whole not English is wanted for
/// translation as a whole, whatever was seen before it; and asking for it
/// changes nothing yet.
pub proof fn law_text_that_is_not_english_is_translated(m: TranslatorModel, current: Seq<char>)
    requires
        current.len() > 0,
        current != m.seen,
        !likely_english(current),
    ensures
        observed(m, current) == (m, Some(current)),
{
}

/// No character is a letter from outside ASCII.
pub open spec fn no_foreign_letter(s: Seq<char>) -> bool {
    forall|i: int|
        0 <= i < s.len() ==> !(unicode_alphabetic(#[trigger] s[i]) && s[i] as u32 > 127)
}

/// Where a text has grown by something without a letter from outside ASCII, the
/// whole text decides, and not what was added: English rests, anything else is
/// translated as a whole. A text that rests is dealt with.
pub proof fn law_the_whole_text_decides(m: TranslatorModel, added: Seq<char>)
    requires
        added.len() > 0,
        no_foreign_letter(added),
    ensures
        ({
            let current = m.seen + added;
            observed(m, current) == if likely_english(current) {
                (TranslatorModel { seen: current, ..m }, None)
            } else {
                (m, Some(current))
            }
        }),
{
    let current = m.seen + added;
    assert(m.seen.is_prefix_of(current));
    assert(current.skip(m.seen.len() as int) =~= added);
    assert(current.len() > m.seen.len());
}

/// Where a text has grown by something with a letter from outside ASCII, it is
/// translated as a whole.
pub proof fn law_an_added_foreign_letter_is_translated(m: TranslatorModel, added: Seq<char>)
    requires
        !no_foreign_letter(added),
    ensures
        observed(m, m.seen + added) == (m, Some(m.seen + added)),
{
    let current = m.seen + added;
    let i = choose|i: int|
        0 <= i < added.len() && unicode_alphabetic(#[trigger] added[i]) && added[i] as u32 > 127;
    assert(m.seen.is_prefix_of(current));
    assert(current.skip(m.seen.len() as int) =~= added);
    assert(foreign_letter(new_part(m.seen, current)[i]));
    assert(!needs_no_translation(m.seen, current));
    assert(current != m.seen);
}

/// A text that does not go on from what was seen is judged as if nothing had
/// been seen: English without letters from outside ASCII rests, and anything
/// else is translated as a whole.
pub proof fn law_a_rewritten_text_is_judged_afresh(m: TranslatorModel, current: Seq<char>)
    requires
        current.len() > 0,
        !m.seen.is_prefix_of(current),
    ensures
        observed(m, current) == if likely_english(current) && no_foreign_letter(current) {
            (TranslatorModel { seen: current, ..m }, None)
        } else {
            (m, Some(current))
        },
{
    assert(current != m.seen) by {
        if current == m.seen {
            assert(m.seen.is_prefix_of(current));
        }
    }
    assert(new_part(m.seen, current) == current);
    if no_foreign_letter(current) {
        assert(forall|i: int| 0 <= i < current.len() ==> !foreign_letter(#[trigger] current[i]));
    } else {
        let i = choose|i: int|
            0 <= i < current.len() && unicode_alphabetic(#[trigger] current[i])
                && current[i] as u32 > 127;
        assert(foreign_letter(new_part(m.seen, current)[i]));
        assert(!needs_no_translation(m.seen, current));
    }
}

/// There is nothing to do for an empty text, nor for one that was dealt with.
pub proof fn law_nothing_new_rests(m: TranslatorModel)
    ensures
        observed(m, Seq::empty()) == (m, None::<Seq<char>>),
        observed(m, m.seen) == (m, None::<Seq<char>>),
{
}

/// A translation is what is shown from then on, its text is dealt with, and the
/// failures before it are forgotten. A failure leaves the text and the last
/// translation as they are.
pub proof fn law_what_a_reply_changes(
    m: TranslatorModel,
    text: Seq<char>,
    translation: Seq<char>,
)
    ensures
        replied(m, text, Some(translation)).translation == translation,
        replied(m, text, Some(translation)).seen == text,
        replied(m, text, Some(translation)).failures == 0,
        replied(m, text, None) == (TranslatorModel { failures: m.failures + 1, ..m }),
{
}

/// The first failure is followed by a rest of 100 ms; each further one in a row
/// doubles the rest, up to 5 s.
pub proof fn law_translation_rests_double(failures: nat)
    requires
        failures >= 1,
    ensures
        translation_backoff(1) == 100,
        translation_backoff(failures + 1) == if 2 * translation_backoff(failures) <= 5000 {
            2 * translation_backoff(failures)
        } else {
            5000
        },
{
    vstd::arithmetic::power2::lemma2_to64();
    if failures >= 8 {
        assert(translation_backoff(failures) == translation_backoff(7));
    }
}

/// The translation is the content of the first choice, without the whitespace
/// around it; there is none where any part on the way to it is missing, or where
/// it is blank.
pub proof fn law_translation_is_the_first_choice(
    reply: Json,
    choices: Json,
    choice: Json,
    message: Json,
    content: Json,
)
    ensures
        reply.member("choices"@) is None ==> first_choice(reply) is None,
        reply.member("choices"@) == Some(choices) && choices.element(0) is None ==> first_choice(
            reply,
        ) is None,
        reply.member("choices"@) == Some(choices) && choices.element(0) == Some(choice)
            && choice.member("message"@) is None ==> first_choice(reply) is None,
        reply.member("choices"@) == Some(choices) && choices.element(0) == Some(choice)
            && choice.member("message"@) == Some(message) && message.member("content"@) is None
            ==> first_choice(reply) is None,
        reply.member("choices"@) == Some(choices) && choices.element(0) == Some(choice)
            && choice.member("message"@) == Some(message) && message.member("content"@) == Some(
            content,
        ) ==> first_choice(reply) == content.text(),
{
}

/// A content counts without the whitespace around it, and only if something is
/// left.
pub proof fn law_blank_translations_do_not_count(content: Seq<char>)
    ensures
        usable(None) is None,
        blank(content) ==> usable(Some(content)) is None,
        !blank(content) ==> usable(Some(content)) == Some(trimmed(content)),
{
}

} // verus!
