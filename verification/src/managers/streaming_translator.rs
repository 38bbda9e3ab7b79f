//! Live translation of a transcription that is still growing.

use vstd::prelude::*;
use vstd::string::*;

use crate::backoff::{capped, capped_backoff};
use crate::json::{as_text, document, element, member, parse, parsed_document, Json};
use crate::text::{
    begins_with, blank, chars_of, letters_core, optional_text, pieces, same, split_at_char,
    split_words, texts, trim, trim_to_letters, trimmed, unicode_alphabetic, unicode_lowercase,
    unicode_whitespace, words,
};

verus! {

/// A common English function word, or a word of spoken English that is
/// unlikely in other languages of Latin script.
pub open spec fn stop_word(w: Seq<char>) -> bool {
    ||| w == "the"@
    ||| w == "is"@
    ||| w == "are"@
    ||| w == "was"@
    ||| w == "were"@
    ||| w == "am"@
    ||| w == "be"@
    ||| w == "been"@
    ||| w == "being"@
    ||| w == "have"@
    ||| w == "has"@
    ||| w == "had"@
    ||| w == "do"@
    ||| w == "does"@
    ||| w == "did"@
    ||| w == "this"@
    ||| w == "that"@
    ||| w == "these"@
    ||| w == "those"@
    ||| w == "not"@
    ||| w == "but"@
    ||| w == "and"@
    ||| w == "or"@
    ||| w == "if"@
    ||| w == "so"@
    ||| w == "they"@
    ||| w == "them"@
    ||| w == "their"@
    ||| w == "he"@
    ||| w == "she"@
    ||| w == "it"@
    ||| w == "we"@
    ||| w == "you"@
    ||| w == "i"@
    ||| w == "would"@
    ||| w == "could"@
    ||| w == "should"@
    ||| w == "will"@
    ||| w == "shall"@
    ||| w == "may"@
    ||| w == "might"@
    ||| w == "can"@
    ||| w == "which"@
    ||| w == "what"@
    ||| w == "where"@
    ||| w == "when"@
    ||| w == "who"@
    ||| w == "how"@
    ||| w == "there"@
    ||| w == "here"@
    ||| w == "very"@
    ||| w == "just"@
    ||| w == "also"@
    ||| w == "some"@
    ||| w == "any"@
    ||| w == "my"@
    ||| w == "your"@
    ||| w == "his"@
    ||| w == "her"@
    ||| w == "its"@
    ||| w == "our"@
    ||| w == "a"@
    ||| w == "an"@
    ||| w == "of"@
    ||| w == "in"@
    ||| w == "to"@
    ||| w == "for"@
    ||| w == "on"@
    ||| w == "with"@
    ||| w == "at"@
    ||| w == "by"@
    ||| w == "from"@
    ||| w == "hello"@
    ||| w == "now"@
    ||| w == "about"@
    ||| w == "out"@
    ||| w == "up"@
    ||| w == "because"@
    ||| w == "going"@
    ||| w == "thing"@
    ||| w == "know"@
    ||| w == "want"@
    ||| w == "think"@
    ||| w == "getting"@
    ||| w == "actually"@
    ||| w == "really"@
}

/// A visible ASCII character: a letter, a digit or a punctuation mark.
pub open spec fn ascii_graphic(c: char) -> bool {
    '!' <= c && c <= '~'
}

/// A visible character from outside ASCII.
pub open spec fn foreign_character(c: char) -> bool {
    !unicode_whitespace(c) && !ascii_graphic(c)
}

/// More than 15 percent of the visible characters are from outside ASCII.
pub open spec fn mostly_foreign(s: Seq<char>) -> bool {
    let visible = s.filter(|c: char| !unicode_whitespace(c)).len();
    let foreign = s.filter(|c: char| foreign_character(c)).len();
    visible > 0 && 100 * foreign > 15 * visible
}

/// The words of a text without the punctuation around them.
pub open spec fn spoken_words(s: Seq<char>) -> Seq<Seq<char>> {
    words(s).map_values(|w: Seq<char>| letters_core(w)).filter(|w: Seq<char>| w.len() > 0)
}

/// In lower case the word, or a part of it between apostrophes, is a stop word.
pub open spec fn english_word(w: Seq<char>) -> bool {
    let lower = unicode_lowercase(w);
    stop_word(lower) || exists|i: int|
        0 <= i < pieces(lower, '\'').len() && stop_word(#[trigger] pieces(lower, '\'')[i])
}

/// A text that is taken for English: in ASCII for the most part, and either of
/// fewer than three words or with stop words for more than a quarter of them.
pub open spec fn likely_english(s: Seq<char>) -> bool {
    let spoken = spoken_words(s);
    let english = spoken.filter(|w: Seq<char>| english_word(w));
    &&& !mostly_foreign(s)
    &&& (spoken.len() < 3 || 4 * english.len() > spoken.len())
}

fn is_stop_word(w: &str) -> (b: bool)
    ensures
        b == stop_word(w@),
{
    same(w, "the")
        || same(w, "is")
        || same(w, "are")
        || same(w, "was")
        || same(w, "were")
        || same(w, "am")
        || same(w, "be")
        || same(w, "been")
        || same(w, "being")
        || same(w, "have")
        || same(w, "has")
        || same(w, "had")
        || same(w, "do")
        || same(w, "does")
        || same(w, "did")
        || same(w, "this")
        || same(w, "that")
        || same(w, "these")
        || same(w, "those")
        || same(w, "not")
        || same(w, "but")
        || same(w, "and")
        || same(w, "or")
        || same(w, "if")
        || same(w, "so")
        || same(w, "they")
        || same(w, "them")
        || same(w, "their")
        || same(w, "he")
        || same(w, "she")
        || same(w, "it")
        || same(w, "we")
        || same(w, "you")
        || same(w, "i")
        || same(w, "would")
        || same(w, "could")
        || same(w, "should")
        || same(w, "will")
        || same(w, "shall")
        || same(w, "may")
        || same(w, "might")
        || same(w, "can")
        || same(w, "which")
        || same(w, "what")
        || same(w, "where")
        || same(w, "when")
        || same(w, "who")
        || same(w, "how")
        || same(w, "there")
        || same(w, "here")
        || same(w, "very")
        || same(w, "just")
        || same(w, "also")
        || same(w, "some")
        || same(w, "any")
        || same(w, "my")
        || same(w, "your")
        || same(w, "his")
        || same(w, "her")
        || same(w, "its")
        || same(w, "our")
        || same(w, "a")
        || same(w, "an")
        || same(w, "of")
        || same(w, "in")
        || same(w, "to")
        || same(w, "for")
        || same(w, "on")
        || same(w, "with")
        || same(w, "at")
        || same(w, "by")
        || same(w, "from")
        || same(w, "hello")
        || same(w, "now")
        || same(w, "about")
        || same(w, "out")
        || same(w, "up")
        || same(w, "because")
        || same(w, "going")
        || same(w, "thing")
        || same(w, "know")
        || same(w, "want")
        || same(w, "think")
        || same(w, "getting")
        || same(w, "actually")
        || same(w, "really")
}

fn is_english_word(w: &str) -> (b: bool)
    ensures
        b == english_word(w@),
{
    let lower = w.to_lowercase();
    if is_stop_word(lower.as_str()) {
        return true;
    }
    let parts = split_at_char(lower.as_str(), '\'');
    let mut i: usize = 0;
    while i < parts.len()
        invariant
            i <= parts@.len(),
            lower@ == unicode_lowercase(w@),
            texts(parts@) == pieces(lower@, '\''),
            forall|k: int| 0 <= k < i ==> !stop_word(#[trigger] pieces(lower@, '\'')[k]),
        decreases parts.len() - i,
    {
        proof {
            assert(texts(parts@)[i as int] == parts@[i as int]@);
        }
        if is_stop_word(parts[i].as_str()) {
            proof {
                assert(stop_word(pieces(lower@, '\'')[i as int]));
            }
            return true;
        }
        i = i + 1;
    }
    false
}

/// Whether more than 15 percent of the visible characters are from outside
/// ASCII.
fn is_mostly_foreign(text: &str) -> (b: bool)
    ensures
        b == mostly_foreign(text@),
{
    let v = crate::text::chars_of(text);
    let mut visible: u64 = 0;
    let mut foreign: u64 = 0;
    let mut i: usize = 0;
    let len = v.len();
    while i < len
        invariant
            i <= len == v@.len(),
            visible == v@.take(i as int).filter(|c: char| !unicode_whitespace(c)).len(),
            foreign == v@.take(i as int).filter(|c: char| foreign_character(c)).len(),
            foreign <= visible <= i,
        decreases len - i,
    {
        let c = v[i];
        proof {
            reveal(Seq::filter);
            assert(v@.take(i + 1).drop_last() =~= v@.take(i as int));
            assert(v@.take(i + 1).last() == c);
        }
        if !c.is_whitespace() {
            visible = visible + 1;
            if c < '!' || c > '~' {
                foreign = foreign + 1;
            }
        }
        i = i + 1;
    }
    proof {
        assert(v@.take(len as int) =~= text@);
    }
    visible > 0 && 100 * (foreign as u128) > 15 * (visible as u128)
}

/// Whether a text is likely English, by its characters and by the share of
/// common English words.
pub fn is_likely_english(text: &str) -> (b: bool)
    ensures
        b == likely_english(text@),
{
    if is_mostly_foreign(text) {
        return false;
    }
    let all = split_words(text);
    let mut spoken: u64 = 0;
    let mut english: u64 = 0;
    let mut i: usize = 0;
    let len = all.len();
    let ghost cores = words(text@).map_values(|w: Seq<char>| letters_core(w));
    let ghost nonempty = |w: Seq<char>| w.len() > 0;
    let ghost is_english = |w: Seq<char>| english_word(w);
    while i < len
        invariant
            i <= len == all@.len(),
            texts(all@) == words(text@),
            cores == words(text@).map_values(|w: Seq<char>| letters_core(w)),
            nonempty == (|w: Seq<char>| w.len() > 0),
            is_english == (|w: Seq<char>| english_word(w)),
            spoken == cores.take(i as int).filter(nonempty).len(),
            english == cores.take(i as int).filter(nonempty).filter(is_english).len(),
            english <= spoken <= i,
        decreases len - i,
    {
        let core = trim_to_letters(all[i].as_str());
        proof {
            reveal(Seq::filter);
            assert(texts(all@)[i as int] == all@[i as int]@);
            assert(cores[i as int] == core@);
            assert(cores.take(i + 1).drop_last() =~= cores.take(i as int));
            assert(cores.take(i + 1).last() == core@);
            let before = cores.take(i as int).filter(nonempty);
            assert(before.push(core@).drop_last() =~= before);
        }
        if !core.as_str().is_empty() {
            spoken = spoken + 1;
            if is_english_word(core.as_str()) {
                english = english + 1;
            }
        }
        i = i + 1;
    }
    proof {
        assert(cores.take(len as int) =~= cores);
    }
    spoken < 3 || 4 * (english as u128) > spoken as u128
}

/// How long the translator rests between two looks at the text.
pub const POLL_INTERVAL_MS: u64 = 3000;

/// A letter from outside ASCII.
pub open spec fn foreign_letter(c: char) -> bool {
    unicode_alphabetic(c) && c as u32 > 127
}

/// The part of `current` that was not there when `seen` was the whole text.
pub open spec fn new_part(seen: Seq<char>, current: Seq<char>) -> Seq<char> {
    if seen.is_prefix_of(current) {
        current.skip(seen.len() as int)
    } else {
        current
    }
}

/// Whether the new part of a text needs no translation.
pub open spec fn needs_no_translation(seen: Seq<char>, current: Seq<char>) -> bool {
    &&& forall|i: int|
        0 <= i < new_part(seen, current).len() ==> !foreign_letter(
            #[trigger] new_part(seen, current)[i],
        )
    &&& likely_english(current)
}

/// The rest after the given number of failures in a row: 100 ms, doubled with
/// each further failure, at most 5 s.
pub open spec fn translation_backoff(failures: nat) -> nat {
    capped(
        if failures >= 7 {
            6
        } else {
            (failures - 1) as nat
        },
    )
}

/// A text to be translated by a model.
pub struct TranslationRequest {
    pub model: String,
    pub text: String,
}

/// What is to be done with the text that was read.
pub enum TranslatorStep {
    /// Nothing until the next look.
    Rest,
    /// Have the text translated.
    Translate(TranslationRequest),
}

/// What is to be done with the reply to a request.
pub enum TranslatorOutcome {
    /// Show the translation.
    Show(String),
    /// Rest for so many milliseconds.
    BackOff(u64),
}

/// The state of a translator that follows a growing transcription.
pub struct StreamingTranslator {
    last_seen_text: String,
    consecutive_failures: u32,
    final_translation: String,
}

/// The mathematical state of a [`StreamingTranslator`].
pub struct TranslatorModel {
    /// The text that was last translated, or found to need no translation.
    pub seen: Seq<char>,
    /// Failures since the last translation.
    pub failures: nat,
    /// The last translation.
    pub translation: Seq<char>,
}

/// What a look at `current` leaves behind, and the text that it wants
/// translated.
///
/// An empty text, and one that was dealt with before, ask for nothing. A text
/// that needs no translation counts as dealt with. Every other is to be
/// translated as a whole.
pub open spec fn observed(m: TranslatorModel, current: Seq<char>) -> (
    TranslatorModel,
    Option<Seq<char>>,
) {
    if current.len() == 0 || current == m.seen {
        (m, None)
    } else if needs_no_translation(m.seen, current) {
        (TranslatorModel { seen: current, ..m }, None)
    } else {
        (m, Some(current))
    }
}

/// What the reply to a request to translate `text` leaves behind; no reply is
/// a failure.
pub open spec fn replied(m: TranslatorModel, text: Seq<char>, reply: Option<Seq<char>>) -> TranslatorModel {
    match reply {
        Some(translation) => TranslatorModel { seen: text, failures: 0, translation },
        None => TranslatorModel { failures: m.failures + 1, ..m },
    }
}

/// The text that a step wants translated.
pub open spec fn wanted(step: TranslatorStep) -> Option<Seq<char>> {
    match step {
        TranslatorStep::Rest => None,
        TranslatorStep::Translate(request) => Some(request.text@),
    }
}

impl View for StreamingTranslator {
    type V = TranslatorModel;

    closed spec fn view(&self) -> TranslatorModel {
        TranslatorModel {
            seen: self.last_seen_text@,
            failures: self.consecutive_failures as nat,
            translation: self.final_translation@,
        }
    }
}

/// Whether the text holds a letter from outside ASCII.
fn has_foreign_letter(v: &Vec<char>, from: usize) -> (b: bool)
    requires
        from <= v@.len(),
    ensures
        b == exists|i: int|
            0 <= i < v@.skip(from as int).len() && foreign_letter(
                #[trigger] v@.skip(from as int)[i],
            ),
{
    let mut i: usize = from;
    while i < v.len()
        invariant
            from <= i <= v@.len(),
            forall|k: int| 0 <= k < i - from ==> !foreign_letter(#[trigger] v@.skip(from as int)[k]),
        decreases v.len() - i,
    {
        let c = v[i];
        proof {
            assert(v@.skip(from as int)[i - from] == c);
        }
        if c.is_alphabetic() && c as u32 > 127 {
            return true;
        }
        i = i + 1;
    }
    false
}

impl StreamingTranslator {
    /// A translator that has seen nothing yet.
    pub fn start() -> (r: Self)
        ensures
            r@ == (TranslatorModel { seen: Seq::empty(), failures: 0, translation: Seq::empty() }),
    {
        StreamingTranslator {
            last_seen_text: String::new(),
            consecutive_failures: 0,
            final_translation: String::new(),
        }
    }

    /// Looks at the transcription as it stands.
    pub fn observe(&mut self, current_text: &str) -> (r: TranslatorStep)
        ensures
            (final(self)@, wanted(r)) == observed(old(self)@, current_text@),
            r matches TranslatorStep::Translate(request) ==> request.model@
                == "ministral-14b-latest"@,
    {
        if current_text.is_empty() || same(current_text, self.last_seen_text.as_str()) {
            return TranslatorStep::Rest;
        }
        let v = chars_of(current_text);
        let from: usize = if begins_with(current_text, self.last_seen_text.as_str()) {
            chars_of(self.last_seen_text.as_str()).len()
        } else {
            0
        };
        proof {
            assert(v@.skip(0) =~= v@);
            assert(v@.skip(from as int) == new_part(self.last_seen_text@, current_text@));
        }
        if !has_foreign_letter(&v, from) && is_likely_english(current_text) {
            self.last_seen_text = current_text.to_owned();
            return TranslatorStep::Rest;
        }
        TranslatorStep::Translate(
            TranslationRequest {
                model: "ministral-14b-latest".to_owned(),
                text: current_text.to_owned(),
            },
        )
    }

    /// Takes the reply to a request to translate `text`; `None` is a failure.
    pub fn translated(&mut self, text: &str, reply: Option<String>) -> (r: TranslatorOutcome)
        requires
            old(self)@.failures < u32::MAX,
        ensures
            final(self)@ == replied(
                old(self)@,
                text@,
                match reply {
                    Some(translation) => Some(translation@),
                    None => None,
                },
            ),
            match reply {
                Some(translation) => r matches TranslatorOutcome::Show(shown) && shown@
                    == translation@,
                None => r matches TranslatorOutcome::BackOff(ms) && ms == translation_backoff(
                    final(self)@.failures,
                ),
            },
    {
        match reply {
            Some(translation) => {
                self.last_seen_text = text.to_owned();
                self.consecutive_failures = 0;
                self.final_translation = translation.clone();
                TranslatorOutcome::Show(translation)
            },
            None => {
                self.consecutive_failures = self.consecutive_failures + 1;
                let doublings: u32 = if self.consecutive_failures >= 7 {
                    6
                } else {
                    self.consecutive_failures - 1
                };
                TranslatorOutcome::BackOff(capped_backoff(doublings))
            },
        }
    }

    /// The last translation.
    pub fn get_translation(&self) -> (r: String)
        ensures
            r@ == self@.translation,
    {
        self.final_translation.clone()
    }
}

/// A text is not sent again once it was translated, nor once it was found to
/// need no translation.
pub proof fn law_settled_text_is_not_sent_again(m: TranslatorModel, text: Seq<char>, translation: Seq<char>)
    ensures
        observed(replied(m, text, Some(translation)), text).1 is None,
        observed(m, text).1 is None ==> observed(observed(m, text).0, text).1 is None,
{
}

/// A text whose translation failed is wanted again at the next look.
pub proof fn law_failed_text_is_retried(m: TranslatorModel, text: Seq<char>)
    requires
        observed(m, text).1 == Some(text),
    ensures
        observed(replied(observed(m, text).0, text, None), text).1 == Some(text),
{
}

/// A letter from outside ASCII in the new part of a text has the whole text
/// translated, however English the text is.
pub proof fn law_foreign_letter_is_translated(m: TranslatorModel, current: Seq<char>, i: int)
    requires
        0 <= i < new_part(m.seen, current).len(),
        foreign_letter(new_part(m.seen, current)[i]),
    ensures
        observed(m, current).1 == Some(current),
{
    if current == m.seen {
        assert(m.seen.is_prefix_of(current));
    }
}

/// Only a translation that arrived replaces the one before, and only it ends a
/// row of failures.
pub proof fn law_translation_changes_by_replies_only(m: TranslatorModel, text: Seq<char>)
    ensures
        observed(m, text).0.translation == m.translation,
        observed(m, text).0.failures == m.failures,
        replied(m, text, None).translation == m.translation,
        replied(m, text, None).seen == m.seen,
        replied(m, text, None).failures == m.failures + 1,
{
}

/// A request to the chat completions service.
pub struct ChatRequest {
    pub url: String,
    /// The value of the `Authorization` header.
    pub authorization: String,
    pub model: String,
    /// The content of the single message, from the user.
    pub content: String,
}

/// The request that has `text` translated to English.
pub fn translation_request(api_key: &str, model: &str, text: &str) -> (r: ChatRequest)
    ensures
        r.url@ == "https://api.mistral.ai/v1/chat/completions"@,
        r.authorization@ == "Bearer "@ + api_key@,
        r.model@ == model@,
        r.content@
            == "Translate the following text to English. Output ONLY the translation, nothing else:\n\n"@
            + text@,
{
    ChatRequest {
        url: "https://api.mistral.ai/v1/chat/completions".to_owned(),
        authorization: "Bearer ".to_owned().concat(api_key),
        model: model.to_owned(),
        content: "Translate the following text to English. Output ONLY the translation, nothing else:\n\n".to_owned().concat(
            text,
        ),
    }
}

/// The content of the first choice in a reply of the chat completions service.
pub open spec fn first_choice(reply: Json) -> Option<Seq<char>> {
    match reply.member("choices"@) {
        Some(choices) => match choices.element(0) {
            Some(choice) => match choice.member("message"@) {
                Some(message) => match message.member("content"@) {
                    Some(content) => content.text(),
                    None => None,
                },
                None => None,
            },
            None => None,
        },
        None => None,
    }
}

/// A content without the whitespace around it; none, if nothing is left.
pub open spec fn usable(content: Option<Seq<char>>) -> Option<Seq<char>> {
    match content {
        Some(s) => if blank(s) {
            None
        } else {
            Some(trimmed(s))
        },
        None => None,
    }
}

fn content_of_reply(reply: &serde_json::Value) -> (r: Option<&str>)
    ensures
        match first_choice(document(*reply)) {
            Some(s) => r is Some && r->0@ == s,
            None => r is None,
        },
{
    let choices = match member(reply, "choices") {
        Some(v) => v,
        None => return None,
    };
    let choice = match element(choices, 0) {
        Some(v) => v,
        None => return None,
    };
    let message = match member(choice, "message") {
        Some(v) => v,
        None => return None,
    };
    match member(message, "content") {
        Some(v) => as_text(v),
        None => None,
    }
}

/// The translation that the content of a reply holds.
pub fn translation_of_content(content: Option<&str>) -> (r: Option<String>)
    ensures
        optional_text(r) == usable(
            match content {
                Some(s) => Some(s@),
                None => None,
            },
        ),
{
    match content {
        Some(s) => {
            let t = trim(s);
            if t.as_str().is_empty() {
                None
            } else {
                Some(t)
            }
        },
        None => None,
    }
}

/// The translation in a response of the chat completions service: its first
/// choice, if the status tells success and the body is a document that holds
/// one that is not blank.
pub fn translation_of_response(success: bool, body: &[u8]) -> (r: Option<String>)
    ensures
        optional_text(r) == match parsed_document(body@) {
            Some(reply) if success => usable(first_choice(reply)),
            _ => None,
        },
{
    if !success {
        return None;
    }
    match parse(body) {
        Ok(reply) => translation_of_content(content_of_reply(&reply)),
        Err(_) => None,
    }
}

} // verus!
