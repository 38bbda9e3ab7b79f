//! Post-processing of transcriptions by a language model.

use vstd::prelude::*;

use crate::settings::{
    entry_or_empty, find_entry, AppSettings, Platform, APPLE_INTELLIGENCE_PROVIDER_ID,
};
use crate::text::{
    blank, i32_value, is_blank, law_replacing_needs_the_pattern, occurs, parse_i32, replace_all,
    replaced, same, trim, trimmed,
};

verus! {

/// Why a transcription is not post-processed.
#[derive(Clone, Copy, Debug, PartialEq, Eq, Structural)]
pub enum SkipReason {
    /// No provider is selected.
    NoProvider,
    /// The provider has no model configured.
    NoModel,
    /// No prompt is selected.
    NoPromptSelected,
    /// The selected prompt does not exist.
    PromptNotFound,
    /// The selected prompt is blank.
    EmptyPrompt,
    /// The provider does not run on this platform.
    UnsupportedPlatform,
}

/// What post-processing takes; `T` is the type of texts.
pub enum PostProcessPlan<T> {
    Skip(SkipReason),
    /// Apple Intelligence, where it is available, is to answer the prompt
    /// within the token limit.
    AppleIntelligence { prompt: T, token_limit: i32 },
    /// The provider's model is to answer the prompt.
    Chat { provider_id: T, api_key: T, model: T, prompt: T },
}

impl View for PostProcessPlan<String> {
    type V = PostProcessPlan<Seq<char>>;

    open spec fn view(&self) -> PostProcessPlan<Seq<char>> {
        match self {
            PostProcessPlan::Skip(reason) => PostProcessPlan::Skip(*reason),
            PostProcessPlan::AppleIntelligence {
                prompt,
                token_limit,
            } => PostProcessPlan::AppleIntelligence { prompt: prompt@, token_limit: *token_limit },
            PostProcessPlan::Chat { provider_id, api_key, model, prompt } => PostProcessPlan::Chat {
                provider_id: provider_id@,
                api_key: api_key@,
                model: model@,
                prompt: prompt@,
            },
        }
    }
}

/// The number that a text, without whitespace around it, denotes; 0 if none.
pub open spec fn token_limit(model: Seq<char>) -> i32 {
    match i32_value(trimmed(model)) {
        Some(n) => n as i32,
        None => 0,
    }
}

/// What post-processing `text` takes under the given settings.
///
/// The prompt is the selected one, with the text in place of each `${output}`.
pub open spec fn post_process_plan(
    settings: AppSettings,
    text: Seq<char>,
    platform: Platform,
) -> PostProcessPlan<Seq<char>> {
    match settings.post_process_provider {
        None => PostProcessPlan::Skip(SkipReason::NoProvider),
        Some(provider) => {
            let model = entry_or_empty(settings.post_process_models@, provider.id@);
            if blank(model) {
                PostProcessPlan::Skip(SkipReason::NoModel)
            } else if settings.post_process_selected_prompt_id is None {
                PostProcessPlan::Skip(SkipReason::NoPromptSelected)
            } else {
                match settings.selected_prompt_text() {
                    None => PostProcessPlan::Skip(SkipReason::PromptNotFound),
                    Some(prompt) => if blank(prompt) {
                        PostProcessPlan::Skip(SkipReason::EmptyPrompt)
                    } else if provider.id@ == APPLE_INTELLIGENCE_PROVIDER_ID@ {
                        if platform is MacApple {
                            PostProcessPlan::AppleIntelligence {
                                prompt: replaced(prompt, "${output}"@, text),
                                token_limit: token_limit(model),
                            }
                        } else {
                            PostProcessPlan::Skip(SkipReason::UnsupportedPlatform)
                        }
                    } else {
                        PostProcessPlan::Chat {
                            provider_id: provider.id@,
                            api_key: entry_or_empty(settings.post_process_api_keys@, provider.id@),
                            model,
                            prompt: replaced(prompt, "${output}"@, text),
                        }
                    },
                }
            }
        },
    }
}

/// What post-processing `transcription` takes.
pub fn plan_post_process(settings: &AppSettings, transcription: &str, platform: Platform) -> (r:
    PostProcessPlan<String>)
    ensures
        r@ == post_process_plan(*settings, transcription@, platform),
{
    let provider = match &settings.post_process_provider {
        Some(provider) => provider,
        None => return PostProcessPlan::Skip(SkipReason::NoProvider),
    };
    let model = find_entry(&settings.post_process_models, provider.id.as_str());
    if is_blank(model.as_str()) {
        return PostProcessPlan::Skip(SkipReason::NoModel);
    }
    if settings.post_process_selected_prompt_id.is_none() {
        return PostProcessPlan::Skip(SkipReason::NoPromptSelected);
    }
    let prompt = match settings.selected_prompt() {
        Some(prompt) => prompt,
        None => return PostProcessPlan::Skip(SkipReason::PromptNotFound),
    };
    if is_blank(prompt.as_str()) {
        return PostProcessPlan::Skip(SkipReason::EmptyPrompt);
    }
    proof {
        reveal_strlit("${output}");
    }
    let processed_prompt = replace_all(prompt.as_str(), "${output}", transcription);
    if same(provider.id.as_str(), APPLE_INTELLIGENCE_PROVIDER_ID) {
        match platform {
            Platform::MacApple => {
                let limit: i32 = match parse_i32(trim(model.as_str()).as_str()) {
                    Some(n) => n,
                    None => 0,
                };
                PostProcessPlan::AppleIntelligence { prompt: processed_prompt, token_limit: limit }
            },
            _ => PostProcessPlan::Skip(SkipReason::UnsupportedPlatform),
        }
    } else {
        PostProcessPlan::Chat {
            provider_id: provider.id.clone(),
            api_key: find_entry(&settings.post_process_api_keys, provider.id.as_str()),
            model,
            prompt: processed_prompt,
        }
    }
}

/// A character that shows nothing, which some language models insert: the
/// zero-width space, non-joiner, joiner and no-break space.
pub open spec fn invisible(c: char) -> bool {
    c == '\u{200B}' || c == '\u{200C}' || c == '\u{200D}' || c == '\u{FEFF}'
}

/// The text without the characters that show nothing.
pub open spec fn visible_text(s: Seq<char>) -> Seq<char> {
    s.filter(|c: char| !invisible(c))
}

/// The text without the characters that show nothing.
pub fn strip_invisible(content: &str) -> (r: String)
    ensures
        r@ == visible_text(content@),
{
    let v = crate::text::chars_of(content);
    let mut out = String::new();
    let mut i: usize = 0;
    while i < v.len()
        invariant
            i <= v@.len(),
            out@ == visible_text(v@.take(i as int)),
        decreases v.len() - i,
    {
        let c = v[i];
        proof {
            reveal(Seq::filter);
            assert(v@.take(i + 1).drop_last() =~= v@.take(i as int));
            assert(v@.take(i + 1).last() == c);
        }
        if c != '\u{200B}' && c != '\u{200C}' && c != '\u{200D}' && c != '\u{FEFF}' {
            out.push(c);
        }
        i = i + 1;
    }
    proof {
        assert(v@.take(i as int) =~= content@);
    }
    out
}

/// What came of post-processing.
pub enum PostProcessReply {
    /// Apple Intelligence answered.
    Apple(String),
    /// The provider's model answered.
    Chat(String),
    /// Nobody answered: the provider is not available, it failed, or its
    /// answer has no content.
    Nothing,
}

/// The text that post-processing yields, if it yields any.
///
/// An answer of Apple Intelligence counts unless it is blank. An answer of a
/// provider's model counts without the characters that show nothing.
pub open spec fn processed_text(reply: PostProcessReply) -> Option<Seq<char>> {
    match reply {
        PostProcessReply::Apple(s) => if blank(s@) {
            None
        } else {
            Some(s@)
        },
        PostProcessReply::Chat(s) => Some(visible_text(s@)),
        PostProcessReply::Nothing => None,
    }
}

/// The text that post-processing yields, if it yields any.
pub fn post_processed(reply: PostProcessReply) -> (r: Option<String>)
    ensures
        match r {
            Some(s) => processed_text(reply) == Some(s@),
            None => processed_text(reply) is None,
        },
{
    match reply {
        PostProcessReply::Apple(s) => {
            if is_blank(s.as_str()) {
                None
            } else {
                Some(s)
            }
        },
        PostProcessReply::Chat(s) => Some(strip_invisible(s.as_str())),
        PostProcessReply::Nothing => None,
    }
}

/// A prompt that does not mention the transcription is sent as it is, whatever
/// the transcription.
pub proof fn law_prompt_without_variable_is_sent_as_it_is(
    settings: AppSettings,
    text: Seq<char>,
    platform: Platform,
    prompt: Seq<char>,
)
    requires
        settings.selected_prompt_text() == Some(prompt),
        !occurs(prompt, "${output}"@),
    ensures
        match post_process_plan(settings, text, platform) {
            PostProcessPlan::Skip(_) => true,
            PostProcessPlan::AppleIntelligence { prompt: sent, .. } => sent == prompt,
            PostProcessPlan::Chat { prompt: sent, .. } => sent == prompt,
        },
{
    law_replacing_needs_the_pattern(prompt, "${output}"@, text);
}

/// What a language model answers is stripped of what shows nothing, and of
/// nothing else: a second time there is nothing left to strip.
pub proof fn law_stripping_leaves_what_shows(s: Seq<char>)
    ensures
        forall|i: int|
            0 <= i < visible_text(s).len() ==> !invisible(#[trigger] visible_text(s)[i]),
        visible_text(visible_text(s)) == visible_text(s),
        (forall|i: int| 0 <= i < s.len() ==> !invisible(#[trigger] s[i])) ==> visible_text(s) == s,
    decreases s.len(),
{
    reveal(Seq::filter);
    if s.len() > 0 {
        let before = s.drop_last();
        law_stripping_leaves_what_shows(before);
        if !invisible(s.last()) {
            assert(visible_text(s) == visible_text(before).push(s.last()));
            assert(visible_text(s).drop_last() =~= visible_text(before));
            assert(visible_text(visible_text(s)) =~= visible_text(s));
        }
        if forall|i: int| 0 <= i < s.len() ==> !invisible(#[trigger] s[i]) {
            assert forall|i: int| 0 <= i < before.len() implies !invisible(#[trigger] before[i]) by {
                assert(before[i] == s[i]);
            }
            assert(!invisible(s[s.len() - 1]));
            assert(before.push(s.last()) =~= s);
        }
    }
}

/// Where nothing stands in the way, the selected prompt is sent with the text in
/// place of each `${output}`: by Apple Intelligence with the limit that its model
/// names, and by any other provider with the provider's own key and model.
pub proof fn law_what_is_sent(
    settings: AppSettings,
    text: Seq<char>,
    platform: Platform,
    provider: Seq<char>,
    prompt: Seq<char>,
)
    requires
        settings.post_process_provider matches Some(p) && p.id@ == provider,
        !blank(entry_or_empty(settings.post_process_models@, provider)),
        settings.selected_prompt_text() == Some(prompt),
        !blank(prompt),
    ensures
        ({
            let model = entry_or_empty(settings.post_process_models@, provider);
            let sent = replaced(prompt, "${output}"@, text);
            post_process_plan(settings, text, platform) == if provider != "apple_intelligence"@ {
                PostProcessPlan::Chat {
                    provider_id: provider,
                    api_key: entry_or_empty(settings.post_process_api_keys@, provider),
                    model,
                    prompt: sent,
                }
            } else if platform == Platform::MacApple {
                PostProcessPlan::AppleIntelligence {
                    prompt: sent,
                    token_limit: match i32_value(trimmed(model)) {
                        Some(n) => n as i32,
                        None => 0,
                    },
                }
            } else {
                PostProcessPlan::Skip(SkipReason::UnsupportedPlatform)
            }
        }),
{
}

/// What stands in the way of post-processing, the first obstacle first: no
/// provider, no model for it, no prompt selected, no prompt under the selected
/// id, or a blank one.
pub proof fn law_what_stands_in_the_way(
    settings: AppSettings,
    text: Seq<char>,
    platform: Platform,
)
    ensures
        ({
            let plan = post_process_plan(settings, text, platform);
            match settings.post_process_provider {
                None => plan == PostProcessPlan::<Seq<char>>::Skip(SkipReason::NoProvider),
                Some(provider) => {
                    let modelled = !blank(entry_or_empty(settings.post_process_models@, provider.id@));
                    let selected = settings.post_process_selected_prompt_id is Some;
                    let prompt = settings.selected_prompt_text();
                    &&& !modelled ==> plan == PostProcessPlan::<Seq<char>>::Skip(
                        SkipReason::NoModel,
                    )
                    &&& modelled && !selected ==> plan == PostProcessPlan::<Seq<char>>::Skip(
                        SkipReason::NoPromptSelected,
                    )
                    &&& modelled && selected && prompt is None ==> plan == PostProcessPlan::<
                        Seq<char>,
                    >::Skip(SkipReason::PromptNotFound)
                    &&& modelled && selected && prompt is Some && blank(prompt->0) ==> plan
                        == PostProcessPlan::<Seq<char>>::Skip(SkipReason::EmptyPrompt)
                },
            }
        }),
{
}

/// An answer of Apple Intelligence counts as it is, unless it is blank; that of
/// any other provider always counts, without what shows nothing; and no answer
/// counts for nothing.
pub proof fn law_which_answers_count(answer: String)
    ensures
        processed_text(PostProcessReply::Apple(answer)) == if blank(answer@) {
            None
        } else {
            Some(answer@)
        },
        processed_text(PostProcessReply::Chat(answer)) == Some(visible_text(answer@)),
        processed_text(PostProcessReply::Nothing) is None,
{
}

/// Of the characters, the zero-width space, non-joiner, joiner and no-break space
/// go, and all others stay, each in its place.
pub proof fn law_stripping_goes_by_characters(a: Seq<char>, c: char, b: Seq<char>)
    ensures
        visible_text(a + b) == visible_text(a) + visible_text(b),
        visible_text(seq![c]) == if c == '\u{200B}' || c == '\u{200C}' || c == '\u{200D}' || c
            == '\u{FEFF}' {
            Seq::<char>::empty()
        } else {
            seq![c]
        },
{
    Seq::filter_distributes_over_add(a, b, |c: char| !invisible(c));
    reveal(Seq::filter);
    assert(seq![c].drop_last() =~= Seq::<char>::empty());
    assert(visible_text(seq![c].drop_last()) =~= Seq::<char>::empty());
    assert(Seq::<char>::empty().push(c) =~= seq![c]);
}

} // verus!
