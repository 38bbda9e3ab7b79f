//! The settings that the decisions read.

use vstd::prelude::*;

use crate::text::same;

verus! {

/// Where the recorded audio comes from.
#[derive(Clone, Copy, Debug, PartialEq, Eq, Structural)]
pub enum AudioSource {
    Microphone,
    SystemAudio,
    Mixed,
}

/// The engine behind a local transcription model.
#[derive(Clone, Copy, Debug, PartialEq, Eq, Structural)]
pub enum EngineType {
    Parakeet,
    Moonshine,
    /// Any engine that is too slow to transcribe while the user speaks.
    Other,
}

/// What the decisions ask of the platform.
#[derive(Clone, Copy, Debug, PartialEq, Eq, Structural)]
pub enum Platform {
    Windows,
    Linux,
    /// macOS on an Intel processor.
    MacIntel,
    /// macOS on an Apple processor.
    MacApple,
    Other,
}

impl Platform {
    pub open spec fn mac(self) -> bool {
        self is MacIntel || self is MacApple
    }

    /// Whether this is macOS.
    pub fn is_mac(&self) -> (b: bool)
        ensures
            b == self.mac(),
    {
        match self {
            Platform::MacIntel | Platform::MacApple => true,
            _ => false,
        }
    }
}

/// The id of the provider that runs on the device itself.
pub const APPLE_INTELLIGENCE_PROVIDER_ID: &'static str = "apple_intelligence";

/// A service that post-processes transcriptions.
pub struct PostProcessProvider {
    pub id: String,
}

/// A prompt for post-processing.
pub struct PostProcessPrompt {
    pub id: String,
    pub prompt: String,
}

/// The user's settings.
pub struct AppSettings {
    pub selected_model: String,
    pub selected_language: String,
    pub mistral_api_key: String,
    pub realtime_transcription_enabled: bool,
    pub streaming_translation_enabled: bool,
    pub always_on_microphone: bool,
    pub mute_while_recording: bool,
    pub audio_source: AudioSource,
    pub selected_microphone: Option<String>,
    pub clamshell_microphone: Option<String>,
    /// The provider that is selected and known.
    pub post_process_provider: Option<PostProcessProvider>,
    /// The model for each provider, by the provider's id.
    pub post_process_models: Vec<(String, String)>,
    /// The key for each provider, by the provider's id.
    pub post_process_api_keys: Vec<(String, String)>,
    pub post_process_selected_prompt_id: Option<String>,
    pub post_process_prompts: Vec<PostProcessPrompt>,
}

/// What stands under `key` in a list of keys and values; the first entry
/// counts.
pub open spec fn entry(entries: Seq<(String, String)>, key: Seq<char>) -> Option<Seq<char>>
    decreases entries.len(),
{
    if entries.len() == 0 {
        None
    } else if entries[0].0@ == key {
        Some(entries[0].1@)
    } else {
        entry(entries.drop_first(), key)
    }
}

/// The text of the first prompt with the given id.
pub open spec fn prompt_text(prompts: Seq<PostProcessPrompt>, id: Seq<char>) -> Option<Seq<char>>
    decreases prompts.len(),
{
    if prompts.len() == 0 {
        None
    } else if prompts[0].id@ == id {
        Some(prompts[0].prompt@)
    } else {
        prompt_text(prompts.drop_first(), id)
    }
}

/// What stands under `key`, or the empty text.
pub open spec fn entry_or_empty(entries: Seq<(String, String)>, key: Seq<char>) -> Seq<char> {
    match entry(entries, key) {
        Some(value) => value,
        None => Seq::empty(),
    }
}

/// What stands under `key`, or the empty text.
pub fn find_entry(entries: &Vec<(String, String)>, key: &str) -> (r: String)
    ensures
        r@ == entry_or_empty(entries@, key@),
{
    let mut i: usize = 0;
    proof {
        assert(entries@.skip(0) =~= entries@);
    }
    while i < entries.len()
        invariant
            i <= entries@.len(),
            entry(entries@, key@) == entry(entries@.skip(i as int), key@),
        decreases entries.len() - i,
    {
        proof {
            assert(entries@.skip(i as int).drop_first() =~= entries@.skip(i + 1));
        }
        if same(entries[i].0.as_str(), key) {
            return entries[i].1.clone();
        }
        i = i + 1;
    }
    String::new()
}

impl AppSettings {
    /// The text of the prompt that is selected, where there is one.
    pub open spec fn selected_prompt_text(self) -> Option<Seq<char>> {
        match self.post_process_selected_prompt_id {
            Some(id) => prompt_text(self.post_process_prompts@, id@),
            None => None,
        }
    }

    /// Transcriptions stream through the Mistral service.
    pub open spec fn streams_to_mistral(self) -> bool {
        self.selected_model@ == "mistral-voxtral-realtime"@ && self.mistral_api_key@.len() > 0
    }

    /// Whether transcriptions stream through the Mistral service.
    pub fn is_mistral_api(&self) -> (b: bool)
        ensures
            b == self.streams_to_mistral(),
    {
        same(self.selected_model.as_str(), "mistral-voxtral-realtime")
            && !self.mistral_api_key.as_str().is_empty()
    }

    /// The text of the prompt that is selected, where there is one.
    pub fn selected_prompt(&self) -> (r: Option<String>)
        ensures
            match r {
                Some(p) => self.selected_prompt_text() == Some(p@),
                None => self.selected_prompt_text() is None,
            },
    {
        let id = match &self.post_process_selected_prompt_id {
            Some(id) => id,
            None => return None,
        };
        let prompts = &self.post_process_prompts;
        let mut i: usize = 0;
        proof {
            assert(prompts@.skip(0) =~= prompts@);
        }
        while i < prompts.len()
            invariant
                i <= prompts@.len(),
                prompt_text(prompts@, id@) == prompt_text(prompts@.skip(i as int), id@),
                self.selected_prompt_text() == prompt_text(prompts@, id@),
            decreases prompts.len() - i,
        {
            proof {
                assert(prompts@.skip(i as int).drop_first() =~= prompts@.skip(i + 1));
            }
            if same(prompts[i].id.as_str(), id.as_str()) {
                return Some(prompts[i].prompt.clone());
            }
            i = i + 1;
        }
        None
    }
}

/// What stands under a key is the value of the first entry with that key, and
/// without such an entry nothing.
pub proof fn law_the_first_entry_counts(entries: Seq<(String, String)>, key: Seq<char>, i: int)
    requires
        0 <= i <= entries.len(),
        forall|k: int| 0 <= k < i ==> (#[trigger] entries[k]).0@ != key,
    ensures
        i < entries.len() && entries[i].0@ == key ==> entry_or_empty(entries, key) == entries[i].1@,
        i == entries.len() ==> entry_or_empty(entries, key) == Seq::<char>::empty(),
    decreases i,
{
    if i > 0 {
        let rest = entries.drop_first();
        assert forall|k: int| 0 <= k < i - 1 implies (#[trigger] rest[k]).0@ != key by {
            assert(rest[k] == entries[k + 1]);
        }
        law_the_first_entry_counts(rest, key, i - 1);
        assert(entries[0].0@ != key);
        if i < entries.len() {
            assert(rest[i - 1] == entries[i]);
        }
    }
}

proof fn lemma_first_prompt(prompts: Seq<PostProcessPrompt>, id: Seq<char>, i: int)
    requires
        0 <= i <= prompts.len(),
        forall|k: int| 0 <= k < i ==> (#[trigger] prompts[k]).id@ != id,
    ensures
        i < prompts.len() && prompts[i].id@ == id ==> prompt_text(prompts, id) == Some(
            prompts[i].prompt@,
        ),
        i == prompts.len() ==> prompt_text(prompts, id) is None,
    decreases i,
{
    if i > 0 {
        let rest = prompts.drop_first();
        assert forall|k: int| 0 <= k < i - 1 implies (#[trigger] rest[k]).id@ != id by {
            assert(rest[k] == prompts[k + 1]);
        }
        lemma_first_prompt(rest, id, i - 1);
        assert(prompts[0].id@ != id);
        if i < prompts.len() {
            assert(rest[i - 1] == prompts[i]);
        }
    }
}

/// The selected prompt is the first one with the selected id; there is none
/// where no id is selected, or no prompt has it.
pub proof fn law_the_selected_prompt(settings: AppSettings, i: int)
    requires
        settings.post_process_selected_prompt_id matches Some(id) ==> {
            &&& 0 <= i <= settings.post_process_prompts@.len()
            &&& forall|k: int|
                0 <= k < i ==> (#[trigger] settings.post_process_prompts@[k]).id@ != id@
        },
    ensures
        match settings.post_process_selected_prompt_id {
            None => settings.selected_prompt_text() is None,
            Some(id) => if i == settings.post_process_prompts@.len() {
                settings.selected_prompt_text() is None
            } else {
                settings.post_process_prompts@[i].id@ == id@ ==> settings.selected_prompt_text()
                    == Some(settings.post_process_prompts@[i].prompt@)
            },
        },
{
    if let Some(id) = settings.post_process_selected_prompt_id {
        lemma_first_prompt(settings.post_process_prompts@, id@, i);
    }
}

/// Nothing streams to the Mistral service but its own model, and that only with
/// a key; and the platforms of Apple are the two kinds of macOS.
pub proof fn law_streaming_takes_model_and_key(settings: AppSettings, platform: Platform)
    ensures
        settings.selected_model@ != "mistral-voxtral-realtime"@ ==> !settings.streams_to_mistral(),
        settings.mistral_api_key@.len() == 0 ==> !settings.streams_to_mistral(),
        settings.selected_model@ == "mistral-voxtral-realtime"@ && settings.mistral_api_key@.len()
            > 0 ==> settings.streams_to_mistral(),
        platform.mac() <==> platform == Platform::MacIntel || platform == Platform::MacApple,
{
}

} // verus!
