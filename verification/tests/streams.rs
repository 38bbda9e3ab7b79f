use handy::managers::dual_stream::DualStreamCoordinator;
use handy::managers::incremental_transcription::{IncrementalTranscriptionSession, VadFrame};
use handy::managers::streaming_translator::{
    is_likely_english, translation_of_content, translation_of_response, translation_request,
    StreamingTranslator, TranslatorOutcome, TranslatorStep,
};

fn wanted(step: TranslatorStep) -> Option<String> {
    match step {
        TranslatorStep::Rest => None,
        TranslatorStep::Translate(request) => {
            assert_eq!(request.model, "ministral-14b-latest");
            Some(request.text)
        }
    }
}

fn segments(list: &[(&str, bool)]) -> Vec<(String, bool)> {
    list.iter().map(|(t, m)| (t.to_string(), *m)).collect()
}

#[test]
fn short_latin_text_counts_as_english() {
    assert!(is_likely_english(""));
    assert!(is_likely_english("Bonjour monde"));
    assert!(is_likely_english("  ... 123 --- "));
}

#[test]
fn the_order_of_words_does_not_matter() {
    for text in ["the chat noir dort", "dort  the\tnoir\n\nchat ", " noir dort chat the"] {
        assert!(!is_likely_english(text));
    }
    for text in ["the chat is noir", " noir\u{3000}is chat the\n", "is the\u{85}chat noir"] {
        assert!(is_likely_english(text));
    }
    assert!(!is_likely_english("été à toi the is it"));
    assert!(!is_likely_english("it toi is été the à"));
}

#[test]
fn a_stop_word_keeps_the_verdict() {
    let stop_words = [
        "the", "is", "are", "was", "were", "am", "be", "been", "being", "have", "has", "had", "do",
        "does", "did", "this", "that", "these", "those", "not", "but", "and", "or", "if", "so",
        "they", "them", "their", "he", "she", "it", "we", "you", "i", "would", "could", "should",
        "will", "shall", "may", "might", "can", "which", "what", "where", "when", "who", "how",
        "there", "here", "very", "just", "also", "some", "any", "my", "your", "his", "her", "its",
        "our", "a", "an", "of", "in", "to", "for", "on", "with", "at", "by", "from", "hello",
        "now", "about", "out", "up", "because", "going", "thing", "know", "want", "think",
        "getting", "actually", "really",
    ];
    for word in stop_words {
        for text in ["", "Bonjour monde", "the chat noir", "I'm getting out "] {
            assert!(is_likely_english(text));
            assert!(is_likely_english(&format!("{} {}", text, word)));
        }
    }
    // Another word may turn it.
    assert!(!is_likely_english("Bonjour monde chat"));
}

#[test]
fn stop_words_make_english() {
    assert!(is_likely_english("The quick brown fox is here"));
    assert!(is_likely_english("I'm getting out"));
    assert!(is_likely_english("SHE'S GONE HOME"));
    assert!(!is_likely_english("Guten Morgen zusammen heute"));
    // One stop word in four is a quarter, and no more.
    assert!(!is_likely_english("the chat noir dort"));
    assert!(is_likely_english("the chat noir"));
}

#[test]
fn foreign_characters_are_not_english() {
    assert!(!is_likely_english("यह क्या है"));
    assert!(!is_likely_english("你好"));
    // Three of twenty characters are 15 percent, and no more.
    assert!(is_likely_english(&format!("{}{}", "a".repeat(17), "é".repeat(3))));
    assert!(!is_likely_english(&format!("{}{}", "a".repeat(16), "é".repeat(3))));
}

#[test]
fn english_text_is_not_translated() {
    let mut t = StreamingTranslator::start();
    assert_eq!(wanted(t.observe("")), None);
    assert_eq!(wanted(t.observe("this is what we want")), None);
    assert_eq!(wanted(t.observe("this is what we want")), None);
    assert_eq!(t.get_translation(), "");
}

#[test]
fn a_foreign_letter_has_everything_translated() {
    let mut t = StreamingTranslator::start();
    assert_eq!(wanted(t.observe("this is what we want")), None);
    let grown = "this is what we want é";
    assert!(is_likely_english(grown));
    assert_eq!(wanted(t.observe(grown)), Some(grown.to_string()));
    let shown = t.translated(grown, Some("T".to_string()));
    assert!(matches!(shown, TranslatorOutcome::Show(s) if s == "T"));
    assert_eq!(wanted(t.observe(grown)), None);
    assert_eq!(t.get_translation(), "T");
    assert_eq!(wanted(t.observe("this is what we want é and more of it")), None);
}

#[test]
fn a_failed_text_is_wanted_again() {
    let mut t = StreamingTranslator::start();
    let text = "Guten Morgen zusammen heute";
    let mut rests = Vec::new();
    for _ in 0..8 {
        assert_eq!(wanted(t.observe(text)), Some(text.to_string()));
        match t.translated(text, None) {
            TranslatorOutcome::BackOff(ms) => rests.push(ms),
            TranslatorOutcome::Show(_) => panic!("there is nothing to show"),
        }
    }
    assert_eq!(rests, [100, 200, 400, 800, 1600, 3200, 5000, 5000]);
    t.translated(text, Some("Good".to_string()));
    assert!(matches!(t.translated("x", None), TranslatorOutcome::BackOff(100)));
    assert_eq!(t.get_translation(), "Good");
}

#[test]
fn the_request_asks_for_a_translation() {
    let r = translation_request("k", "m", "hallo");
    assert_eq!(r.url, "https://api.mistral.ai/v1/chat/completions");
    assert_eq!(r.authorization, "Bearer k");
    assert_eq!(r.model, "m");
    assert_eq!(
        r.content,
        "Translate the following text to English. Output ONLY the translation, nothing else:\n\nhallo"
    );
}

#[test]
fn the_first_choice_is_the_translation() {
    let body = r#"{"choices":[{"message":{"content":" Hello \n"}},{"message":{"content":"No"}}]}"#;
    assert_eq!(translation_of_response(true, body.as_bytes()), Some("Hello".to_string()));
    assert_eq!(translation_of_response(false, body.as_bytes()), None);
    for body in [
        "",
        "{",
        "[]",
        r#"{"choices":[]}"#,
        r#"{"choices":{"0":{"message":{"content":"x"}}}}"#,
        r#"{"choices":[{"message":{"content":7}}]}"#,
        r#"{"choices":[{"message":{"content":" 　"}}]}"#,
        r#"{"choices":[{"message":{}}]}"#,
        r#"{"choices":[{}]}"#,
    ] {
        assert_eq!(translation_of_response(true, body.as_bytes()), None);
    }
    assert_eq!(translation_of_content(Some("\u{a0}x y\t")), Some("x y".to_string()));
    assert_eq!(translation_of_content(Some(" ")), None);
    assert_eq!(translation_of_content(None), None);
}

#[test]
fn segments_interleave() {
    let text = DualStreamCoordinator::build_interleaved_text(&segments(&[
        (" Hi ", true),
        ("there", true),
        ("  ", false),
        ("again", true),
        ("Hey\n", false),
        ("you", true),
    ]));
    assert_eq!(text, "[🎤 Mic] Hi there again\n[🔊 System Audio] Hey\n[🎤 Mic] you");
    assert_eq!(DualStreamCoordinator::build_interleaved_text(&segments(&[(" \t", true)])), "");
    assert_eq!(DualStreamCoordinator::build_interleaved_text(&[]), "");
}

#[test]
fn the_final_text_falls_back_to_the_streams() {
    let build = DualStreamCoordinator::build_final_text;
    assert_eq!(build(&segments(&[("a", false)]), "m", "s"), "[🔊 System Audio] a");
    assert_eq!(build(&[], " m ", "s"), "[🎤 Mic] m\n[🔊 System Audio] s");
    assert_eq!(build(&segments(&[(" ", true)]), "", " s"), "[🔊 System Audio] s");
    assert_eq!(build(&[], "m", " "), "[🎤 Mic] m");
    assert_eq!(build(&[], "", ""), "");
}

#[test]
fn polls_take_in_what_is_new() {
    let mut c = DualStreamCoordinator::start();
    assert_eq!(c.poll("", ""), None);
    assert_eq!(c.poll("é", ""), Some("[🎤 Mic] é".to_string()));
    assert_eq!(c.poll("é", ""), None);
    assert_eq!(
        c.poll("é ça", "yes"),
        Some("[🎤 Mic] é ça\n[🔊 System Audio] yes".to_string())
    );
    // Blank growth shows the same text again, and leaves no segment.
    assert_eq!(
        c.poll("é ça  ", "yes"),
        Some("[🎤 Mic] é ça\n[🔊 System Audio] yes".to_string())
    );
    // A text that has become shorter adds nothing.
    assert_eq!(c.poll("", "yes"), None);
    assert_eq!(c.get_text_ref(), "[🎤 Mic] é ça\n[🔊 System Audio] yes");
    assert_eq!(c.stop(), segments(&[("é", true), (" ça", true), ("yes", false)]));
}

#[test]
fn noise_after_speech_ends_a_segment() {
    let mut s = IncrementalTranscriptionSession::<i16>::start();
    assert!(s.push_frame(VadFrame::Noise, 0).is_none());
    assert!(s.push_frame(VadFrame::Speech(vec![1, 2]), 0).is_none());
    assert!(s.push_frame(VadFrame::Failed, 0).is_none());
    assert!(s.push_frame(VadFrame::Speech(vec![3]), 0).is_none());
    let segment = s.push_frame(VadFrame::Noise, 0).unwrap();
    assert_eq!(segment.len(), 20000);
    assert_eq!(segment[..4], [1, 2, 3, 0]);
    assert!(s.push_frame(VadFrame::Noise, 0).is_none());
}

#[test]
fn speech_waits_for_the_segment_before() {
    let mut s = IncrementalTranscriptionSession::<i16>::start();
    s.push_frame(VadFrame::Speech(vec![1; 16000]), 0);
    assert_eq!(s.push_frame(VadFrame::Noise, 0), Some(vec![1; 16000]));
    s.push_frame(VadFrame::Speech(vec![2; 16000]), 0);
    assert!(s.push_frame(VadFrame::Noise, 0).is_none());
    s.push_frame(VadFrame::Speech(vec![3]), 0);
    assert_eq!(s.segment_transcribed(Some("one".to_string())), Some("one".to_string()));
    let mut both = vec![2; 16000];
    both.push(3);
    assert_eq!(s.push_frame(VadFrame::Noise, 0), Some(both));
    assert_eq!(s.segment_transcribed(None), None);
    assert_eq!(s.get_accumulated_text(), "one");
    assert_eq!(s.segment_transcribed(Some(String::new())), None);
    assert_eq!(s.segment_transcribed(Some("two".to_string())), Some("one two".to_string()));
    assert_eq!(s.get_accumulated_text(), "one two");
}
