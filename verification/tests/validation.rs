use goxkey::config::EngineConfig;
use goxkey::effects::Effect;
use goxkey::dispatch::Verdict;
use goxkey::engine::Engine;
use goxkey::hotkey::Hotkey;
use goxkey::keys::{EventTapType, PressedKey, KEY_ENTER};
use goxkey::modifiers::{KeyModifier, MODIFIER_SHIFT};
use goxkey::replay::TransformResult;

/// An engine whose typing buffer is "x" and whose displayed word is `shown`.
fn showing(shown: &str) -> Engine {
    let hotkey = Hotkey::new(KeyModifier::from_bits(MODIFIER_SHIFT), Some('x')).unwrap();
    let mut engine = Engine::new(EngineConfig::new(hotkey));
    let dispatch =
        engine.event_handler(EventTapType::KeyDown, Some(PressedKey::Char('x')), KeyModifier::new());
    assert_eq!(dispatch.verdict, Verdict::Transform);
    engine.transform_keys(
        true,
        Some(TransformResult {
            output: shown.to_string(),
            tone_mark_removed: false,
            letter_modification_removed: false,
        }),
    );
    engine
}

/// Whether enter has the displayed word restored to the typed "x".
fn restored_at_enter(shown: &str) -> bool {
    let mut engine = showing(shown);
    let dispatch = engine.event_handler(
        EventTapType::KeyDown,
        Some(PressedKey::Char(KEY_ENTER)),
        KeyModifier::new(),
    );
    assert_eq!(dispatch.verdict, Verdict::PassThrough);
    assert_eq!(engine.input().get_displaying_word(), "");
    match dispatch.effects.as_slice() {
        [] => {
            assert_eq!(engine.input().get_previous_word().map(|w| w.as_str()), Some(shown));
            false
        }
        [Effect::SendBackspace(count), Effect::SendString(text)] => {
            assert_eq!(*count, shown.chars().count());
            assert_eq!(text, "x");
            assert_eq!(engine.input().get_previous_word().map(|w| w.as_str()), Some("x"));
            true
        }
        other => panic!("unexpected effects for {:?}: {:?}", shown, other),
    }
}

#[test]
fn vietnamese_words_are_kept() {
    for word in ["việt", "nam", "nghiêng", "được", "gì", "quá", "a", "ơ", "Huế", "tuyết"] {
        assert!(!restored_at_enter(word), "{:?}", word);
    }
}

#[test]
fn words_that_are_not_vietnamese_are_restored() {
    for word in ["ák", "viêtk", "bcdư", "tẽxt", "ưindow", "đf", "aa1", "é é"] {
        assert!(restored_at_enter(word), "{:?}", word);
    }
}

#[test]
fn words_without_a_vowel_count_as_valid_if_their_consonant_is() {
    assert!(!restored_at_enter("ng"));
    assert!(!restored_at_enter("th"));
    assert!(!restored_at_enter("đ"));
    assert!(restored_at_enter("bt"));
    assert!(restored_at_enter("thr"));
}

#[test]
fn every_short_word_gets_the_answer_of_the_vi_crate() {
    let alphabet = [
        'g', 'i', 'q', 'u', 'a', 'o', 'e', 'n', 'h', 'k', 't', 'c', 'á', 'ư', 'ệ', 'đ', 'G', 'I',
        'Ơ', ' ', '1', '\u{212a}', '\u{130}', '\u{307}',
    ];
    let mut words = vec![String::new()];
    let mut last = vec![String::new()];
    for _ in 0..3 {
        let mut next = Vec::new();
        for word in &last {
            for c in alphabet {
                let mut longer = word.clone();
                longer.push(c);
                next.push(longer);
            }
        }
        words.extend(next.iter().cloned());
        last = next;
    }
    assert_eq!(words.len(), 1 + 24 + 24 * 24 + 24 * 24 * 24);
    let mut valid = 0;
    for word in &words {
        let expected = !vi::validation::is_valid_word(word);
        assert_eq!(restored_at_enter(word), expected, "{:?}", word);
        if !expected {
            valid += 1;
        }
    }
    assert!(valid > 100 && valid < words.len() - 100);
}
