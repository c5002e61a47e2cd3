use goxkey::config::{AppRule, EngineConfig, MacroEntry};
use goxkey::hotkey::Hotkey;
use goxkey::input::InputState;
use goxkey::modifiers::{KeyModifier, MODIFIER_CONTROL, MODIFIER_SHIFT};

fn config() -> EngineConfig {
    EngineConfig::new(Hotkey::new(KeyModifier::from_bits(MODIFIER_CONTROL), None).unwrap())
}

fn typed(keys: &str) -> InputState {
    let mut state = InputState::new(config());
    for c in keys.chars() {
        state.push(c);
    }
    state
}

#[test]
fn a_new_state_is_empty_enabled_and_tracking() {
    let state = InputState::new(config());
    assert_eq!(state.get_typing_buffer(), "");
    assert_eq!(state.get_displaying_word(), "");
    assert!(state.is_tracking());
    assert!(state.is_enabled());
    assert!(state.is_switched_on());
    assert!(!state.is_temporary_disabled());
    assert!(state.get_previous_word().is_none());
    assert!(state.get_active_app().is_none());
    assert!(state.get_previous_modifiers().is_empty());
    assert!(!state.is_auto_toggle_enabled());
    assert_eq!(state.get_hotkey().modifiers.bits, MODIFIER_CONTROL);
}

#[test]
fn a_new_state_takes_the_default_from_the_configuration() {
    let mut off = config();
    off.default_enabled = false;
    let state = InputState::new(off);
    assert!(!state.is_enabled());
    assert!(!state.is_switched_on());
    assert!(!state.config().default_enabled);
}

#[test]
fn push_appends_to_the_buffer_only() {
    let state = typed("vieetj");
    assert_eq!(state.get_typing_buffer(), "vieetj");
    assert_eq!(state.get_displaying_word(), "");
}

#[test]
fn push_is_ignored_while_not_tracking() {
    let mut state = typed("ab");
    state.stop_tracking();
    assert!(!state.is_tracking());
    state.push('c');
    assert_eq!(state.get_typing_buffer(), "ab");
}

#[test]
fn pop_removes_the_last_key() {
    let mut state = typed("việt");
    state.pop();
    assert_eq!(state.get_typing_buffer(), "việ");
    state.pop();
    state.pop();
    state.pop();
    assert_eq!(state.get_typing_buffer(), "");
    state.pop();
    assert_eq!(state.get_typing_buffer(), "");
}

#[test]
fn pop_leaves_the_displayed_word() {
    let mut state = typed("aa");
    state.replace("â".to_string());
    state.pop();
    assert_eq!(state.get_typing_buffer(), "a");
    assert_eq!(state.get_displaying_word(), "â");
}

#[test]
fn replace_sets_the_displayed_word() {
    let mut state = typed("aa");
    state.replace("â".to_string());
    assert_eq!(state.get_displaying_word(), "â");
    assert_eq!(state.get_typing_buffer(), "aa");
}

#[test]
fn new_word_clears_both_and_keeps_the_displayed_word_as_previous() {
    let mut state = typed("aa");
    state.replace("â".to_string());
    state.stop_tracking();
    state.new_word();
    assert_eq!(state.get_typing_buffer(), "");
    assert_eq!(state.get_displaying_word(), "");
    assert_eq!(state.get_previous_word().map(|w| w.as_str()), Some("â"));
    assert!(state.is_tracking());
}

#[test]
fn new_word_leaves_tracking_off_while_temporarily_disabled() {
    let mut state = typed("ab");
    state.stop_tracking();
    state.set_temporary_disabled();
    assert!(state.is_temporary_disabled());
    assert!(!state.is_enabled());
    assert!(state.is_switched_on());
    state.new_word();
    assert!(!state.is_tracking());
    assert!(!state.is_temporary_disabled());
    assert!(state.is_enabled());
    assert_eq!(state.get_typing_buffer(), "");
    // The temporary disabling is over: the next word is tracked again.
    state.new_word();
    assert!(state.is_tracking());
}

#[test]
fn new_word_keeps_tracking_on_while_temporarily_disabled() {
    let mut state = typed("ab");
    state.set_temporary_disabled();
    state.new_word();
    assert!(state.is_tracking());
}

#[test]
fn clear_previous_word_forgets_it() {
    let mut state = typed("a");
    state.replace("a".to_string());
    state.new_word();
    assert!(state.get_previous_word().is_some());
    state.clear_previous_word();
    assert!(state.get_previous_word().is_none());
}

#[test]
fn toggle_switches_and_begins_a_new_word() {
    let mut state = typed("ab");
    state.replace("ab".to_string());
    state.stop_tracking();
    state.set_temporary_disabled();
    state.toggle_vietnamese();
    assert!(!state.is_switched_on());
    assert!(!state.is_enabled());
    assert!(!state.is_temporary_disabled());
    assert!(state.is_tracking());
    assert_eq!(state.get_typing_buffer(), "");
    assert_eq!(state.get_displaying_word(), "");
    assert_eq!(state.get_previous_word().map(|w| w.as_str()), Some("ab"));
    state.toggle_vietnamese();
    assert!(state.is_enabled());
}

#[test]
fn no_resend_of_what_is_displayed() {
    let mut state = typed("aa");
    state.replace("â".to_string());
    assert!(!state.should_send_keyboard_event(&"â".to_string()));
    assert!(state.should_send_keyboard_event(&"a".to_string()));
    assert!(state.should_send_keyboard_event(&"ââ".to_string()));
    assert!(state.should_send_keyboard_event(&String::new()));
    let empty = InputState::new(config());
    assert!(!empty.should_send_keyboard_event(&String::new()));
}

#[test]
fn backspace_count_is_the_length_of_the_displayed_word_in_characters() {
    let mut state = typed("vieetj");
    state.replace("việt".to_string());
    assert_eq!(state.get_backspace_count(false), 4);
    assert_eq!(state.get_backspace_count(true), 3);
    state.replace("đ".to_string());
    assert_eq!(state.get_backspace_count(false), 1);
    assert_eq!(state.get_backspace_count(true), 0);
}

#[test]
fn backspace_count_of_an_empty_word_is_zero() {
    let state = InputState::new(config());
    assert_eq!(state.get_backspace_count(false), 0);
    assert_eq!(state.get_backspace_count(true), 0);
}

#[test]
fn backspace_count_does_not_follow_the_typing_buffer() {
    let state = typed("vieetj");
    assert_eq!(state.get_backspace_count(false), 0);
}

#[test]
fn allowed_words_are_looked_up_exactly() {
    let mut cfg = config();
    cfg.allowed_words = vec!["đc".to_string(), "ko".to_string()];
    let state = InputState::new(cfg);
    assert!(state.is_allowed_word(&"đc".to_string()));
    assert!(state.is_allowed_word(&"ko".to_string()));
    assert!(!state.is_allowed_word(&"k".to_string()));
    assert!(!state.is_allowed_word(&"dc".to_string()));
    assert!(!state.is_allowed_word(&String::new()));
}

#[test]
fn previous_word_is_checked_against_the_stop_tracking_words() {
    let mut cfg = config();
    cfg.stop_tracking_words = vec![";".to_string(), "?".to_string()];
    let mut state = InputState::new(cfg);
    assert!(!state.previous_word_is_stop_tracking_words());
    state.replace("?".to_string());
    state.new_word();
    assert!(state.previous_word_is_stop_tracking_words());
    state.replace("a?".to_string());
    state.new_word();
    assert!(!state.previous_word_is_stop_tracking_words());
}

#[test]
fn macro_target_is_that_of_the_displayed_word() {
    let mut cfg = config();
    cfg.macro_table = vec![
        MacroEntry { trigger: "btw".to_string(), target: "by the way".to_string() },
        MacroEntry { trigger: "ko".to_string(), target: "không".to_string() },
        MacroEntry { trigger: "btw".to_string(), target: "second".to_string() },
    ];
    let mut state = InputState::new(cfg);
    assert!(state.get_macro_target().is_none());
    state.replace("btw".to_string());
    assert_eq!(state.get_macro_target().map(|t| t.as_str()), Some("by the way"));
    state.replace("ko".to_string());
    assert_eq!(state.get_macro_target().map(|t| t.as_str()), Some("không"));
    state.replace("bt".to_string());
    assert!(state.get_macro_target().is_none());
}

#[test]
fn macro_target_does_not_follow_the_typing_buffer() {
    let mut cfg = config();
    cfg.macro_table =
        vec![MacroEntry { trigger: "btw".to_string(), target: "by the way".to_string() }];
    let mut state = InputState::new(cfg);
    for c in "btw".chars() {
        state.push(c);
    }
    assert!(state.get_macro_target().is_none());
}

#[test]
fn transformed_means_displayed_differs_from_typed() {
    let mut state = typed("aa");
    assert!(state.is_transformed_word());
    state.replace("aa".to_string());
    assert!(!state.is_transformed_word());
    state.replace("â".to_string());
    assert!(state.is_transformed_word());
}

#[test]
fn restore_is_for_transformed_invalid_words_that_are_not_allowed() {
    let mut cfg = config();
    cfg.allowed_words = vec!["ák".to_string()];
    let mut state = InputState::new(cfg);
    for c in "ask".chars() {
        state.push(c);
    }
    state.replace("ấk".to_string());
    assert!(state.should_restore_word(false));
    assert!(!state.should_restore_word(true));
    state.replace("ák".to_string());
    assert!(!state.should_restore_word(false));
    state.replace("ask".to_string());
    assert!(!state.should_restore_word(false));
}

#[test]
fn selection_is_dismissed_in_the_listed_applications_only() {
    let mut cfg = config();
    cfg.auto_toggle_enabled = true;
    cfg.dismiss_selection_apps = vec!["org.mozilla.firefox".to_string()];
    let mut state = InputState::new(cfg);
    assert!(!state.should_dismiss_selection_if_needed());
    state.update_active_app("org.mozilla.firefox");
    assert!(state.should_dismiss_selection_if_needed());
    state.update_active_app("com.apple.Terminal");
    assert!(!state.should_dismiss_selection_if_needed());
}

#[test]
fn update_active_app_applies_the_first_rule_or_the_default() {
    let mut cfg = config();
    cfg.app_rules = vec![
        AppRule { app_id: "terminal".to_string(), enabled: false },
        AppRule { app_id: "notes".to_string(), enabled: true },
        AppRule { app_id: "terminal".to_string(), enabled: true },
    ];
    let mut state = InputState::new(cfg);
    assert!(state.is_switched_on());
    assert!(state.update_active_app("terminal"));
    assert!(!state.is_switched_on());
    assert_eq!(state.get_active_app().map(|a| a.as_str()), Some("terminal"));
    assert!(!state.update_active_app("terminal"));
    assert!(state.update_active_app("notes"));
    assert!(state.is_switched_on());
    assert!(!state.update_active_app("unknown"));
    assert!(state.is_switched_on());
    assert_eq!(state.get_active_app().map(|a| a.as_str()), Some("unknown"));
}

#[test]
fn previous_modifiers_are_what_was_recorded() {
    let mut state = InputState::new(config());
    state.set_previous_modifiers(KeyModifier::from_bits(MODIFIER_SHIFT));
    assert_eq!(state.get_previous_modifiers().bits, MODIFIER_SHIFT);
}

#[test]
fn configuration_lookups() {
    let mut cfg = config();
    cfg.default_enabled = false;
    cfg.app_rules = vec![AppRule { app_id: "notes".to_string(), enabled: true }];
    cfg.macro_table = vec![MacroEntry { trigger: "vn".to_string(), target: "Việt Nam".to_string() }];
    cfg.stop_tracking_words = vec![";".to_string()];
    cfg.dismiss_selection_apps = vec!["browser".to_string()];
    assert!(cfg.desired_enabled(&"notes".to_string()));
    assert!(!cfg.desired_enabled(&"other".to_string()));
    assert_eq!(cfg.get_macro_target(&"vn".to_string()).map(|t| t.as_str()), Some("Việt Nam"));
    assert!(cfg.get_macro_target(&"v".to_string()).is_none());
    assert!(cfg.is_stop_tracking_word(&";".to_string()));
    assert!(!cfg.is_stop_tracking_word(&":".to_string()));
    assert!(cfg.dismisses_selection_in(&"browser".to_string()));
    assert!(!cfg.dismisses_selection_in(&"notes".to_string()));
    assert!(!cfg.is_allowed_word(&"vn".to_string()));
}
