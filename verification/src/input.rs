//! The word composition state: the word being typed as raw keystrokes, the
//! text that stands for it on screen, and the switches that decide whether
//! keys are transformed at all.

use vstd::prelude::*;
use crate::config::{ConfigModel, EngineConfig};
use crate::hotkey::Hotkey;
use crate::modifiers::KeyModifier;

verus! {

/// The state of the engine between two events, but for the hotkey matcher.
pub struct InputState {
    config: EngineConfig,
    typing_buffer: String,
    displaying_word: String,
    tracking: bool,
    previous_word: Option<String>,
    temporary_disabled: bool,
    enabled: bool,
    active_app: Option<String>,
    previous_modifiers: KeyModifier,
}

/// What an [`InputState`] holds.
pub struct InputModel {
    pub config: ConfigModel,
    /// The keys of the word being typed, as they were typed.
    pub typing_buffer: Seq<char>,
    /// The text that the engine has put on screen for this word.
    pub displaying_word: Seq<char>,
    /// Whether the keys of this word are still being transformed.
    pub tracking: bool,
    /// What stood on screen for the word before this one.
    pub previous_word: Option<Seq<char>>,
    /// Whether the engine is off until the next word begins.
    pub temporary_disabled: bool,
    /// Whether the user has the engine switched on.
    pub enabled: bool,
    /// The application in the foreground, once one was reported.
    pub active_app: Option<Seq<char>>,
    /// The modifiers that the caller recorded with `set_previous_modifiers`.
    pub previous_modifiers: KeyModifier,
}

/// The characters of an optional word.
pub open spec fn opt_chars(word: Option<String>) -> Option<Seq<char>> {
    match word {
        Some(w) => Some(w@),
        None => None,
    }
}

impl InputModel {
    /// The state in which the engine starts.
    pub open spec fn initial(config: ConfigModel) -> InputModel {
        InputModel {
            config,
            typing_buffer: Seq::empty(),
            displaying_word: Seq::empty(),
            tracking: true,
            previous_word: None,
            temporary_disabled: false,
            enabled: config.default_enabled,
            active_app: None,
            previous_modifiers: KeyModifier { bits: 0 },
        }
    }

    /// Whether keys are transformed: the engine is switched on and not
    /// temporarily disabled.
    pub open spec fn is_enabled(self) -> bool {
        self.enabled && !self.temporary_disabled
    }

    /// Appends a key to the typing buffer, if the word is being tracked.
    pub open spec fn push(self, c: char) -> InputModel {
        if self.tracking {
            InputModel { typing_buffer: self.typing_buffer.push(c), ..self }
        } else {
            self
        }
    }

    /// Removes the last key from the typing buffer, if there is one.
    pub open spec fn pop(self) -> InputModel {
        if self.typing_buffer.len() > 0 {
            InputModel { typing_buffer: self.typing_buffer.drop_last(), ..self }
        } else {
            self
        }
    }

    /// Begins a new word: what is on screen becomes the previous word, the
    /// typing buffer and the displayed word are emptied together, tracking is
    /// switched on again unless the engine is temporarily disabled, and the
    /// temporary disabling ends.
    pub open spec fn new_word(self) -> InputModel {
        InputModel {
            typing_buffer: Seq::empty(),
            displaying_word: Seq::empty(),
            tracking: self.tracking || !self.temporary_disabled,
            previous_word: Some(self.displaying_word),
            temporary_disabled: false,
            ..self
        }
    }

    /// Records `text` as what is on screen for this word.
    pub open spec fn replace(self, text: Seq<char>) -> InputModel {
        InputModel { displaying_word: text, ..self }
    }

    /// Lets the remaining keys of this word pass untouched.
    pub open spec fn stop_tracking(self) -> InputModel {
        InputModel { tracking: false, ..self }
    }

    /// Switches the engine off until the next word begins.
    pub open spec fn set_temporary_disabled(self) -> InputModel {
        InputModel { temporary_disabled: true, ..self }
    }

    /// Forgets the previous word.
    pub open spec fn clear_previous_word(self) -> InputModel {
        InputModel { previous_word: None, ..self }
    }

    /// Records the modifiers that count as held before the next event.
    pub open spec fn set_previous_modifiers(self, modifiers: KeyModifier) -> InputModel {
        InputModel { previous_modifiers: modifiers, ..self }
    }

    /// Switches the engine on if it was off and off if it was on, ends a
    /// temporary disabling, and begins a new word.
    pub open spec fn toggle_vietnamese(self) -> InputModel {
        InputModel { enabled: !self.enabled, temporary_disabled: false, ..self }.new_word()
    }

    /// Whether `output` differs from what is on screen, so that sending it
    /// changes something.
    pub open spec fn should_send_keyboard_event(self, output: Seq<char>) -> bool {
        output != self.displaying_word
    }

    /// The number of characters to erase before the word is sent again: the
    /// length of the displayed word, less one if the user's own delete key
    /// has already erased a character.
    pub open spec fn backspace_count(self, is_delete: bool) -> nat {
        if is_delete && self.displaying_word.len() > 0 {
            (self.displaying_word.len() - 1) as nat
        } else {
            self.displaying_word.len()
        }
    }

    /// Whether `word` is on the list of words that are never restored.
    pub open spec fn is_allowed_word(self, word: Seq<char>) -> bool {
        self.config.allowed_words.contains(word)
    }

    /// Whether there is a previous word and it is on the list of words not
    /// worth remembering.
    pub open spec fn previous_word_is_stop_tracking_words(self) -> bool {
        match self.previous_word {
            Some(w) => self.config.stop_tracking_words.contains(w),
            None => false,
        }
    }

    /// What the macro table puts in the place of the displayed word.
    pub open spec fn macro_target(self) -> Option<Seq<char>> {
        self.config.macro_target(self.displaying_word)
    }

    /// Whether the foreground application is one in which a hidden selection
    /// has to be dismissed before each replay.
    pub open spec fn should_dismiss_selection(self) -> bool {
        match self.active_app {
            Some(app) => self.config.dismiss_selection_apps.contains(app),
            None => false,
        }
    }

    /// Whether the displayed word differs from the keys that were typed.
    pub open spec fn is_transformed_word(self) -> bool {
        self.typing_buffer != self.displaying_word
    }

    /// Whether a finalized word is put back as it was typed: it was
    /// transformed, and what came of it is neither valid Vietnamese nor on
    /// the list of allowed words.
    pub open spec fn should_restore_word(self, word_is_valid: bool) -> bool {
        self.is_transformed_word() && !word_is_valid && !self.is_allowed_word(
            self.displaying_word,
        )
    }

    /// Whether a move of `app_id` to the foreground switches the engine on or
    /// off.
    pub open spec fn app_switches_engine(self, app_id: Seq<char>) -> bool {
        self.config.desired_enabled(app_id) != self.enabled
    }

    /// The state after `app_id` has come to the foreground.
    pub open spec fn update_active_app(self, app_id: Seq<char>) -> InputModel {
        InputModel {
            active_app: Some(app_id),
            enabled: self.config.desired_enabled(app_id),
            ..self
        }
    }

    /// The state after a change of the foreground application: nothing
    /// changes unless the configuration lets such a change switch the engine.
    pub open spec fn foreground_app_changed(self, app_id: Seq<char>) -> InputModel {
        if self.config.auto_toggle_enabled {
            self.update_active_app(app_id)
        } else {
            self
        }
    }

    /// Whether a change of the foreground application has the user interface
    /// refreshed: it does only where it switches the engine on or off.
    pub open spec fn app_change_refreshes(self, app_id: Seq<char>) -> bool {
        self.config.auto_toggle_enabled && self.app_switches_engine(app_id)
    }
}

impl View for InputState {
    type V = InputModel;

    closed spec fn view(&self) -> InputModel {
        InputModel {
            config: self.config@,
            typing_buffer: self.typing_buffer@,
            displaying_word: self.displaying_word@,
            tracking: self.tracking,
            previous_word: opt_chars(self.previous_word),
            temporary_disabled: self.temporary_disabled,
            enabled: self.enabled,
            active_app: opt_chars(self.active_app),
            previous_modifiers: self.previous_modifiers,
        }
    }
}

impl InputState {
    /// The state in which the engine starts.
    pub fn new(config: EngineConfig) -> (r: InputState)
        ensures
            r@ == InputModel::initial(config@),
    {
        let enabled = config.default_enabled;
        InputState {
            config,
            typing_buffer: String::new(),
            displaying_word: String::new(),
            tracking: true,
            previous_word: None,
            temporary_disabled: false,
            enabled,
            active_app: None,
            previous_modifiers: KeyModifier::new(),
        }
    }

    /// The configuration.
    pub fn config(&self) -> (r: &EngineConfig)
        ensures
            r@ == self@.config,
    {
        &self.config
    }

    /// The chord that toggles the engine.
    pub fn get_hotkey(&self) -> (r: Hotkey)
        ensures
            r == self@.config.hotkey,
    {
        self.config.hotkey
    }

    /// The keys of the word being typed, as they were typed.
    pub fn get_typing_buffer(&self) -> (r: &str)
        ensures
            r@ == self@.typing_buffer,
    {
        self.typing_buffer.as_str()
    }

    /// The text that the engine has put on screen for this word.
    pub fn get_displaying_word(&self) -> (r: &str)
        ensures
            r@ == self@.displaying_word,
    {
        self.displaying_word.as_str()
    }

    /// What stood on screen for the word before this one.
    pub fn get_previous_word(&self) -> (r: Option<&String>)
        ensures
            r.is_some() == self@.previous_word.is_some(),
            r matches Some(w) ==> self@.previous_word == Some(w@),
    {
        self.previous_word.as_ref()
    }

    /// The application in the foreground, once one was recorded.
    pub fn get_active_app(&self) -> (r: Option<&String>)
        ensures
            r.is_some() == self@.active_app.is_some(),
            r matches Some(w) ==> self@.active_app == Some(w@),
    {
        self.active_app.as_ref()
    }

    /// The modifiers that were recorded with `set_previous_modifiers`.
    pub fn get_previous_modifiers(&self) -> (r: KeyModifier)
        ensures
            r == self@.previous_modifiers,
    {
        self.previous_modifiers
    }

    /// Whether the keys of this word are still being transformed.
    pub fn is_tracking(&self) -> (r: bool)
        ensures
            r == self@.tracking,
    {
        self.tracking
    }

    /// Whether the engine is off until the next word begins.
    pub fn is_temporary_disabled(&self) -> (r: bool)
        ensures
            r == self@.temporary_disabled,
    {
        self.temporary_disabled
    }

    /// Whether the user has the engine switched on, temporary disabling
    /// aside.
    pub fn is_switched_on(&self) -> (r: bool)
        ensures
            r == self@.enabled,
    {
        self.enabled
    }

    /// Whether keys are transformed: the engine is switched on and not
    /// temporarily disabled.
    pub fn is_enabled(&self) -> (r: bool)
        ensures
            r == self@.is_enabled(),
    {
        self.enabled && !self.temporary_disabled
    }

    /// Whether a change of the foreground application switches the engine.
    pub fn is_auto_toggle_enabled(&self) -> (r: bool)
        ensures
            r == self@.config.auto_toggle_enabled,
    {
        self.config.auto_toggle_enabled
    }

    /// Appends a key to the typing buffer, if the word is being tracked.
    pub fn push(&mut self, c: char)
        ensures
            final(self)@ == old(self)@.push(c),
    {
        if self.tracking {
            self.typing_buffer.push(c);
        }
    }

    /// Removes the last key from the typing buffer, if there is one.
    pub fn pop(&mut self)
        ensures
            final(self)@ == old(self)@.pop(),
    {
        let _ = self.typing_buffer.pop();
    }

    /// Begins a new word.
    pub fn new_word(&mut self)
        ensures
            final(self)@ == old(self)@.new_word(),
    {
        let mut finished = String::new();
        core::mem::swap(&mut finished, &mut self.displaying_word);
        self.previous_word = Some(finished);
        self.typing_buffer = String::new();
        if !self.temporary_disabled {
            self.tracking = true;
        }
        self.temporary_disabled = false;
    }

    /// Records `text` as what is on screen for this word.
    pub fn replace(&mut self, text: String)
        ensures
            final(self)@ == old(self)@.replace(text@),
    {
        self.displaying_word = text;
    }

    /// Lets the remaining keys of this word pass untouched.
    pub fn stop_tracking(&mut self)
        ensures
            final(self)@ == old(self)@.stop_tracking(),
    {
        self.tracking = false;
    }

    /// Switches the engine off until the next word begins.
    pub fn set_temporary_disabled(&mut self)
        ensures
            final(self)@ == old(self)@.set_temporary_disabled(),
    {
        self.temporary_disabled = true;
    }

    /// Forgets the previous word.
    pub fn clear_previous_word(&mut self)
        ensures
            final(self)@ == old(self)@.clear_previous_word(),
    {
        self.previous_word = None;
    }

    /// Records the modifiers that count as held before the next event.
    pub fn set_previous_modifiers(&mut self, modifiers: KeyModifier)
        ensures
            final(self)@ == old(self)@.set_previous_modifiers(modifiers),
    {
        self.previous_modifiers = modifiers;
    }

    /// Switches the engine on if it was off and off if it was on, ends a
    /// temporary disabling, and begins a new word.
    pub fn toggle_vietnamese(&mut self)
        ensures
            final(self)@ == old(self)@.toggle_vietnamese(),
    {
        self.enabled = !self.enabled;
        self.temporary_disabled = false;
        self.new_word();
    }

    /// Whether `output` differs from what is on screen.
    pub fn should_send_keyboard_event(&self, output: &String) -> (r: bool)
        ensures
            r == self@.should_send_keyboard_event(output@),
            output@ == self@.displaying_word ==> !r,
    {
        !(*output == self.displaying_word)
    }

    /// The number of characters to erase before the word is sent again.
    pub fn get_backspace_count(&self, is_delete: bool) -> (r: usize)
        ensures
            r == self@.backspace_count(is_delete),
            !is_delete ==> r == self@.displaying_word.len(),
            is_delete && self@.displaying_word.len() > 0 ==> r == self@.displaying_word.len() - 1,
    {
        let shown = self.displaying_word.as_str().unicode_len();
        if is_delete && shown > 0 {
            shown - 1
        } else {
            shown
        }
    }

    /// Whether a hidden selection has to be dismissed before a replay.
    pub fn should_dismiss_selection_if_needed(&self) -> (r: bool)
        ensures
            r == self@.should_dismiss_selection(),
    {
        match &self.active_app {
            Some(app) => self.config.dismisses_selection_in(app),
            None => false,
        }
    }

    /// Whether `word` is on the list of words that are never restored.
    pub fn is_allowed_word(&self, word: &String) -> (r: bool)
        ensures
            r == self@.is_allowed_word(word@),
    {
        self.config.is_allowed_word(word)
    }

    /// Whether there is a previous word and it is not worth remembering.
    pub fn previous_word_is_stop_tracking_words(&self) -> (r: bool)
        ensures
            r == self@.previous_word_is_stop_tracking_words(),
    {
        match &self.previous_word {
            Some(w) => self.config.is_stop_tracking_word(w),
            None => false,
        }
    }

    /// What the macro table puts in the place of the displayed word.
    pub fn get_macro_target(&self) -> (r: Option<&String>)
        ensures
            r.is_some() == self@.macro_target().is_some(),
            r matches Some(t) ==> self@.macro_target() == Some(t@),
    {
        self.config.get_macro_target(&self.displaying_word)
    }

    /// Whether the displayed word differs from the keys that were typed.
    pub fn is_transformed_word(&self) -> (r: bool)
        ensures
            r == self@.is_transformed_word(),
    {
        !(self.typing_buffer == self.displaying_word)
    }

    /// Whether a word finalized now is put back as it was typed.
    pub fn should_restore_word(&self, word_is_valid: bool) -> (r: bool)
        ensures
            r == self@.should_restore_word(word_is_valid),
    {
        self.is_transformed_word() && !word_is_valid && !self.config.is_allowed_word(
            &self.displaying_word,
        )
    }

    /// Takes note that `app_id` has come to the foreground and switches the
    /// engine as the configuration wants it there. Returns whether that
    /// switched the engine on or off.
    pub fn update_active_app(&mut self, app_id: &str) -> (changed: bool)
        ensures
            final(self)@ == old(self)@.update_active_app(app_id@),
            changed == old(self)@.app_switches_engine(app_id@),
    {
        let app = app_id.to_owned();
        let desired = self.config.desired_enabled(&app);
        let changed = desired != self.enabled;
        self.active_app = Some(app);
        self.enabled = desired;
        changed
    }
}

} // verus!
