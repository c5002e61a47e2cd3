//! What a key does to the word composition state.
//!
//! A key either goes on to the focused application, is kept from it, or is
//! added to the typing buffer, in which case the transformation of the buffer
//! decides. A boundary key finalizes the word: the word is restored to the
//! keys that were typed if the transformation made nothing valid of them, a
//! macro is expanded, and a new word begins.

use vstd::prelude::*;
use crate::effects::{effects_model, emit, emit_all, no_effects, Effect, EffectModel};
use crate::input::{InputModel, InputState};
use crate::keys::{
    ascii_upper, boundary_key, classify, is_boundary_key, is_word_breaking_mark,
    to_ascii_uppercase, CharClass, EventTapType, KeyFacts, PressedKey, KEY_DELETE,
    RAW_ARROW_DOWN, RAW_ARROW_LEFT, RAW_ARROW_RIGHT, RAW_ARROW_UP, RAW_KEY_GLOBE,
};
use crate::modifiers::{
    KeyModifier, MODIFIER_ALT, MODIFIER_CAPSLOCK, MODIFIER_CONTROL, MODIFIER_SHIFT,
    MODIFIER_SUPER,
};
use crate::replay::{do_macro_replace, do_restore_word};

verus! {

/// What becomes of the key of an event.
#[derive(Clone, Copy, Debug, PartialEq, Eq, Structural)]
pub enum Verdict {
    /// The key goes on to the focused application.
    PassThrough,
    /// The key is kept from the focused application.
    Consumed,
    /// The key was added to the typing buffer: the caller transforms the
    /// buffer, and the replay of the outcome decides whether the key is
    /// kept.
    Transform,
}

/// What the handling of one event asks of the caller.
#[derive(Clone, Debug)]
pub struct Dispatch {
    pub verdict: Verdict,
    /// What the caller has to perform, before any transformation.
    pub effects: Vec<Effect>,
}

/// What a [`Dispatch`] holds.
pub struct DispatchModel {
    pub verdict: Verdict,
    pub effects: Seq<EffectModel>,
}

impl View for Dispatch {
    type V = DispatchModel;

    open spec fn view(&self) -> DispatchModel {
        DispatchModel { verdict: self.verdict, effects: effects_model(self.effects@) }
    }
}

/// The state after a key, and what the key asks of the caller.
pub struct KeyOutcome {
    pub state: InputModel,
    pub verdict: Verdict,
    pub effects: Seq<EffectModel>,
}

/// The outcome of a key that goes on to the application and sends nothing.
pub open spec fn pass(state: InputModel) -> KeyOutcome {
    KeyOutcome { state, verdict: Verdict::PassThrough, effects: Seq::empty() }
}

/// Whether the raw code is that of an arrow key.
pub open spec fn is_arrow_key(code: u16) -> bool {
    code == RAW_ARROW_UP || code == RAW_ARROW_DOWN || code == RAW_ARROW_LEFT || code
        == RAW_ARROW_RIGHT
}

/// The character that a key adds to the word: in upper case if shift is held
/// or caps lock is on.
pub open spec fn typed_char(c: char, modifiers: KeyModifier) -> char {
    if modifiers.has(MODIFIER_SHIFT) || modifiers.has(MODIFIER_CAPSLOCK) {
        ascii_upper(c)
    } else {
        c
    }
}

/// Whether a key ends the word without finalizing it: a punctuation mark, or
/// a number typed with shift.
pub open spec fn dismisses_word(c: char, modifiers: KeyModifier, is_numeric: bool) -> bool {
    is_word_breaking_mark(c) || (is_numeric && modifiers.has(MODIFIER_SHIFT))
}

impl InputModel {
    /// Whether the key has the displayed word reviewed: a boundary key,
    /// while the engine is enabled.
    pub open spec fn reviews_word(self, key: Option<PressedKey>) -> bool {
        match key {
            Some(PressedKey::Char(c)) => self.is_enabled() && is_boundary_key(c),
            _ => false,
        }
    }

    /// A key without a character: the globe key toggles the engine and is
    /// consumed, an arrow key begins a new word.
    pub open spec fn on_raw_key(self, code: u16) -> KeyOutcome {
        if code == RAW_KEY_GLOBE {
            KeyOutcome {
                state: self.toggle_vietnamese(),
                verdict: Verdict::Consumed,
                effects: seq![EffectModel::UpdateUi],
            }
        } else if is_arrow_key(code) {
            pass(self.new_word())
        } else {
            pass(self)
        }
    }

    /// A boundary key while the engine is enabled. In this order: the word
    /// is restored to the keys that were typed if `should_restore_word`
    /// says so; a previous word not worth remembering is forgotten; the
    /// target of a macro whose trigger is the displayed word is put in its
    /// place; and a new word begins.
    pub open spec fn on_boundary_key(self, word_is_valid: bool) -> KeyOutcome {
        let restores = self.should_restore_word(word_is_valid);
        let restored = if restores {
            self.after_restore()
        } else {
            self
        };
        let reviewed = if restored.previous_word_is_stop_tracking_words() {
            restored.clear_previous_word()
        } else {
            restored
        };
        let target = reviewed.macro_target();
        KeyOutcome {
            state: match target {
                Some(t) => reviewed.replace(t).new_word(),
                None => reviewed.new_word(),
            },
            verdict: Verdict::PassThrough,
            effects: (if restores {
                self.restore_effects()
            } else {
                Seq::empty()
            }) + (match target {
                Some(t) => reviewed.macro_effects(t),
                None => Seq::empty(),
            }),
        }
    }

    /// A character key while the engine is enabled.
    pub open spec fn on_char_enabled(
        self,
        c: char,
        modifiers: KeyModifier,
        facts: KeyFacts,
    ) -> KeyOutcome {
        if is_boundary_key(c) {
            self.on_boundary_key(facts.word_is_valid)
        } else if c == KEY_DELETE {
            if !modifiers.none_held() && !modifiers.has(MODIFIER_SHIFT) {
                pass(self.new_word())
            } else {
                pass(self.pop())
            }
        } else if dismisses_word(c, modifiers, facts.key_is_numeric) {
            if facts.key_is_numeric {
                pass(self.push(c).new_word())
            } else {
                pass(self.new_word())
            }
        } else if modifiers.has(MODIFIER_SUPER) || modifiers.has(MODIFIER_ALT) {
            pass(self.new_word())
        } else if self.tracking {
            KeyOutcome {
                state: self.push(typed_char(c, modifiers)),
                verdict: Verdict::Transform,
                effects: Seq::empty(),
            }
        } else {
            pass(self)
        }
    }

    /// A character key while the engine is not enabled: a boundary key, and
    /// any key with a modifier, begins a new word.
    pub open spec fn on_char_disabled(self, c: char, modifiers: KeyModifier) -> KeyOutcome {
        if is_boundary_key(c) || !modifiers.none_held() {
            pass(self.new_word())
        } else {
            pass(self)
        }
    }

    /// An event without a key, which matters only if no modifiers were
    /// recorded as held before it. Control restores the word to the keys
    /// that were typed, if there are any, and disables the engine
    /// temporarily; the command key, and an event that is neither a key nor
    /// a change of modifiers, begins a new word.
    pub open spec fn on_no_key(self, kind: EventTapType, modifiers: KeyModifier) -> KeyOutcome {
        if !self.previous_modifiers.none_held() {
            pass(self)
        } else {
            let control = modifiers.has(MODIFIER_CONTROL);
            let restores = control && self.typing_buffer.len() > 0;
            let restored = if restores {
                self.after_restore()
            } else {
                self
            };
            let disabled = if control {
                restored.set_temporary_disabled()
            } else {
                restored
            };
            KeyOutcome {
                state: if modifiers.has(MODIFIER_SUPER) || kind == EventTapType::Other {
                    disabled.new_word()
                } else {
                    disabled
                },
                verdict: Verdict::PassThrough,
                effects: if restores {
                    self.restore_effects()
                } else {
                    Seq::empty()
                },
            }
        }
    }

    /// The handling of the key of an event, given what was found out about
    /// it.
    pub open spec fn on_key(
        self,
        kind: EventTapType,
        key: Option<PressedKey>,
        modifiers: KeyModifier,
        facts: KeyFacts,
    ) -> KeyOutcome {
        match key {
            Some(PressedKey::Raw(code)) => self.on_raw_key(code),
            Some(PressedKey::Char(c)) => if self.is_enabled() {
                self.on_char_enabled(c, modifiers, facts)
            } else {
                self.on_char_disabled(c, modifiers)
            },
            None => self.on_no_key(kind, modifiers),
        }
    }
}

/// A dispatch that lets the key pass.
fn pass_through(effects: Vec<Effect>) -> (d: Dispatch)
    ensures
        d.verdict == Verdict::PassThrough,
        d.effects == effects,
{
    Dispatch { verdict: Verdict::PassThrough, effects }
}

fn arrow_key(code: u16) -> (r: bool)
    ensures
        r == is_arrow_key(code),
{
    code == RAW_ARROW_UP || code == RAW_ARROW_DOWN || code == RAW_ARROW_LEFT || code
        == RAW_ARROW_RIGHT
}

fn on_raw_key(state: &mut InputState, code: u16) -> (d: Dispatch)
    ensures
        final(state)@ == old(state)@.on_raw_key(code).state,
        d@.verdict == old(state)@.on_raw_key(code).verdict,
        d@.effects == old(state)@.on_raw_key(code).effects,
{
    let mut effects = no_effects();
    if code == RAW_KEY_GLOBE {
        state.toggle_vietnamese();
        emit(&mut effects, Effect::UpdateUi);
        return Dispatch { verdict: Verdict::Consumed, effects };
    }
    if arrow_key(code) {
        state.new_word();
    }
    pass_through(effects)
}

fn on_boundary_key(state: &mut InputState, word_is_valid: bool) -> (d: Dispatch)
    ensures
        final(state)@ == old(state)@.on_boundary_key(word_is_valid).state,
        d@.verdict == old(state)@.on_boundary_key(word_is_valid).verdict,
        d@.effects == old(state)@.on_boundary_key(word_is_valid).effects,
{
    let mut effects = no_effects();
    if state.should_restore_word(word_is_valid) {
        let restore = do_restore_word(state);
        emit_all(&mut effects, restore);
    }
    if state.previous_word_is_stop_tracking_words() {
        state.clear_previous_word();
    }
    let macro_target = match state.get_macro_target() {
        Some(target) => Some(target.clone()),
        None => None,
    };
    if let Some(target) = macro_target {
        let replace = do_macro_replace(state, &target);
        emit_all(&mut effects, replace);
    }
    state.new_word();
    pass_through(effects)
}

fn on_char_enabled(
    state: &mut InputState,
    c: char,
    modifiers: KeyModifier,
    facts: KeyFacts,
) -> (d: Dispatch)
    ensures
        final(state)@ == old(state)@.on_char_enabled(c, modifiers, facts).state,
        d@.verdict == old(state)@.on_char_enabled(c, modifiers, facts).verdict,
        d@.effects == old(state)@.on_char_enabled(c, modifiers, facts).effects,
{
    if boundary_key(c) {
        return on_boundary_key(state, facts.word_is_valid);
    }
    if c == KEY_DELETE {
        if !modifiers.is_empty() && !modifiers.is_shift() {
            state.new_word();
        } else {
            state.pop();
        }
        return pass_through(no_effects());
    }
    if classify(c) == CharClass::Punctuation || (facts.key_is_numeric && modifiers.is_shift()) {
        if facts.key_is_numeric {
            state.push(c);
        }
        state.new_word();
        return pass_through(no_effects());
    }
    if modifiers.is_super() || modifiers.is_alt() {
        state.new_word();
        return pass_through(no_effects());
    }
    if state.is_tracking() {
        let typed = if modifiers.is_shift() || modifiers.is_capslock() {
            to_ascii_uppercase(c)
        } else {
            c
        };
        state.push(typed);
        return Dispatch { verdict: Verdict::Transform, effects: no_effects() };
    }
    pass_through(no_effects())
}

fn on_char_disabled(state: &mut InputState, c: char, modifiers: KeyModifier) -> (d: Dispatch)
    ensures
        final(state)@ == old(state)@.on_char_disabled(c, modifiers).state,
        d@.verdict == old(state)@.on_char_disabled(c, modifiers).verdict,
        d@.effects == old(state)@.on_char_disabled(c, modifiers).effects,
{
    if boundary_key(c) || !modifiers.is_empty() {
        state.new_word();
    }
    pass_through(no_effects())
}

fn on_no_key(state: &mut InputState, kind: EventTapType, modifiers: KeyModifier) -> (d: Dispatch)
    ensures
        final(state)@ == old(state)@.on_no_key(kind, modifiers).state,
        d@.verdict == old(state)@.on_no_key(kind, modifiers).verdict,
        d@.effects == old(state)@.on_no_key(kind, modifiers).effects,
{
    let mut effects = no_effects();
    if state.get_previous_modifiers().is_empty() {
        if modifiers.is_control() {
            if !state.get_typing_buffer().is_empty() {
                let restore = do_restore_word(state);
                emit_all(&mut effects, restore);
            }
            state.set_temporary_disabled();
        }
        if modifiers.is_super() || kind == EventTapType::Other {
            state.new_word();
        }
    }
    pass_through(effects)
}

/// Handles the key of an event, given what was found out about it.
pub fn dispatch_key(
    state: &mut InputState,
    kind: EventTapType,
    key: Option<PressedKey>,
    modifiers: KeyModifier,
    facts: KeyFacts,
) -> (d: Dispatch)
    ensures
        final(state)@ == old(state)@.on_key(kind, key, modifiers, facts).state,
        d@.verdict == old(state)@.on_key(kind, key, modifiers, facts).verdict,
        d@.effects == old(state)@.on_key(kind, key, modifiers, facts).effects,
{
    match key {
        Some(PressedKey::Raw(code)) => on_raw_key(state, code),
        Some(PressedKey::Char(c)) => {
            if state.is_enabled() {
                on_char_enabled(state, c, modifiers, facts)
            } else {
                on_char_disabled(state, c, modifiers)
            }
        },
        None => on_no_key(state, kind, modifiers),
    }
}

/// Whether the key has the displayed word reviewed.
pub fn reviews_word(state: &InputState, key: Option<PressedKey>) -> (r: bool)
    ensures
        r == state@.reviews_word(key),
{
    match key {
        Some(PressedKey::Char(c)) => state.is_enabled() && boundary_key(c),
        _ => false,
    }
}

} // verus!
