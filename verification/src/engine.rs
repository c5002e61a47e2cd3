//! The engine as one value.
//!
//! Each intercepted event is handed to [`Engine::event_handler`], which
//! brings the hotkey matcher up to date first and only then looks at the key:
//! a release of the modifiers that toggles the engine is resolved before the
//! key of the same event is handled. The handler returns what the caller has
//! to send and what becomes of the key. Where the key was added to the word,
//! the caller transforms the typing buffer and hands the outcome to
//! [`Engine::transform_keys`].

use vstd::prelude::*;
use crate::config::{ConfigModel, EngineConfig};
use crate::dispatch::{dispatch_key, reviews_word, Dispatch, DispatchModel};
use crate::effects::{effects_model, emit, emit_all, no_effects, Effect, EffectModel};
use crate::hotkey::{at_rest, HotkeyMatcher};
use crate::input::{InputModel, InputState};
use crate::keys::{
    key_char, key_is_numeric, numeric_key, pressed_char, EventTapType, KeyFacts, PressedKey,
};
use crate::modifiers::KeyModifier;
use crate::replay::{do_transform_keys, opt_transform, Replay, TransformResult};
use crate::validation::{is_valid_word, valid_word};

verus! {

/// The engine: the word composition state and the hotkey matcher.
pub struct Engine {
    input: InputState,
    matcher: HotkeyMatcher,
}

/// What an [`Engine`] holds.
pub struct EngineModel {
    pub input: InputModel,
    pub matcher: HotkeyMatcher,
}

impl View for Engine {
    type V = EngineModel;

    closed spec fn view(&self) -> EngineModel {
        EngineModel { input: self.input@, matcher: self.matcher }
    }
}

impl EngineModel {
    /// The engine is usable if its configuration is, and the chord is only
    /// matched while modifiers are held.
    pub open spec fn wf(self) -> bool {
        self.input.config.wf() && self.matcher.wf()
    }

    /// The engine as it starts.
    pub open spec fn initial(config: ConfigModel) -> EngineModel {
        EngineModel {
            input: InputModel::initial(config),
            matcher: at_rest(),
        }
    }

    /// Whether the event fires the toggle hotkey.
    pub open spec fn hotkey_fires(self, kind: EventTapType, modifiers: KeyModifier) -> bool {
        self.matcher.fires(kind, modifiers)
    }

    /// The engine after the hotkey bookkeeping of an event: the matcher has
    /// taken the event in, and the engine is toggled if the event fired the
    /// hotkey.
    pub open spec fn after_hotkey(
        self,
        kind: EventTapType,
        key: Option<PressedKey>,
        modifiers: KeyModifier,
    ) -> EngineModel {
        EngineModel {
            input: if self.hotkey_fires(kind, modifiers) {
                self.input.toggle_vietnamese()
            } else {
                self.input
            },
            matcher: self.matcher.step(self.input.config.hotkey, kind, key_char(key), modifiers),
        }
    }

    /// What the hotkey bookkeeping of an event asks of the caller.
    pub open spec fn hotkey_effects(self, kind: EventTapType, modifiers: KeyModifier) -> Seq<
        EffectModel,
    > {
        if self.hotkey_fires(kind, modifiers) {
            seq![EffectModel::UpdateUi]
        } else {
            Seq::empty()
        }
    }

    /// The engine after the key of an event was handled.
    pub open spec fn after_key(
        self,
        kind: EventTapType,
        key: Option<PressedKey>,
        modifiers: KeyModifier,
        facts: KeyFacts,
    ) -> EngineModel {
        EngineModel {
            input: self.input.on_key(kind, key, modifiers, facts).state,
            ..self
        }
    }

    /// What the key of an event asks of the caller.
    pub open spec fn key_dispatch(
        self,
        kind: EventTapType,
        key: Option<PressedKey>,
        modifiers: KeyModifier,
        facts: KeyFacts,
    ) -> DispatchModel {
        let outcome = self.input.on_key(kind, key, modifiers, facts);
        DispatchModel { verdict: outcome.verdict, effects: outcome.effects }
    }

    /// The engine after an event: hotkey bookkeeping first, then the key.
    pub open spec fn after_event(
        self,
        kind: EventTapType,
        key: Option<PressedKey>,
        modifiers: KeyModifier,
        facts: KeyFacts,
    ) -> EngineModel {
        self.after_hotkey(kind, key, modifiers).after_key(kind, key, modifiers, facts)
    }

    /// What an event asks of the caller: what the hotkey bookkeeping asks,
    /// then what the key asks.
    pub open spec fn event_dispatch(
        self,
        kind: EventTapType,
        key: Option<PressedKey>,
        modifiers: KeyModifier,
        facts: KeyFacts,
    ) -> DispatchModel {
        let keyed = self.after_hotkey(kind, key, modifiers).key_dispatch(
            kind,
            key,
            modifiers,
            facts,
        );
        DispatchModel {
            verdict: keyed.verdict,
            effects: self.hotkey_effects(kind, modifiers) + keyed.effects,
        }
    }

    /// What the engine finds out about an event before it handles the key:
    /// whether the word under review is valid Vietnamese, and whether the
    /// character of the key is a number.
    pub open spec fn event_facts(
        self,
        kind: EventTapType,
        key: Option<PressedKey>,
        modifiers: KeyModifier,
    ) -> KeyFacts {
        KeyFacts {
            word_is_valid: valid_word(self.word_under_review(kind, key, modifiers)),
            key_is_numeric: key_is_numeric(key),
        }
    }

    /// The word that an event has reviewed, if it has any reviewed: the
    /// displayed word after the hotkey bookkeeping.
    pub open spec fn word_under_review(
        self,
        kind: EventTapType,
        key: Option<PressedKey>,
        modifiers: KeyModifier,
    ) -> Seq<char> {
        self.after_hotkey(kind, key, modifiers).input.displaying_word
    }
}

impl Engine {
    /// An engine at rest with the given configuration.
    pub fn new(config: EngineConfig) -> (r: Engine)
        ensures
            r@ == EngineModel::initial(config@),
            config@.wf() ==> r@.wf(),
    {
        Engine { input: InputState::new(config), matcher: HotkeyMatcher::new() }
    }

    /// The word composition state.
    pub fn input(&self) -> (r: &InputState)
        ensures
            r@ == self@.input,
    {
        &self.input
    }

    /// The hotkey matcher.
    pub fn matcher(&self) -> (r: HotkeyMatcher)
        ensures
            r == self@.matcher,
    {
        self.matcher
    }

    /// Records the modifiers that `event_handler` is to take as held before
    /// the next event.
    pub fn set_previous_modifiers(&mut self, modifiers: KeyModifier)
        ensures
            final(self)@ == (EngineModel {
                input: old(self)@.input.set_previous_modifiers(modifiers),
                ..old(self)@
            }),
    {
        self.input.set_previous_modifiers(modifiers);
    }

    /// Toggles the engine and asks for the user interface to be refreshed.
    pub fn toggle_vietnamese(&mut self) -> (effects: Vec<Effect>)
        ensures
            final(self)@ == (EngineModel {
                input: old(self)@.input.toggle_vietnamese(),
                ..old(self)@
            }),
            effects_model(effects@) == seq![EffectModel::UpdateUi],
    {
        self.input.toggle_vietnamese();
        let mut effects = no_effects();
        emit(&mut effects, Effect::UpdateUi);
        effects
    }

    /// Takes note that the application `app_id` has come to the foreground.
    ///
    /// Nothing happens unless the configuration lets such a change switch
    /// the engine. Otherwise the application is recorded and the engine is
    /// switched on or off as the configuration wants it there; the user
    /// interface is refreshed if, and only if, that changed whether the
    /// engine is on.
    pub fn auto_toggle_vietnamese(&mut self, app_id: &str) -> (effects: Vec<Effect>)
        ensures
            final(self)@ == (EngineModel {
                input: old(self)@.input.foreground_app_changed(app_id@),
                ..old(self)@
            }),
            effects_model(effects@) == if old(self)@.input.app_change_refreshes(app_id@) {
                seq![EffectModel::UpdateUi]
            } else {
                Seq::empty()
            },
    {
        let mut effects = no_effects();
        if !self.input.is_auto_toggle_enabled() {
            return effects;
        }
        let has_change = self.input.update_active_app(app_id);
        if !has_change {
            return effects;
        }
        emit(&mut effects, Effect::UpdateUi);
        effects
    }

    /// Replays the outcome of transforming the typing buffer; see
    /// [`do_transform_keys`].
    pub fn transform_keys(&mut self, is_delete: bool, outcome: Option<TransformResult>) -> (r:
        Replay)
        ensures
            final(self)@ == (EngineModel {
                input: old(self)@.input.after_transform(is_delete, opt_transform(outcome)),
                ..old(self)@
            }),
            r.consumed == old(self)@.input.replays(is_delete, opt_transform(outcome)),
            effects_model(r.effects@) == old(self)@.input.transform_effects(
                is_delete,
                opt_transform(outcome),
            ),
    {
        do_transform_keys(&mut self.input, is_delete, outcome)
    }

    /// The hotkey bookkeeping of an event: the matcher takes the event in,
    /// and if the event fires the hotkey the engine is toggled and the user
    /// interface refreshed.
    pub fn track_hotkey(
        &mut self,
        kind: EventTapType,
        key: Option<PressedKey>,
        modifiers: KeyModifier,
    ) -> (effects: Vec<Effect>)
        ensures
            final(self)@ == old(self)@.after_hotkey(kind, key, modifiers),
            effects_model(effects@) == old(self)@.hotkey_effects(kind, modifiers),
    {
        let mut effects = no_effects();
        let hotkey = self.input.get_hotkey();
        let fired = self.matcher.observe(&hotkey, kind, pressed_char(key), modifiers);
        if fired {
            self.input.toggle_vietnamese();
            emit(&mut effects, Effect::UpdateUi);
        }
        effects
    }

    /// The handling of the key of an event, the hotkey bookkeeping done,
    /// given what was found out about the event.
    pub fn dispatch_key(
        &mut self,
        kind: EventTapType,
        key: Option<PressedKey>,
        modifiers: KeyModifier,
        facts: KeyFacts,
    ) -> (d: Dispatch)
        ensures
            final(self)@ == old(self)@.after_key(kind, key, modifiers, facts),
            d@ == old(self)@.key_dispatch(kind, key, modifiers, facts),
    {
        dispatch_key(&mut self.input, kind, key, modifiers, facts)
    }

    /// Whether the key has the displayed word reviewed.
    pub fn reviews_word(&self, key: Option<PressedKey>) -> (r: bool)
        ensures
            r == self@.input.reviews_word(key),
    {
        reviews_word(&self.input, key)
    }

    /// Handles one intercepted event.
    ///
    /// The hotkey bookkeeping comes first, then the key. Where the key has
    /// the displayed word reviewed, the `vi` crate is asked whether the word
    /// is valid Vietnamese; where the key has a character, `char::is_numeric`
    /// is asked whether it is a number.
    pub fn event_handler(
        &mut self,
        kind: EventTapType,
        key: Option<PressedKey>,
        modifiers: KeyModifier,
    ) -> (d: Dispatch)
        ensures
            final(self)@ == old(self)@.after_event(
                kind,
                key,
                modifiers,
                old(self)@.event_facts(kind, key, modifiers),
            ),
            d@ == old(self)@.event_dispatch(
                kind,
                key,
                modifiers,
                old(self)@.event_facts(kind, key, modifiers),
            ),
    {
        let mut effects = self.track_hotkey(kind, key, modifiers);
        let word_is_valid = if self.reviews_word(key) {
            is_valid_word(self.input.get_displaying_word())
        } else {
            true
        };
        let facts = KeyFacts { word_is_valid, key_is_numeric: numeric_key(key) };
        let keyed = self.dispatch_key(kind, key, modifiers, facts);
        let verdict = keyed.verdict;
        emit_all(&mut effects, keyed.effects);
        Dispatch { verdict, effects }
    }
}

} // verus!
