//! What holds of the engine over all states and events.

use vstd::prelude::*;
use crate::dispatch::{dismisses_word, pass, typed_char, Verdict};
use crate::effects::{apply_effects, lemma_apply_effects_concat, EffectModel};
use crate::engine::EngineModel;
use crate::hotkey::lemma_matching_needs_modifiers;
use crate::input::InputModel;
use crate::keys::{
    is_boundary_key, key_char, EventTapType, KeyFacts, PressedKey, KEY_DELETE, RAW_KEY_GLOBE,
};
use crate::modifiers::{KeyModifier, MODIFIER_ALT, MODIFIER_SHIFT, MODIFIER_SUPER};
use crate::replay::{lemma_replay_leaves_output, lemma_rewrite_replaces_tail, TransformModel};

verus! {

/// The beginning of a new word empties the typing buffer and the displayed
/// word together, keeps what was displayed as the previous word, ends a
/// temporary disabling, and switches tracking on unless the engine was
/// temporarily disabled.
pub proof fn lemma_new_word_resets(state: InputModel)
    ensures
        state.new_word().typing_buffer.len() == 0,
        state.new_word().displaying_word.len() == 0,
        state.new_word().previous_word == Some(state.displaying_word),
        !state.new_word().temporary_disabled,
        !state.temporary_disabled ==> state.new_word().tracking,
        state.new_word().enabled == state.enabled,
        state.new_word().config == state.config,
{
}

/// After a boundary key (enter, tab, space or escape) the typing buffer and
/// the displayed word are empty, and the word is tracked unless the engine
/// was temporarily disabled when the key arrived. This holds whatever the
/// kind of the event, the modifiers held, the state of the hotkey matcher
/// and the validity of the word.
pub proof fn lemma_boundary_key_begins_new_word(
    engine: EngineModel,
    kind: EventTapType,
    c: char,
    modifiers: KeyModifier,
    facts: KeyFacts,
)
    requires
        is_boundary_key(c),
    ensures
        ({
            let after = engine.after_event(kind, Some(PressedKey::Char(c)), modifiers, facts);
            &&& after.input.typing_buffer.len() == 0
            &&& after.input.displaying_word.len() == 0
            &&& !after.input.temporary_disabled
            &&& !engine.input.temporary_disabled ==> after.input.tracking
        }),
        engine.event_dispatch(kind, Some(PressedKey::Char(c)), modifiers, facts).verdict
            == Verdict::PassThrough,
{
}

/// A transformed word that is neither valid nor allowed is restored before
/// the boundary key does anything else. The first two effects erase the
/// displayed word and send the keys as they were typed; the macro table is
/// consulted for the restored word, not for the transformed one; and the
/// previous word of the new word is what stood on screen last: the macro's
/// target if one was put there, the typed keys otherwise.
pub proof fn lemma_invalid_word_is_restored_first(
    state: InputModel,
    kind: EventTapType,
    c: char,
    modifiers: KeyModifier,
    facts: KeyFacts,
)
    requires
        state.is_enabled(),
        is_boundary_key(c),
        state.is_transformed_word(),
        !facts.word_is_valid,
        !state.is_allowed_word(state.displaying_word),
    ensures
        ({
            let outcome = state.on_key(kind, Some(PressedKey::Char(c)), modifiers, facts);
            let target = state.config.macro_target(state.typing_buffer);
            let expands = target.is_some();
            &&& outcome.effects.len() >= 2
            &&& outcome.effects[0] == EffectModel::SendBackspace(state.displaying_word.len())
            &&& outcome.effects[1] == EffectModel::SendString(state.typing_buffer)
            &&& expands ==> outcome.effects =~= state.restore_effects()
                + state.after_restore().macro_effects(target->0)
            &&& expands ==> outcome.effects[2] == EffectModel::SendBackspace(
                state.typing_buffer.len(),
            )
            &&& expands ==> outcome.state.previous_word == target
            &&& !expands ==> outcome.effects =~= state.restore_effects()
            &&& !expands ==> outcome.state.previous_word == Some(state.typing_buffer)
            &&& outcome.state.typing_buffer.len() == 0
            &&& outcome.state.displaying_word.len() == 0
        }),
{
}

/// A word that is valid, or allowed, or not transformed at all, is not
/// restored: a boundary key sends nothing for it but what a macro sends.
pub proof fn lemma_sound_word_is_kept(
    state: InputModel,
    kind: EventTapType,
    c: char,
    modifiers: KeyModifier,
    facts: KeyFacts,
)
    requires
        state.is_enabled(),
        is_boundary_key(c),
        facts.word_is_valid || state.is_allowed_word(state.displaying_word)
            || !state.is_transformed_word(),
    ensures
        ({
            let outcome = state.on_key(kind, Some(PressedKey::Char(c)), modifiers, facts);
            let target = state.macro_target();
            let expands = target.is_some();
            &&& expands ==> outcome.effects =~= state.macro_effects(target->0)
            &&& expands ==> outcome.state.previous_word == target
            &&& !expands ==> outcome.effects.len() == 0
            &&& !expands ==> outcome.state.previous_word == Some(state.displaying_word)
        }),
{
}

/// The screen follows the displayed word through a transformation: if the
/// displayed word stood on screen before, then after the effects of the
/// transformation the new displayed word stands in its place, whether the
/// transformation was replayed or not.
pub proof fn lemma_screen_follows_transformation(
    state: InputModel,
    outcome: Option<TransformModel>,
    before: Seq<char>,
)
    ensures
        apply_effects(before + state.displaying_word, state.transform_effects(false, outcome))
            == before + state.after_transform(false, outcome).displaying_word,
{
    if state.replays(false, outcome) {
        lemma_replay_leaves_output(state, false, outcome->0.output, before);
    }
}

/// The screen follows the displayed word through a boundary key: if the
/// displayed word stood on screen before, then after the effects of the key
/// there stands what the new word has as its previous word, be it the word
/// as it was, the keys as they were typed, or the target of a macro.
pub proof fn lemma_screen_follows_boundary_key(
    state: InputModel,
    kind: EventTapType,
    c: char,
    modifiers: KeyModifier,
    facts: KeyFacts,
    before: Seq<char>,
)
    requires
        state.is_enabled(),
        is_boundary_key(c),
    ensures
        ({
            let outcome = state.on_key(kind, Some(PressedKey::Char(c)), modifiers, facts);
            &&& outcome.state.previous_word.is_some()
            &&& apply_effects(before + state.displaying_word, outcome.effects) == before
                + outcome.state.previous_word->0
        }),
{
    let restores = state.should_restore_word(facts.word_is_valid);
    let restored = if restores {
        state.after_restore()
    } else {
        state
    };
    let reviewed = if restored.previous_word_is_stop_tracking_words() {
        restored.clear_previous_word()
    } else {
        restored
    };
    let first = if restores {
        state.restore_effects()
    } else {
        Seq::empty()
    };
    let target = reviewed.macro_target();
    let second = match target {
        Some(t) => reviewed.macro_effects(t),
        None => Seq::empty(),
    };
    lemma_apply_effects_concat(before + state.displaying_word, first, second);
    if restores {
        lemma_rewrite_replaces_tail(before, state.displaying_word, state.typing_buffer);
    }
    if target.is_some() {
        lemma_rewrite_replaces_tail(before, reviewed.displaying_word, target->0);
    }
}

/// A second report that the same application is in the foreground changes
/// nothing and refreshes nothing, whatever the first did.
pub proof fn lemma_app_change_is_idempotent(state: InputModel, app_id: Seq<char>)
    ensures
        ({
            let once = state.foreground_app_changed(app_id);
            &&& once.foreground_app_changed(app_id) == once
            &&& !once.app_change_refreshes(app_id)
        }),
{
}

/// A report of the foreground application that does not switch the engine
/// on or off refreshes nothing and leaves everything but the record of the
/// application as it was.
pub proof fn lemma_app_change_without_switch(state: InputModel, app_id: Seq<char>)
    requires
        !state.app_change_refreshes(app_id),
    ensures
        state.foreground_app_changed(app_id) == (InputModel {
            active_app: state.foreground_app_changed(app_id).active_app,
            ..state
        }),
{
}

/// An event leaves a well-formed engine well-formed: the configuration is
/// never written, and the chord stays matched only while modifiers are held.
pub proof fn lemma_event_preserves_wf(
    engine: EngineModel,
    kind: EventTapType,
    key: Option<PressedKey>,
    modifiers: KeyModifier,
    facts: KeyFacts,
)
    requires
        engine.wf(),
    ensures
        engine.after_event(kind, key, modifiers, facts).wf(),
        engine.after_event(kind, key, modifiers, facts).input.config
            == engine.input.config,
{
    lemma_matching_needs_modifiers(
        engine.matcher,
        engine.input.config.hotkey,
        kind,
        key_char(key),
        modifiers,
    );
    lemma_key_keeps_config(
        engine.after_hotkey(kind, key, modifiers).input,
        kind,
        key,
        modifiers,
        facts,
    );
}

/// No key writes the configuration.
pub proof fn lemma_key_keeps_config(
    state: InputModel,
    kind: EventTapType,
    key: Option<PressedKey>,
    modifiers: KeyModifier,
    facts: KeyFacts,
)
    ensures
        state.on_key(kind, key, modifiers, facts).state.config == state.config,
{
}

/// An event that fires the hotkey toggles the engine exactly once, before
/// the key of the event is looked at, and the first thing it asks for is a
/// refresh of the user interface. An event that does not fire it leaves the
/// switch to the key.
pub proof fn lemma_hotkey_toggles_before_key(
    engine: EngineModel,
    kind: EventTapType,
    key: Option<PressedKey>,
    modifiers: KeyModifier,
    facts: KeyFacts,
)
    ensures
        engine.hotkey_fires(kind, modifiers) ==> {
            &&& engine.after_hotkey(kind, key, modifiers).input.enabled != engine.input.enabled
            &&& engine.event_dispatch(kind, key, modifiers, facts).effects.len() >= 1
            &&& engine.event_dispatch(kind, key, modifiers, facts).effects[0]
                == EffectModel::UpdateUi
        },
        !engine.hotkey_fires(kind, modifiers) ==> {
            &&& engine.after_hotkey(kind, key, modifiers).input == engine.input
            &&& engine.event_dispatch(kind, key, modifiers, facts).effects
                =~= engine.key_dispatch(kind, key, modifiers, facts).effects
        },
{
}

/// Nothing switches the engine on or off but the hotkey and the globe key.
pub proof fn lemma_only_hotkey_and_globe_key_switch(
    engine: EngineModel,
    kind: EventTapType,
    key: Option<PressedKey>,
    modifiers: KeyModifier,
    facts: KeyFacts,
)
    requires
        !engine.hotkey_fires(kind, modifiers),
        key != Some(PressedKey::Raw(RAW_KEY_GLOBE)),
    ensures
        engine.after_event(kind, key, modifiers, facts).input.enabled
            == engine.input.enabled,
{
}

/// While the engine is not enabled, a character key goes on to the
/// application and nothing is sent: the engine sees the key only to know
/// where a word ends.
pub proof fn lemma_disabled_engine_sends_nothing(
    state: InputModel,
    kind: EventTapType,
    c: char,
    modifiers: KeyModifier,
    facts: KeyFacts,
)
    requires
        !state.is_enabled(),
    ensures
        ({
            let outcome = state.on_key(kind, Some(PressedKey::Char(c)), modifiers, facts);
            &&& outcome.verdict == Verdict::PassThrough
            &&& outcome.effects.len() == 0
            &&& outcome.state == state || outcome.state == state.new_word()
        }),
{
}

/// Once tracking has stopped, the keys of the word pass untouched: a key
/// that neither ends the word nor deletes from it changes nothing.
pub proof fn lemma_untracked_key_passes_untouched(
    state: InputModel,
    kind: EventTapType,
    c: char,
    modifiers: KeyModifier,
    facts: KeyFacts,
)
    requires
        state.is_enabled(),
        !state.tracking,
        !is_boundary_key(c),
        c != KEY_DELETE,
        !dismisses_word(c, modifiers, facts.key_is_numeric),
        !modifiers.has(MODIFIER_SUPER),
        !modifiers.has(MODIFIER_ALT),
    ensures
        state.on_key(kind, Some(PressedKey::Char(c)), modifiers, facts) == pass(state),
{
}

/// A key is added to the typing buffer, and the caller asked to transform
/// the buffer, exactly where the engine is enabled and tracking and the key
/// neither ends the word nor deletes from it. The displayed word is then
/// left for the replay to set.
pub proof fn lemma_transform_is_asked_for_word_keys(
    state: InputModel,
    kind: EventTapType,
    key: Option<PressedKey>,
    modifiers: KeyModifier,
    facts: KeyFacts,
)
    ensures
        ({
            let outcome = state.on_key(kind, key, modifiers, facts);
            &&& outcome.verdict == Verdict::Transform <==> {
                &&& key matches Some(PressedKey::Char(c))
                &&& state.is_enabled()
                &&& state.tracking
                &&& !is_boundary_key(c)
                &&& c != KEY_DELETE
                &&& !dismisses_word(c, modifiers, facts.key_is_numeric)
                &&& !modifiers.has(MODIFIER_SUPER)
                &&& !modifiers.has(MODIFIER_ALT)
            }
            &&& outcome.verdict == Verdict::Transform ==> {
                &&& key matches Some(PressedKey::Char(c))
                &&& outcome.state.typing_buffer == state.typing_buffer.push(typed_char(c, modifiers))
                &&& outcome.state.displaying_word == state.displaying_word
                &&& outcome.effects.len() == 0
            }
        }),
{
}

/// Only where a key has the displayed word reviewed does the validity of the
/// word bear on what happens, and only for a key with shift held that is no
/// punctuation mark does it matter whether its character is a number.
pub proof fn lemma_validity_matters_only_under_review(
    state: InputModel,
    kind: EventTapType,
    key: Option<PressedKey>,
    modifiers: KeyModifier,
    facts: KeyFacts,
)
    requires
        !state.reviews_word(key),
    ensures
        state.on_key(kind, key, modifiers, KeyFacts { word_is_valid: true, ..facts })
            == state.on_key(kind, key, modifiers, KeyFacts { word_is_valid: false, ..facts }),
        !modifiers.has(MODIFIER_SHIFT) ==> state.on_key(
            kind,
            key,
            modifiers,
            KeyFacts { key_is_numeric: true, ..facts },
        ) == state.on_key(kind, key, modifiers, KeyFacts { key_is_numeric: false, ..facts }),
{
}

} // verus!
