//! The replay engine: it brings the text on screen in line with what the
//! engine wants there, by erasing the displayed word and sending another.
//!
//! A replay is, in order: where the foreground application needs it, a space
//! that is erased again at once, which dismisses a selection that the engine
//! cannot see; the erasing of the displayed word; and the new text.

use vstd::prelude::*;
use crate::effects::{
    apply_effects, effects_model, emit, lemma_apply_effects_concat, no_effects, Effect,
    EffectModel,
};
use crate::input::{InputModel, InputState};

verus! {

/// What the transformation of a typing buffer gave.
#[derive(Clone, Debug)]
pub struct TransformResult {
    /// The word as it is to appear.
    pub output: String,
    /// Whether the last key took a tone mark away again.
    pub tone_mark_removed: bool,
    /// Whether the last key took a letter modification away again.
    pub letter_modification_removed: bool,
}

/// What a [`TransformResult`] holds.
pub struct TransformModel {
    pub output: Seq<char>,
    pub tone_mark_removed: bool,
    pub letter_modification_removed: bool,
}

impl View for TransformResult {
    type V = TransformModel;

    open spec fn view(&self) -> TransformModel {
        TransformModel {
            output: self.output@,
            tone_mark_removed: self.tone_mark_removed,
            letter_modification_removed: self.letter_modification_removed,
        }
    }
}

/// The transformation result of an optional value.
pub open spec fn opt_transform(outcome: Option<TransformResult>) -> Option<TransformModel> {
    match outcome {
        Some(t) => Some(t@),
        None => None,
    }
}

/// What came of an attempt to replay.
#[derive(Clone, Debug)]
pub struct Replay {
    /// Whether the key that led to the attempt is to be kept from the
    /// focused application.
    pub consumed: bool,
    /// What the caller has to perform.
    pub effects: Vec<Effect>,
}

/// The two effects that dismiss a hidden selection.
pub open spec fn dismissal() -> Seq<EffectModel> {
    seq![EffectModel::SendString(seq![' ']), EffectModel::SendBackspace(1)]
}

/// The effects that erase `count` characters and send `text`.
pub open spec fn rewrite(count: nat, text: Seq<char>) -> Seq<EffectModel> {
    seq![EffectModel::SendBackspace(count), EffectModel::SendString(text)]
}

impl InputModel {
    /// Whether a transformation with this outcome is replayed: there is an
    /// outcome, and it differs from what is on screen or a delete key has
    /// changed the screen already.
    pub open spec fn replays(self, is_delete: bool, outcome: Option<TransformModel>) -> bool {
        match outcome {
            Some(t) => self.should_send_keyboard_event(t.output) || is_delete,
            None => false,
        }
    }

    /// The effects of the replay that puts `output` in the place of the
    /// displayed word.
    pub open spec fn replay_effects(self, is_delete: bool, output: Seq<char>) -> Seq<
        EffectModel,
    > {
        if self.should_dismiss_selection() {
            dismissal() + rewrite(self.backspace_count(is_delete), output)
        } else {
            rewrite(self.backspace_count(is_delete), output)
        }
    }

    /// The effects of a transformation with this outcome.
    pub open spec fn transform_effects(
        self,
        is_delete: bool,
        outcome: Option<TransformModel>,
    ) -> Seq<EffectModel> {
        if self.replays(is_delete, outcome) {
            self.replay_effects(is_delete, outcome->0.output)
        } else {
            Seq::empty()
        }
    }

    /// The state after a transformation with this outcome: if it is
    /// replayed, its output is what is displayed, and tracking stops if the
    /// transformation took a mark away.
    pub open spec fn after_transform(
        self,
        is_delete: bool,
        outcome: Option<TransformModel>,
    ) -> InputModel {
        if self.replays(is_delete, outcome) {
            let t = outcome->0;
            let shown = self.replace(t.output);
            if t.letter_modification_removed || t.tone_mark_removed {
                shown.stop_tracking()
            } else {
                shown
            }
        } else {
            self
        }
    }

    /// The effects that put the typed keys in the place of the displayed
    /// word.
    pub open spec fn restore_effects(self) -> Seq<EffectModel> {
        rewrite(self.displaying_word.len(), self.typing_buffer)
    }

    /// The state after the typed keys were put on screen.
    pub open spec fn after_restore(self) -> InputModel {
        self.replace(self.typing_buffer)
    }

    /// The effects that put `target` in the place of the displayed word.
    pub open spec fn macro_effects(self, target: Seq<char>) -> Seq<EffectModel> {
        rewrite(self.displaying_word.len(), target)
    }

    /// What is on screen of the word when a replay begins: the displayed
    /// word, less its last character if the user's own delete key has erased
    /// it.
    pub open spec fn on_screen(self, is_delete: bool) -> Seq<char> {
        if is_delete && self.displaying_word.len() > 0 {
            self.displaying_word.drop_last()
        } else {
            self.displaying_word
        }
    }
}

/// The text `" "`.
fn single_space() -> (r: String)
    ensures
        r@ == seq![' '],
{
    let mut r = String::new();
    r.push(' ');
    r
}

/// Adds to `effects` the erasing of `count` characters and the sending of
/// `text`.
fn emit_rewrite(effects: &mut Vec<Effect>, count: usize, text: String)
    ensures
        effects_model(final(effects)@) == effects_model(old(effects)@) + rewrite(
            count as nat,
            text@,
        ),
{
    emit(effects, Effect::SendBackspace(count));
    emit(effects, Effect::SendString(text));
}

/// Replays the outcome of transforming the typing buffer, `None` standing
/// for a transformation that failed.
///
/// Nothing is sent and nothing changes if the transformation failed, or if
/// its output is on screen already and `is_delete` is not set. Otherwise the
/// displayed word is erased and the output sent, the output is recorded as
/// the displayed word, and tracking stops if the transformation took a mark
/// away.
pub fn do_transform_keys(
    state: &mut InputState,
    is_delete: bool,
    outcome: Option<TransformResult>,
) -> (r: Replay)
    ensures
        final(state)@ == old(state)@.after_transform(is_delete, opt_transform(outcome)),
        r.consumed == old(state)@.replays(is_delete, opt_transform(outcome)),
        effects_model(r.effects@) == old(state)@.transform_effects(
            is_delete,
            opt_transform(outcome),
        ),
{
    let mut effects = no_effects();
    match outcome {
        Some(t) => {
            if state.should_send_keyboard_event(&t.output) || is_delete {
                if state.should_dismiss_selection_if_needed() {
                    emit(&mut effects, Effect::SendString(single_space()));
                    emit(&mut effects, Effect::SendBackspace(1));
                }
                let backspace_count = state.get_backspace_count(is_delete);
                emit_rewrite(&mut effects, backspace_count, t.output.clone());
                state.replace(t.output);
                if t.letter_modification_removed || t.tone_mark_removed {
                    state.stop_tracking();
                }
                Replay { consumed: true, effects }
            } else {
                Replay { consumed: false, effects }
            }
        },
        None => Replay { consumed: false, effects },
    }
}

/// Puts the keys as they were typed in the place of the displayed word, and
/// records them as what is displayed.
pub fn do_restore_word(state: &mut InputState) -> (effects: Vec<Effect>)
    ensures
        final(state)@ == old(state)@.after_restore(),
        effects_model(effects@) == old(state)@.restore_effects(),
{
    let mut effects = no_effects();
    let backspace_count = state.get_backspace_count(false);
    let typing_buffer = state.get_typing_buffer().to_owned();
    emit_rewrite(&mut effects, backspace_count, typing_buffer.clone());
    state.replace(typing_buffer);
    effects
}

/// Puts `target` in the place of the displayed word, and records it as what
/// is displayed.
pub fn do_macro_replace(state: &mut InputState, target: &String) -> (effects: Vec<Effect>)
    ensures
        final(state)@ == old(state)@.replace(target@),
        effects_model(effects@) == old(state)@.macro_effects(target@),
{
    let mut effects = no_effects();
    let backspace_count = state.get_backspace_count(false);
    emit_rewrite(&mut effects, backspace_count, target.clone());
    state.replace(target.clone());
    effects
}

/// A replay leaves its output on screen: whatever stood before the word, if
/// the word stood on screen as the engine has it displayed (less the one
/// character that a delete key erased, where `is_delete` is set), then after
/// the effects of the replay the output stands in its place.
pub proof fn lemma_replay_leaves_output(
    state: InputModel,
    is_delete: bool,
    output: Seq<char>,
    before: Seq<char>,
)
    ensures
        apply_effects(before + state.on_screen(is_delete), state.replay_effects(is_delete, output))
            == before + output,
{
    let screen = before + state.on_screen(is_delete);
    let count = state.backspace_count(is_delete);
    lemma_rewrite_replaces_tail(before, state.on_screen(is_delete), output);
    if state.should_dismiss_selection() {
        lemma_dismissal_is_neutral(screen);
        lemma_apply_effects_concat(screen, dismissal(), rewrite(count, output));
    }
}

/// Erasing as many characters as `tail` has and sending `text` puts `text`
/// in the place of `tail`.
pub proof fn lemma_rewrite_replaces_tail(before: Seq<char>, tail: Seq<char>, text: Seq<char>)
    ensures
        apply_effects(before + tail, rewrite(tail.len(), text)) == before + text,
{
    assert((before + tail).take(before.len() as int) =~= before);
    reveal_with_fuel(apply_effects, 3);
}

/// Sending a space and erasing one character leaves the text as it was.
pub proof fn lemma_dismissal_is_neutral(screen: Seq<char>)
    ensures
        apply_effects(screen, dismissal()) == screen,
{
    assert((screen + seq![' ']).take(screen.len() as int) =~= screen);
    reveal_with_fuel(apply_effects, 3);
}

/// Restoring a word and replacing it by a macro's target both leave the new
/// text on screen in the place of the displayed word.
pub proof fn lemma_restore_and_macro_leave_text(
    state: InputModel,
    target: Seq<char>,
    before: Seq<char>,
)
    ensures
        apply_effects(before + state.displaying_word, state.restore_effects()) == before
            + state.typing_buffer,
        apply_effects(before + state.displaying_word, state.macro_effects(target)) == before
            + target,
{
    lemma_rewrite_replaces_tail(before, state.displaying_word, state.typing_buffer);
    lemma_rewrite_replaces_tail(before, state.displaying_word, target);
}

/// Whatever is put on screen, as many characters are erased first as the
/// displayed word has, and the typing buffer has no part in the count.
pub proof fn lemma_erases_the_displayed_word(
    state: InputModel,
    text: Seq<char>,
    other_keys: Seq<char>,
)
    ensures
        state.backspace_count(false) == state.displaying_word.len(),
        state.restore_effects()[0] == EffectModel::SendBackspace(state.displaying_word.len()),
        state.macro_effects(text)[0] == EffectModel::SendBackspace(state.displaying_word.len()),
        state.replay_effects(false, text) == if state.should_dismiss_selection() {
            dismissal() + rewrite(state.displaying_word.len(), text)
        } else {
            rewrite(state.displaying_word.len(), text)
        },
        (InputModel { typing_buffer: other_keys, ..state }).replay_effects(false, text)
            == state.replay_effects(false, text),
        (InputModel { typing_buffer: other_keys, ..state }).macro_effects(text)
            == state.macro_effects(text),
{
}

/// A transformation whose output is on screen already sends nothing, unless
/// a delete key has changed the screen.
pub proof fn lemma_no_redundant_resend(state: InputModel, outcome: TransformModel)
    requires
        outcome.output == state.displaying_word,
    ensures
        !state.should_send_keyboard_event(outcome.output),
        !state.replays(false, Some(outcome)),
        state.transform_effects(false, Some(outcome)).len() == 0,
        state.after_transform(false, Some(outcome)) == state,
{
}

/// A transformation that failed sends nothing and changes nothing.
pub proof fn lemma_failed_transform_passes_through(state: InputModel, is_delete: bool)
    ensures
        !state.replays(is_delete, None),
        state.transform_effects(is_delete, None).len() == 0,
        state.after_transform(is_delete, None) == state,
{
}

} // verus!
