//! What the engine asks its caller to do, and what that does to the text on
//! screen.

use vstd::prelude::*;

verus! {

/// One request to the outside world. The caller performs the effects of a
/// list in order and does not report back: a request that fails is not
/// repeated, and the engine goes on as if it had succeeded.
#[derive(Clone, Debug)]
pub enum Effect {
    /// Insert the text at the cursor of the focused application.
    SendString(String),
    /// Erase this many characters before the cursor.
    SendBackspace(usize),
    /// Tell the user interface that the engine's state has changed.
    UpdateUi,
}

/// What an [`Effect`] asks for.
pub enum EffectModel {
    SendString(Seq<char>),
    SendBackspace(nat),
    UpdateUi,
}

impl View for Effect {
    type V = EffectModel;

    open spec fn view(&self) -> EffectModel {
        match self {
            Effect::SendString(s) => EffectModel::SendString(s@),
            Effect::SendBackspace(n) => EffectModel::SendBackspace(*n as nat),
            Effect::UpdateUi => EffectModel::UpdateUi,
        }
    }
}

/// The requests of a list, in order.
pub open spec fn effects_model(list: Seq<Effect>) -> Seq<EffectModel> {
    list.map_values(|e: Effect| e@)
}

/// The text before the cursor after one effect.
pub open spec fn apply_effect(screen: Seq<char>, effect: EffectModel) -> Seq<char> {
    match effect {
        EffectModel::SendString(s) => screen + s,
        EffectModel::SendBackspace(n) => if n <= screen.len() {
            screen.take(screen.len() - n)
        } else {
            Seq::empty()
        },
        EffectModel::UpdateUi => screen,
    }
}

/// The text before the cursor after the effects of a list, in order.
pub open spec fn apply_effects(screen: Seq<char>, effects: Seq<EffectModel>) -> Seq<char>
    decreases effects.len(),
{
    if effects.len() == 0 {
        screen
    } else {
        apply_effects(apply_effect(screen, effects[0]), effects.skip(1))
    }
}

/// Two lists of effects performed one after the other are the effects of the
/// joined list.
pub proof fn lemma_apply_effects_concat(
    screen: Seq<char>,
    first: Seq<EffectModel>,
    second: Seq<EffectModel>,
)
    ensures
        apply_effects(screen, first + second) == apply_effects(
            apply_effects(screen, first),
            second,
        ),
    decreases first.len(),
{
    if first.len() > 0 {
        assert((first + second).skip(1) =~= first.skip(1) + second);
        lemma_apply_effects_concat(apply_effect(screen, first[0]), first.skip(1), second);
    }
}

/// A list of no effects.
pub fn no_effects() -> (r: Vec<Effect>)
    ensures
        effects_model(r@) == Seq::<EffectModel>::empty(),
        r@.len() == 0,
{
    Vec::new()
}

/// Adds one effect to the end of the list.
pub fn emit(list: &mut Vec<Effect>, effect: Effect)
    ensures
        effects_model(final(list)@) == effects_model(old(list)@).push(effect@),
{
    list.push(effect);
}

/// Adds the effects of `more` to the end of the list.
pub fn emit_all(list: &mut Vec<Effect>, more: Vec<Effect>)
    ensures
        effects_model(final(list)@) == effects_model(old(list)@) + effects_model(more@),
{
    let mut more = more;
    list.append(&mut more);
}

} // verus!
