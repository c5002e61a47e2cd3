//! The toggle hotkey and the matcher that recognizes it.
//!
//! The hotkey may consist of modifier keys alone, so it cannot be recognized
//! from one event: the matcher follows the keys from the first press to the
//! release of the last modifier, and gives up for that cycle as soon as the
//! chord turns out to be the beginning of some other shortcut.

use vstd::prelude::*;
use crate::keys::{key_char, EventTapType, PressedKey, RawKeyEvent};
use crate::modifiers::KeyModifier;

verus! {

/// The chord that toggles the engine: a set of modifiers and, optionally, a
/// key pressed with them.
#[derive(Clone, Copy, Debug, PartialEq, Eq)]
pub struct Hotkey {
    pub modifiers: KeyModifier,
    pub key: Option<char>,
}

/// Where the matcher stands in a press, hold and release cycle.
#[derive(Clone, Copy, Debug, PartialEq, Eq, Structural)]
pub enum MatchState {
    /// The chord is not held.
    Idle,
    /// The chord, and nothing else, is held.
    Matching,
    /// The chord was held and something else arrived: this cycle fires
    /// nothing.
    CircuitBroken,
}

/// What the matcher remembers between events.
#[derive(Clone, Copy, Debug, PartialEq, Eq)]
pub struct HotkeyMatcher {
    /// The modifiers seen since the last full release.
    pub held: KeyModifier,
    /// Whether the last event left exactly the chord held.
    pub matching: bool,
    /// Whether the chord was broken in this cycle.
    pub circuit_break: bool,
}

impl Hotkey {
    /// A hotkey has at least one modifier.
    pub open spec fn wf(self) -> bool {
        !self.modifiers.none_held()
    }

    /// Whether the held modifiers and the key of the event are exactly the
    /// chord.
    pub open spec fn matches(self, held: KeyModifier, key: Option<char>) -> bool {
        self.modifiers == held && self.key == key
    }

    /// The hotkey of the given modifiers and key, or `None` if there is no
    /// modifier among them.
    pub fn new(modifiers: KeyModifier, key: Option<char>) -> (r: Option<Hotkey>)
        ensures
            r.is_some() <==> !modifiers.none_held(),
            r matches Some(h) ==> h.modifiers == modifiers && h.key == key && h.wf(),
    {
        if modifiers.is_empty() {
            None
        } else {
            Some(Hotkey { modifiers, key })
        }
    }

    /// Whether the held modifiers and the key of the event are exactly the
    /// chord.
    pub fn is_match(&self, held: KeyModifier, key: Option<char>) -> (r: bool)
        ensures
            r == self.matches(held, key),
    {
        let same_key = match (self.key, key) {
            (Some(a), Some(b)) => a == b,
            (None, None) => true,
            _ => false,
        };
        self.modifiers == held && same_key
    }
}

impl HotkeyMatcher {
    /// While the chord is matched, some modifier is held.
    pub open spec fn wf(self) -> bool {
        self.matching ==> !self.held.none_held()
    }

    /// Where the matcher stands: circuit-broken if the chord was broken in this
    /// cycle, else matching if the chord is held, else idle.
    pub open spec fn state(self) -> MatchState {
        if self.circuit_break {
            MatchState::CircuitBroken
        } else if self.matching {
            MatchState::Matching
        } else {
            MatchState::Idle
        }
    }

    /// Whether the event is the release of the last modifier.
    pub open spec fn is_full_release(kind: EventTapType, modifiers: KeyModifier) -> bool {
        kind == EventTapType::FlagsChanged && modifiers.none_held()
    }

    /// Whether the event fires the toggle: it releases the last modifier
    /// while the matcher is in state `Matching`.
    pub open spec fn fires(self, kind: EventTapType, modifiers: KeyModifier) -> bool {
        Self::is_full_release(kind, modifiers) && self.matching && !self.circuit_break
    }

    /// The modifiers held after the event.
    pub open spec fn held_after(self, kind: EventTapType, modifiers: KeyModifier) -> KeyModifier {
        if kind != EventTapType::FlagsChanged {
            self.held
        } else if modifiers.none_held() {
            modifiers
        } else {
            self.held.union(modifiers)
        }
    }

    /// The matcher after the event.
    pub open spec fn step(
        self,
        hotkey: Hotkey,
        kind: EventTapType,
        key: Option<char>,
        modifiers: KeyModifier,
    ) -> HotkeyMatcher {
        let released = Self::is_full_release(kind, modifiers);
        let held = self.held_after(kind, modifiers);
        let matched = hotkey.matches(held, key);
        HotkeyMatcher {
            held,
            matching: matched,
            circuit_break: !released && (self.circuit_break || (self.matching && !matched)),
        }
    }

    /// The matcher at rest.
    pub fn new() -> (r: HotkeyMatcher)
        ensures
            r == at_rest(),
            r.state() == MatchState::Idle,
            r.wf(),
    {
        HotkeyMatcher { held: KeyModifier::new(), matching: false, circuit_break: false }
    }

    /// Where the matcher stands.
    pub fn current_state(&self) -> (r: MatchState)
        ensures
            r == self.state(),
    {
        if self.circuit_break {
            MatchState::CircuitBroken
        } else if self.matching {
            MatchState::Matching
        } else {
            MatchState::Idle
        }
    }

    /// Takes one event in and says whether it fires the toggle.
    pub fn observe(
        &mut self,
        hotkey: &Hotkey,
        kind: EventTapType,
        key: Option<char>,
        modifiers: KeyModifier,
    ) -> (fired: bool)
        ensures
            fired == old(self).fires(kind, modifiers),
            *final(self) == old(self).step(*hotkey, kind, key, modifiers),
    {
        let mut fired = false;
        if kind == EventTapType::FlagsChanged {
            if modifiers.is_empty() {
                fired = self.matching && !self.circuit_break;
                self.held = modifiers;
                self.matching = false;
                self.circuit_break = false;
            } else {
                self.held.insert(modifiers);
            }
        }
        let matched = hotkey.is_match(self.held, key);
        if self.matching && !matched {
            self.circuit_break = true;
        }
        self.matching = matched;
        fired
    }
}

/// The matcher after a sequence of events.
pub open spec fn run(matcher: HotkeyMatcher, hotkey: Hotkey, events: Seq<RawKeyEvent>) -> HotkeyMatcher
    decreases events.len(),
{
    if events.len() == 0 {
        matcher
    } else {
        let e = events[0];
        run(matcher.step(hotkey, e.kind, key_char(e.key), e.modifiers), hotkey, events.skip(1))
    }
}

/// How often a sequence of events fires the toggle.
pub open spec fn toggles(matcher: HotkeyMatcher, hotkey: Hotkey, events: Seq<RawKeyEvent>) -> nat
    decreases events.len(),
{
    if events.len() == 0 {
        0
    } else {
        let e = events[0];
        let rest = toggles(
            matcher.step(hotkey, e.kind, key_char(e.key), e.modifiers),
            hotkey,
            events.skip(1),
        );
        if matcher.fires(e.kind, e.modifiers) {
            rest + 1
        } else {
            rest
        }
    }
}

/// The matcher at rest.
pub open spec fn at_rest() -> HotkeyMatcher {
    HotkeyMatcher { held: KeyModifier { bits: 0 }, matching: false, circuit_break: false }
}

/// The event that reports `modifiers` as held, with no key.
pub open spec fn flags_changed(modifiers: KeyModifier) -> RawKeyEvent {
    RawKeyEvent { kind: EventTapType::FlagsChanged, key: None, modifiers }
}

/// The event of the key `c` going down while `modifiers` are held.
pub open spec fn key_down(c: char, modifiers: KeyModifier) -> RawKeyEvent {
    RawKeyEvent { kind: EventTapType::KeyDown, key: Some(PressedKey::Char(c)), modifiers }
}

/// Adding modifiers to none gives those modifiers.
pub proof fn lemma_union_with_none(modifiers: KeyModifier)
    ensures
        (KeyModifier { bits: 0 }).union(modifiers) == modifiers,
{
    let bits = modifiers.bits;
    assert(0u32 | bits == bits) by (bit_vector);
}

/// A hotkey of modifiers alone, pressed and released with nothing in
/// between, fires the toggle exactly once and leaves the matcher at rest.
pub proof fn lemma_press_and_release_fires_once(hotkey: Hotkey)
    requires
        hotkey.wf(),
        hotkey.key.is_none(),
    ensures
        toggles(
            at_rest(),
            hotkey,
            seq![flags_changed(hotkey.modifiers), flags_changed(KeyModifier { bits: 0 })],
        ) == 1,
        run(
            at_rest(),
            hotkey,
            seq![flags_changed(hotkey.modifiers), flags_changed(KeyModifier { bits: 0 })],
        ) == at_rest(),
{
    lemma_union_with_none(hotkey.modifiers);
    reveal_with_fuel(toggles, 3);
    reveal_with_fuel(run, 3);
}

/// A hotkey of modifiers alone, pressed and followed by a key before the
/// release, fires nothing: the chord was the beginning of another shortcut.
pub proof fn lemma_chord_with_a_key_fires_nothing(hotkey: Hotkey, c: char)
    requires
        hotkey.wf(),
        hotkey.key.is_none(),
    ensures
        toggles(
            at_rest(),
            hotkey,
            seq![
                flags_changed(hotkey.modifiers),
                key_down(c, hotkey.modifiers),
                flags_changed(KeyModifier { bits: 0 }),
            ],
        ) == 0,
        run(
            at_rest(),
            hotkey,
            seq![
                flags_changed(hotkey.modifiers),
                key_down(c, hotkey.modifiers),
                flags_changed(KeyModifier { bits: 0 }),
            ],
        ) == at_rest(),
{
    lemma_union_with_none(hotkey.modifiers);
    reveal_with_fuel(toggles, 4);
    reveal_with_fuel(run, 4);
}

/// While the circuit is broken nothing fires, however many events arrive,
/// up to and including the release of the last modifier.
pub proof fn lemma_broken_cycle_fires_nothing(
    matcher: HotkeyMatcher,
    hotkey: Hotkey,
    events: Seq<RawKeyEvent>,
)
    requires
        matcher.state() == MatchState::CircuitBroken,
        forall|i: int|
            0 <= i < events.len() - 1 ==> !HotkeyMatcher::is_full_release(
                (#[trigger] events[i]).kind,
                events[i].modifiers,
            ),
    ensures
        toggles(matcher, hotkey, events) == 0,
    decreases events.len(),
{
    if events.len() > 0 {
        let e = events[0];
        let next = matcher.step(hotkey, e.kind, key_char(e.key), e.modifiers);
        let rest = events.skip(1);
        if rest.len() == 0 {
            assert(toggles(next, hotkey, rest) == 0);
        } else {
            assert forall|i: int| 0 <= i < rest.len() - 1 implies !HotkeyMatcher::is_full_release(
                (#[trigger] rest[i]).kind,
                rest[i].modifiers,
            ) by {
                assert(rest[i] == events[i + 1]);
            }
            lemma_broken_cycle_fires_nothing(next, hotkey, rest);
        }
    }
}

/// The chord can only be matched while some modifier is held: after any
/// event, a matcher for a well-formed hotkey is well-formed.
pub proof fn lemma_matching_needs_modifiers(
    m: HotkeyMatcher,
    hotkey: Hotkey,
    kind: EventTapType,
    key: Option<char>,
    modifiers: KeyModifier,
)
    requires
        hotkey.wf(),
    ensures
        m.step(hotkey, kind, key, modifiers).wf(),
{
}

/// The release of the last modifier brings the matcher to rest, whatever
/// state it was in: a circuit-broken cycle ends without firing, and the next
/// cycle starts afresh.
pub proof fn lemma_full_release_resets(
    m: HotkeyMatcher,
    hotkey: Hotkey,
    kind: EventTapType,
    key: Option<char>,
    modifiers: KeyModifier,
)
    requires
        hotkey.wf(),
        HotkeyMatcher::is_full_release(kind, modifiers),
    ensures
        m.step(hotkey, kind, key, modifiers).state() == MatchState::Idle,
        m.step(hotkey, kind, key, modifiers).held.none_held(),
        m.fires(kind, modifiers) <==> m.state() == MatchState::Matching,
{
}

/// The toggle fires on no event but the release of the last modifier, and
/// never in a cycle that was circuit-broken.
pub proof fn lemma_fires_only_on_release(
    m: HotkeyMatcher,
    kind: EventTapType,
    modifiers: KeyModifier,
)
    ensures
        m.fires(kind, modifiers) ==> kind == EventTapType::FlagsChanged && modifiers.none_held(),
        m.fires(kind, modifiers) ==> m.state() == MatchState::Matching,
        m.state() == MatchState::CircuitBroken ==> !m.fires(kind, modifiers),
{
}

/// An event that arrives while the chord is matched and does not leave
/// exactly the chord held breaks the circuit, unless it is the full release.
pub proof fn lemma_stray_event_breaks_circuit(
    m: HotkeyMatcher,
    hotkey: Hotkey,
    kind: EventTapType,
    key: Option<char>,
    modifiers: KeyModifier,
)
    requires
        m.state() == MatchState::Matching,
        !HotkeyMatcher::is_full_release(kind, modifiers),
        !hotkey.matches(m.held_after(kind, modifiers), key),
    ensures
        m.step(hotkey, kind, key, modifiers).state() == MatchState::CircuitBroken,
{
}

/// Once the circuit is broken it stays broken until the full release.
pub proof fn lemma_circuit_stays_broken(
    m: HotkeyMatcher,
    hotkey: Hotkey,
    kind: EventTapType,
    key: Option<char>,
    modifiers: KeyModifier,
)
    requires
        m.state() == MatchState::CircuitBroken,
        !HotkeyMatcher::is_full_release(kind, modifiers),
    ensures
        m.step(hotkey, kind, key, modifiers).state() == MatchState::CircuitBroken,
{
}

} // verus!
