//! The configuration that the engine reads and never writes.

use vstd::prelude::*;
use crate::hotkey::Hotkey;
use crate::text::{contains_word, words};

verus! {

/// A macro: typing `trigger` and finalizing it with a boundary key puts
/// `target` in its place.
#[derive(Clone, Debug)]
pub struct MacroEntry {
    pub trigger: String,
    pub target: String,
}

/// Whether the engine is to be on while the application `app_id` is in the
/// foreground.
#[derive(Clone, Debug)]
pub struct AppRule {
    pub app_id: String,
    pub enabled: bool,
}

#[derive(Clone, Debug)]
pub struct EngineConfig {
    /// Whether the engine is on in an application that no rule names.
    pub default_enabled: bool,
    /// Whether a change of the foreground application switches the engine.
    pub auto_toggle_enabled: bool,
    /// The chord that toggles the engine.
    pub hotkey: Hotkey,
    /// The macros; of two with the same trigger the first counts.
    pub macro_table: Vec<MacroEntry>,
    /// Words that are left as they were transformed although they are no
    /// valid Vietnamese.
    pub allowed_words: Vec<String>,
    /// Words that are not worth remembering as the previous word.
    pub stop_tracking_words: Vec<String>,
    /// The rules of `auto_toggle_enabled`; of two for the same application
    /// the first counts.
    pub app_rules: Vec<AppRule>,
    /// The applications in which a suggestion may be selected without the
    /// engine knowing, and has to be dismissed before each replay.
    pub dismiss_selection_apps: Vec<String>,
}

/// What an [`EngineConfig`] holds.
pub struct ConfigModel {
    pub default_enabled: bool,
    pub auto_toggle_enabled: bool,
    pub hotkey: Hotkey,
    pub macro_table: Seq<(Seq<char>, Seq<char>)>,
    pub allowed_words: Seq<Seq<char>>,
    pub stop_tracking_words: Seq<Seq<char>>,
    pub app_rules: Seq<(Seq<char>, bool)>,
    pub dismiss_selection_apps: Seq<Seq<char>>,
}

/// The value of the first entry of `table` whose key is `key`.
pub open spec fn first_match<V>(table: Seq<(Seq<char>, V)>, key: Seq<char>) -> Option<V>
    decreases table.len(),
{
    if table.len() == 0 {
        None
    } else if table[0].0 == key {
        Some(table[0].1)
    } else {
        first_match(table.skip(1), key)
    }
}

/// `first_match` finds the entry at `i` if no entry before it has the key.
pub proof fn lemma_first_match_at<V>(table: Seq<(Seq<char>, V)>, key: Seq<char>, i: int)
    requires
        0 <= i < table.len(),
        table[i].0 == key,
        forall|j: int| 0 <= j < i ==> table[j].0 != key,
    ensures
        first_match(table, key) == Some(table[i].1),
    decreases i,
{
    if i > 0 {
        lemma_first_match_at(table.skip(1), key, i - 1);
    }
}

/// `first_match` finds nothing if no entry has the key.
pub proof fn lemma_first_match_none<V>(table: Seq<(Seq<char>, V)>, key: Seq<char>)
    requires
        forall|j: int| 0 <= j < table.len() ==> table[j].0 != key,
    ensures
        first_match(table, key).is_none(),
    decreases table.len(),
{
    if table.len() > 0 {
        lemma_first_match_none(table.skip(1), key);
    }
}

impl View for MacroEntry {
    type V = (Seq<char>, Seq<char>);

    open spec fn view(&self) -> (Seq<char>, Seq<char>) {
        (self.trigger@, self.target@)
    }
}

impl View for AppRule {
    type V = (Seq<char>, bool);

    open spec fn view(&self) -> (Seq<char>, bool) {
        (self.app_id@, self.enabled)
    }
}

impl View for EngineConfig {
    type V = ConfigModel;

    open spec fn view(&self) -> ConfigModel {
        ConfigModel {
            default_enabled: self.default_enabled,
            auto_toggle_enabled: self.auto_toggle_enabled,
            hotkey: self.hotkey,
            macro_table: self.macro_table@.map_values(|e: MacroEntry| e@),
            allowed_words: words(self.allowed_words@),
            stop_tracking_words: words(self.stop_tracking_words@),
            app_rules: self.app_rules@.map_values(|r: AppRule| r@),
            dismiss_selection_apps: words(self.dismiss_selection_apps@),
        }
    }
}

impl ConfigModel {
    /// The configuration is usable if its hotkey is.
    pub open spec fn wf(self) -> bool {
        self.hotkey.wf()
    }

    /// What the macro table puts in the place of `word`.
    pub open spec fn macro_target(self, word: Seq<char>) -> Option<Seq<char>> {
        first_match(self.macro_table, word)
    }

    /// Whether the engine is to be on in the application `app_id`.
    pub open spec fn desired_enabled(self, app_id: Seq<char>) -> bool {
        match first_match(self.app_rules, app_id) {
            Some(enabled) => enabled,
            None => self.default_enabled,
        }
    }
}

impl EngineConfig {
    /// A configuration with the given hotkey, with the engine on by default,
    /// and with nothing else in it.
    pub fn new(hotkey: Hotkey) -> (r: EngineConfig)
        ensures
            r@.hotkey == hotkey,
            r@.default_enabled,
            !r@.auto_toggle_enabled,
            r@.macro_table.len() == 0,
            r@.allowed_words.len() == 0,
            r@.stop_tracking_words.len() == 0,
            r@.app_rules.len() == 0,
            r@.dismiss_selection_apps.len() == 0,
    {
        EngineConfig {
            default_enabled: true,
            auto_toggle_enabled: false,
            hotkey,
            macro_table: Vec::new(),
            allowed_words: Vec::new(),
            stop_tracking_words: Vec::new(),
            app_rules: Vec::new(),
            dismiss_selection_apps: Vec::new(),
        }
    }

    /// The target of the first macro whose trigger is `word`.
    pub fn get_macro_target(&self, word: &String) -> (r: Option<&String>)
        ensures
            r.is_some() == self@.macro_target(word@).is_some(),
            r matches Some(t) ==> self@.macro_target(word@) == Some(t@),
    {
        let mut i: usize = 0;
        while i < self.macro_table.len()
            invariant
                i <= self.macro_table.len(),
                forall|j: int| 0 <= j < i ==> self@.macro_table[j].0 != word@,
            decreases self.macro_table.len() - i,
        {
            if self.macro_table[i].trigger == *word {
                proof {
                    lemma_first_match_at(self@.macro_table, word@, i as int);
                }
                return Some(&self.macro_table[i].target);
            }
            i += 1;
        }
        proof {
            lemma_first_match_none(self@.macro_table, word@);
        }
        None
    }

    /// Whether the engine is to be on in the application `app_id`: what the
    /// first rule for it says, or the default if there is none.
    pub fn desired_enabled(&self, app_id: &String) -> (r: bool)
        ensures
            r == self@.desired_enabled(app_id@),
    {
        let mut i: usize = 0;
        while i < self.app_rules.len()
            invariant
                i <= self.app_rules.len(),
                forall|j: int| 0 <= j < i ==> self@.app_rules[j].0 != app_id@,
            decreases self.app_rules.len() - i,
        {
            if self.app_rules[i].app_id == *app_id {
                proof {
                    lemma_first_match_at(self@.app_rules, app_id@, i as int);
                }
                return self.app_rules[i].enabled;
            }
            i += 1;
        }
        proof {
            lemma_first_match_none(self@.app_rules, app_id@);
        }
        self.default_enabled
    }

    /// Whether `word` is on the list of allowed words.
    pub fn is_allowed_word(&self, word: &String) -> (r: bool)
        ensures
            r == self@.allowed_words.contains(word@),
    {
        contains_word(&self.allowed_words, word)
    }

    /// Whether `word` is on the list of words not worth remembering.
    pub fn is_stop_tracking_word(&self, word: &String) -> (r: bool)
        ensures
            r == self@.stop_tracking_words.contains(word@),
    {
        contains_word(&self.stop_tracking_words, word)
    }

    /// Whether a hidden selection has to be dismissed in the application
    /// `app_id`.
    pub fn dismisses_selection_in(&self, app_id: &String) -> (r: bool)
        ensures
            r == self@.dismiss_selection_apps.contains(app_id@),
    {
        contains_word(&self.dismiss_selection_apps, app_id)
    }
}

} // verus!
