//! Key events as the event source delivers them, and the classes of
//! characters that decide how a key is handled.

use vstd::prelude::*;
use crate::modifiers::KeyModifier;

verus! {

/// The enter (return) key.
pub const KEY_ENTER: char = '\r';

/// The space bar.
pub const KEY_SPACE: char = ' ';

/// The tab key.
pub const KEY_TAB: char = '\t';

/// The delete (backspace) key.
pub const KEY_DELETE: char = '\u{8}';

/// The escape key.
pub const KEY_ESCAPE: char = '\u{1b}';

/// The globe (input source) key.
pub const RAW_KEY_GLOBE: u16 = 179;

/// The left arrow key.
pub const RAW_ARROW_LEFT: u16 = 123;

/// The right arrow key.
pub const RAW_ARROW_RIGHT: u16 = 124;

/// The down arrow key.
pub const RAW_ARROW_DOWN: u16 = 125;

/// The up arrow key.
pub const RAW_ARROW_UP: u16 = 126;

/// The kind of an intercepted event.
#[derive(Clone, Copy, Debug, PartialEq, Eq, Structural)]
pub enum EventTapType {
    /// A key went down.
    KeyDown,
    /// The set of held modifier keys changed.
    FlagsChanged,
    /// Anything else, such as a mouse click.
    Other,
}

/// The key of an event: a character, or the raw code of a key that stands
/// for none.
#[derive(Clone, Copy, Debug, PartialEq, Eq, Structural)]
pub enum PressedKey {
    Char(char),
    Raw(u16),
}

/// One intercepted event.
#[derive(Clone, Copy, Debug, PartialEq, Eq, Structural)]
pub struct RawKeyEvent {
    pub kind: EventTapType,
    pub key: Option<PressedKey>,
    /// The modifiers that are held as the event arrives.
    pub modifiers: KeyModifier,
}

/// What a character is to the engine.
#[derive(Clone, Copy, Debug, PartialEq, Eq, Structural)]
pub enum CharClass {
    /// An ASCII letter.
    Letter,
    /// An ASCII digit.
    Digit,
    /// A punctuation mark that ends the word being typed.
    Punctuation,
    /// The space character.
    Whitespace,
    /// An ASCII control character.
    Control,
    /// Every other character.
    Other,
}

/// Whether `char::is_numeric` takes the character for a number. Which
/// characters those are is Unicode's to say and is not restated here; the
/// answer depends on the character alone.
pub uninterp spec fn is_numeric_char(c: char) -> bool;

/// `char::is_numeric` says whether the character is a number by Unicode's
/// general categories, and returns for every character.
pub assume_specification[ char::is_numeric ](c: char) -> (r: bool)
    ensures
        r == is_numeric_char(c),
;

/// What the engine has found out about an event before it handles the key.
#[derive(Clone, Copy, Debug, PartialEq, Eq, Structural)]
pub struct KeyFacts {
    /// Whether the displayed word is valid Vietnamese. It is read only where
    /// the key has the word reviewed.
    pub word_is_valid: bool,
    /// Whether the character of the key is a number. It is read only where
    /// the key has a character.
    pub key_is_numeric: bool,
}

/// Whether the key has a character and the character is a number.
pub open spec fn key_is_numeric(key: Option<PressedKey>) -> bool {
    match key {
        Some(PressedKey::Char(c)) => is_numeric_char(c),
        _ => false,
    }
}

/// The character of a key, if it has one.
pub open spec fn key_char(key: Option<PressedKey>) -> Option<char> {
    match key {
        Some(PressedKey::Char(c)) => Some(c),
        _ => None,
    }
}

/// Whether `c` is one of the keys that finalize a word: enter, tab, space
/// and escape.
pub open spec fn is_boundary_key(c: char) -> bool {
    c == KEY_ENTER || c == KEY_TAB || c == KEY_SPACE || c == KEY_ESCAPE
}

/// Whether `c` is one of the marks `()[]{}<>/\!@#$%^&*-_=+|~`,.;'"`.
pub open spec fn is_word_breaking_mark(c: char) -> bool {
    c == '(' || c == ')' || c == '[' || c == ']' || c == '{' || c == '}' || c == '<' || c == '>'
        || c == '/' || c == '\\' || c == '!' || c == '@' || c == '#' || c == '$' || c == '%'
        || c == '^' || c == '&' || c == '*' || c == '-' || c == '_' || c == '=' || c == '+'
        || c == '|' || c == '~' || c == '`' || c == ',' || c == '.' || c == ';' || c == '\''
        || c == '"'
}

/// Whether `c` is one of the digits `0` to `9`.
pub open spec fn is_ascii_digit(c: char) -> bool {
    '0' <= c <= '9'
}

/// Whether `c` is one of the letters `a` to `z` and `A` to `Z`.
pub open spec fn is_ascii_letter(c: char) -> bool {
    ('a' <= c <= 'z') || ('A' <= c <= 'Z')
}

/// Whether `c` is an ASCII control character.
pub open spec fn is_ascii_control(c: char) -> bool {
    c < ' ' || c == '\u{7f}'
}

/// The class of `c`.
pub open spec fn char_class(c: char) -> CharClass {
    if is_ascii_control(c) {
        CharClass::Control
    } else if c == ' ' {
        CharClass::Whitespace
    } else if is_ascii_digit(c) {
        CharClass::Digit
    } else if is_ascii_letter(c) {
        CharClass::Letter
    } else if is_word_breaking_mark(c) {
        CharClass::Punctuation
    } else {
        CharClass::Other
    }
}

/// `c` with an ASCII lower-case letter replaced by its upper-case form.
pub open spec fn ascii_upper(c: char) -> char {
    if 'a' <= c <= 'z' {
        ((c as u8) - 32) as char
    } else {
        c
    }
}

/// The character of a key, if it has one.
pub fn pressed_char(key: Option<PressedKey>) -> (r: Option<char>)
    ensures
        r == key_char(key),
{
    match key {
        Some(PressedKey::Char(c)) => Some(c),
        _ => None,
    }
}

/// Whether the key has a character and the character is a number.
pub fn numeric_key(key: Option<PressedKey>) -> (r: bool)
    ensures
        r == key_is_numeric(key),
{
    match key {
        Some(PressedKey::Char(c)) => c.is_numeric(),
        _ => false,
    }
}

/// Whether `c` is one of the keys that finalize a word.
pub fn boundary_key(c: char) -> (r: bool)
    ensures
        r == is_boundary_key(c),
{
    c == KEY_ENTER || c == KEY_TAB || c == KEY_SPACE || c == KEY_ESCAPE
}

/// The class of `c`.
pub fn classify(c: char) -> (r: CharClass)
    ensures
        r == char_class(c),
{
    if c < ' ' || c == '\u{7f}' {
        CharClass::Control
    } else if c == ' ' {
        CharClass::Whitespace
    } else if '0' <= c && c <= '9' {
        CharClass::Digit
    } else if ('a' <= c && c <= 'z') || ('A' <= c && c <= 'Z') {
        CharClass::Letter
    } else if c == '(' || c == ')' || c == '[' || c == ']' || c == '{' || c == '}' || c == '<'
        || c == '>' || c == '/' || c == '\\' || c == '!' || c == '@' || c == '#' || c == '$'
        || c == '%' || c == '^' || c == '&' || c == '*' || c == '-' || c == '_' || c == '='
        || c == '+' || c == '|' || c == '~' || c == '`' || c == ',' || c == '.' || c == ';'
        || c == '\'' || c == '"' {
        CharClass::Punctuation
    } else {
        CharClass::Other
    }
}

/// `c` in upper case, if it is an ASCII lower-case letter; `c` itself otherwise.
pub fn to_ascii_uppercase(c: char) -> (r: char)
    ensures
        r == ascii_upper(c),
{
    if 'a' <= c && c <= 'z' {
        let b: u8 = c as u8;
        (b - 32) as char
    } else {
        c
    }
}

} // verus!
