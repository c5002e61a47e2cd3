//! The input transformation and replay core of a Vietnamese input-method
//! engine.
//!
//! The engine sees every key event of the system, keeps the word that is
//! being typed as raw keystrokes, and rewrites what is on screen by erasing
//! and resending text. It can write to the focused application but never read
//! from it, so every count of characters to erase comes from the engine's own
//! record of what it has sent.
//!
//! All functions here are pure with respect to the outside world: they change
//! the engine's state and return the [`effects::Effect`]s that the caller has
//! to perform, in order. The transformation of raw keys into a Vietnamese
//! word is the caller's to run; the engine is handed its outcome.

pub mod config;
pub mod dispatch;
pub mod effects;
pub mod engine;
pub mod hotkey;
pub mod input;
pub mod keys;
pub mod laws;
pub mod modifiers;
pub mod replay;
pub mod text;
pub mod validation;
