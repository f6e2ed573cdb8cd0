//! A keybind (hotkey) capture widget for egui, with its binding types and the
//! state machine that captures the next key or mouse button.

pub mod bind;
pub mod keybind;

pub use bind::{
    Bind, Key, KeyboardShortcut, ModifierNames, Modifiers, PointerButton, Shortcut, KEY_COUNT,
};
pub use keybind::{InputEvent, Keybind, Transition};
