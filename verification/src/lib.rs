//! Mac-like IME switching for Windows US keyboards: the decisions behind the
//! low-level keyboard hook, the tray menu, and the registry "Scancode Map"
//! that remaps CapsLock to Ctrl.
pub mod scancode;
pub mod status;
pub mod keyboard;
pub mod text;
pub mod tray;
pub mod caps_job;
