# ime-alt

Mac-like IME switching on Windows US-ASCII keyboards: left Alt alone turns the
IME off, right Alt alone turns it on, and CapsLock can be remapped to Ctrl
through the registry value "Scancode Map".

- `src/` is the library, verified with Verus:
  - `keyboard`: the low-level keyboard hook as a state machine (state, event,
    whether another key is held) -> (next state, keys to inject, verdict).
  - `scancode`: parsing and building the "Scancode Map" value, and the update
    that turns CapsLock -> Ctrl on or off.
  - `tray`: what the hidden window does with each message, the tray menu, and
    the message shown when a change of CapsLock -> Ctrl is done.
  - `caps_job`: the elevated helper's command line and exit code.
  - `status`: Win32 status codes of the registry and process calls.
  - `text`: UTF-16 encoding and decimal numbers.
- `app/main.rs` is the Windows program: the tray icon, the message loop, the
  hook, the registry and process calls, all through `windows-sys`.
