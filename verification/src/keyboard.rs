//! The low-level keyboard hook: left Alt alone switches the IME off, right Alt
//! alone switches it on, and Alt together with another key keeps working as Alt.
use vstd::prelude::*;

verus! {

/// Virtual key code of the left Alt key.
pub const VK_LMENU: u32 = 0xA4;

/// Virtual key code of the right Alt key.
pub const VK_RMENU: u32 = 0xA5;

/// Virtual key code of Alt on either side.
pub const VK_MENU: u32 = 0x12;

/// Virtual key code that turns the IME off.
pub const VK_IME_OFF: u16 = 0x1A;

/// Virtual key code that turns the IME on.
pub const VK_IME_ON: u16 = 0x16;

/// Hook message: a key went down.
pub const WM_KEYDOWN: u32 = 0x100;

/// Hook message: a key went up.
pub const WM_KEYUP: u32 = 0x101;

/// Hook message: a key went down while Alt is held (or F10).
pub const WM_SYSKEYDOWN: u32 = 0x104;

/// Hook message: a key that went down while Alt was held went up.
pub const WM_SYSKEYUP: u32 = 0x105;

/// Event flag: the event was injected by a program (such as `SendInput`).
pub const LLKHF_INJECTED: u32 = 0x10;

/// What the hook remembers between events.
#[derive(Clone, Copy, PartialEq, Eq, Structural, Debug)]
pub struct HookState {
    /// Alt -> IME switching is on (it can be turned off from the tray menu).
    pub alt_ime_enabled: bool,
    /// The Alt key held now has been used together with another key.
    pub is_combination: bool,
    /// The left Alt key is held.
    pub lalt_pressed: bool,
    /// The right Alt key is held.
    pub ralt_pressed: bool,
}

/// One event of the low-level keyboard hook.
#[derive(Clone, Copy, PartialEq, Eq, Structural, Debug)]
pub struct KeyEvent {
    /// The hook code; below 0 the event must be passed on untouched.
    pub n_code: i32,
    /// The message: key down or up, system or not.
    pub w_param: usize,
    /// The virtual key code.
    pub vk_code: u32,
    /// The event flags.
    pub flags: u32,
}

/// One synthesized key event to inject.
#[derive(Clone, Copy, PartialEq, Eq, Structural, Debug)]
pub struct KeyStroke {
    /// The virtual key code.
    pub vk: u16,
    /// A key release (else a key press).
    pub key_up: bool,
}

/// What becomes of the event itself.
#[derive(Clone, Copy, PartialEq, Eq, Structural, Debug)]
pub enum HookVerdict {
    /// Hand the event on to the next hook.
    PassOn,
    /// Swallow the event.
    Consume,
}

/// The hook's answer to one event.
pub struct HookAction {
    /// Key events to inject, in this order, before answering.
    pub inject: Vec<KeyStroke>,
    /// What becomes of the event.
    pub verdict: HookVerdict,
}

/// The state at start-up: switching on, no Alt key held.
pub open spec fn initial_hook_state() -> HookState {
    HookState {
        alt_ime_enabled: true,
        is_combination: false,
        lalt_pressed: false,
        ralt_pressed: false,
    }
}

impl HookState {
    /// The state at start-up: switching on, no Alt key held.
    pub fn new() -> (s: HookState)
        ensures
            s == initial_hook_state(),
    {
        HookState {
            alt_ime_enabled: true,
            is_combination: false,
            lalt_pressed: false,
            ralt_pressed: false,
        }
    }
}

/// A press of `vk`.
pub open spec fn press(vk: u16) -> KeyStroke {
    KeyStroke { vk, key_up: false }
}

/// A press of `vk` followed by its release.
pub open spec fn tap(vk: u16) -> Seq<KeyStroke> {
    seq![press(vk), KeyStroke { vk, key_up: true }]
}

/// The message is a key press.
pub open spec fn is_key_down(w_param: usize) -> bool {
    w_param == WM_KEYDOWN as usize || w_param == WM_SYSKEYDOWN as usize
}

/// The message is a key release.
pub open spec fn is_key_up(w_param: usize) -> bool {
    w_param == WM_KEYUP as usize || w_param == WM_SYSKEYUP as usize
}

/// The event was injected by a program.
pub open spec fn is_injected(flags: u32) -> bool {
    flags & LLKHF_INJECTED != 0
}

/// The key is one of the two Alt keys.
pub open spec fn is_side_alt(vk: u32) -> bool {
    vk == VK_LMENU || vk == VK_RMENU
}

/// The hook looks at the event: its code allows it, it comes from the
/// keyboard, and switching is on.
pub open spec fn looks_at(s: HookState, ev: KeyEvent) -> bool {
    ev.n_code >= 0 && !is_injected(ev.flags) && s.alt_ime_enabled
}

/// The event starts a press of an Alt key that was not held: only then does
/// the hook ask whether another key is held.
pub open spec fn starts_alt_press(s: HookState, ev: KeyEvent) -> bool {
    &&& looks_at(s, ev)
    &&& is_key_down(ev.w_param)
    &&& ((ev.vk_code == VK_LMENU && !s.lalt_pressed) || (ev.vk_code == VK_RMENU
        && !s.ralt_pressed))
}

/// The hook's step: the next state, the keys to inject and the verdict, given
/// whether a key other than Alt is held now (read only when `starts_alt_press`).
pub open spec fn hook_step(s: HookState, ev: KeyEvent, other_key_held: bool) -> (
    HookState,
    Seq<KeyStroke>,
    HookVerdict,
) {
    if !looks_at(s, ev) {
        (s, Seq::empty(), HookVerdict::PassOn)
    } else if is_key_down(ev.w_param) {
        if ev.vk_code == VK_LMENU {
            if !s.lalt_pressed {
                (
                    HookState { is_combination: other_key_held, lalt_pressed: true, ..s },
                    Seq::empty(),
                    if other_key_held {
                        HookVerdict::PassOn
                    } else {
                        HookVerdict::Consume
                    },
                )
            } else {
                (s, Seq::empty(), HookVerdict::Consume)
            }
        } else if ev.vk_code == VK_RMENU {
            if !s.ralt_pressed {
                (
                    HookState { is_combination: other_key_held, ralt_pressed: true, ..s },
                    Seq::empty(),
                    if other_key_held {
                        HookVerdict::PassOn
                    } else {
                        HookVerdict::Consume
                    },
                )
            } else {
                (s, Seq::empty(), HookVerdict::Consume)
            }
        } else if s.lalt_pressed || s.ralt_pressed {
            let alt = if s.lalt_pressed {
                VK_LMENU as u16
            } else {
                VK_RMENU as u16
            };
            (HookState { is_combination: true, ..s }, seq![press(alt)], HookVerdict::PassOn)
        } else {
            (s, Seq::empty(), HookVerdict::PassOn)
        }
    } else if is_key_up(ev.w_param) && is_side_alt(ev.vk_code) {
        let t = HookState {
            lalt_pressed: if ev.vk_code == VK_LMENU {
                false
            } else {
                s.lalt_pressed
            },
            ralt_pressed: if ev.vk_code == VK_RMENU {
                false
            } else {
                s.ralt_pressed
            },
            ..s
        };
        if !s.is_combination {
            (
                t,
                tap(
                    if ev.vk_code == VK_LMENU {
                        VK_IME_OFF
                    } else {
                        VK_IME_ON
                    },
                ),
                HookVerdict::Consume,
            )
        } else {
            (t, Seq::empty(), HookVerdict::PassOn)
        }
    } else {
        (s, Seq::empty(), HookVerdict::PassOn)
    }
}

/// True when the hook must know whether another key is held to answer `ev`.
pub fn needs_key_state(state: &HookState, ev: &KeyEvent) -> (needed: bool)
    ensures
        needed == starts_alt_press(*state, *ev),
{
    ev.n_code >= 0 && ev.flags & LLKHF_INJECTED == 0 && state.alt_ime_enabled && (ev.w_param
        == WM_KEYDOWN as usize || ev.w_param == WM_SYSKEYDOWN as usize) && ((ev.vk_code
        == VK_LMENU && !state.lalt_pressed) || (ev.vk_code == VK_RMENU && !state.ralt_pressed))
}

/// The key press and release of `vk`, in this order.
pub fn key_press_strokes(vk: u16) -> (strokes: Vec<KeyStroke>)
    ensures
        strokes@ == tap(vk),
{
    let mut strokes: Vec<KeyStroke> = Vec::new();
    strokes.push(KeyStroke { vk, key_up: false });
    strokes.push(KeyStroke { vk, key_up: true });
    assert(strokes@ =~= tap(vk));
    strokes
}

/// Answer one hook event and update the hook's state. `other_key_held` tells
/// whether a key other than Alt is held now; it is read only when
/// `needs_key_state` is true.
pub fn keyboard_proc(state: &mut HookState, ev: &KeyEvent, other_key_held: bool) -> (action:
    HookAction)
    ensures
        hook_step(*old(state), *ev, other_key_held) == (
            *final(state),
            action.inject@,
            action.verdict,
        ),
{
    let none: Vec<KeyStroke> = Vec::new();
    if ev.n_code < 0 || ev.flags & LLKHF_INJECTED != 0 || !state.alt_ime_enabled {
        return HookAction { inject: none, verdict: HookVerdict::PassOn };
    }
    let vk = ev.vk_code;
    if ev.w_param == WM_KEYDOWN as usize || ev.w_param == WM_SYSKEYDOWN as usize {
        if vk == VK_LMENU {
            if !state.lalt_pressed {
                state.is_combination = other_key_held;
                state.lalt_pressed = true;
                if other_key_held {
                    return HookAction { inject: none, verdict: HookVerdict::PassOn };
                }
            }
            return HookAction { inject: none, verdict: HookVerdict::Consume };
        } else if vk == VK_RMENU {
            if !state.ralt_pressed {
                state.is_combination = other_key_held;
                state.ralt_pressed = true;
                if other_key_held {
                    return HookAction { inject: none, verdict: HookVerdict::PassOn };
                }
            }
            return HookAction { inject: none, verdict: HookVerdict::Consume };
        } else {
            if state.lalt_pressed || state.ralt_pressed {
                state.is_combination = true;
                let active_alt: u16 = if state.lalt_pressed {
                    VK_LMENU as u16
                } else {
                    VK_RMENU as u16
                };
                let mut inject: Vec<KeyStroke> = Vec::new();
                inject.push(KeyStroke { vk: active_alt, key_up: false });
                assert(inject@ =~= seq![press(active_alt)]);
                return HookAction { inject, verdict: HookVerdict::PassOn };
            }
        }
    }
    if ev.w_param == WM_KEYUP as usize || ev.w_param == WM_SYSKEYUP as usize {
        if vk == VK_LMENU || vk == VK_RMENU {
            let was_combination = state.is_combination;
            if vk == VK_LMENU {
                state.lalt_pressed = false;
            }
            if vk == VK_RMENU {
                state.ralt_pressed = false;
            }
            if !was_combination {
                let ime = if vk == VK_LMENU {
                    VK_IME_OFF
                } else {
                    VK_IME_ON
                };
                return HookAction { inject: key_press_strokes(ime), verdict: HookVerdict::Consume };
            }
        }
    }
    HookAction { inject: none, verdict: HookVerdict::PassOn }
}

/// Keys that are never counted as "another key": Alt on either side.
pub open spec fn is_alt_vk(vk: int) -> bool {
    vk == VK_MENU || vk == VK_LMENU || vk == VK_RMENU
}

/// A key state as the system reports it: the key is down now when the most
/// significant bit is set.
pub open spec fn key_is_down(state: i16) -> bool {
    state < 0
}

/// Some keyboard key other than Alt is down: keys 0x08 to 0xFE (0x01 to 0x07
/// are mouse buttons).
pub open spec fn other_key_down(key_states: Seq<i16>) -> bool {
    exists|vk: int| 0x08 <= vk <= 0xFE && !is_alt_vk(vk) && #[trigger] key_is_down(key_states[vk])
}

/// True if a key other than Alt is down, given the state of each virtual key
/// (indexed by key code).
pub fn is_other_key_pressed(key_states: &[i16]) -> (pressed: bool)
    requires
        key_states@.len() > 0xFE,
    ensures
        pressed == other_key_down(key_states@),
{
    let mut vk: usize = 0x08;
    while vk <= 0xFE
        invariant
            0x08 <= vk <= 0xFF,
            key_states@.len() > 0xFE,
            forall|k: int| 0x08 <= k < vk && !is_alt_vk(k) ==> !key_is_down(key_states@[k]),
        decreases 0xFF - vk,
    {
        if !(vk == VK_MENU as usize || vk == VK_LMENU as usize || vk == VK_RMENU as usize) {
            let s = key_states[vk];
            let down = (s as u16) & 0x8000 != 0;
            assert(down == (s < 0)) by (bit_vector)
                requires
                    down == ((s as u16) & 0x8000 != 0),
            ;
            if down {
                assert(key_is_down(key_states@[vk as int]));
                return true;
            }
        }
        vk = vk + 1;
    }
    false
}

// ---------------------------------------------------------------------------
// Laws
// ---------------------------------------------------------------------------

/// A hook event from the keyboard, with a code that lets the hook act on it.
pub open spec fn keyboard_event(ev: KeyEvent) -> bool {
    ev.n_code >= 0 && !is_injected(ev.flags)
}

/// Whether another key is held matters only for the events of `starts_alt_press`.
pub proof fn lemma_key_state_read_only_when_needed(s: HookState, ev: KeyEvent)
    requires
        !starts_alt_press(s, ev),
    ensures
        hook_step(s, ev, true) == hook_step(s, ev, false),
{
}

/// Injected events, events with a negative code, and all events while
/// switching is off are handed on untouched, and leave the state as it was.
pub proof fn lemma_foreign_events_pass_on(s: HookState, ev: KeyEvent, other_key_held: bool)
    requires
        !looks_at(s, ev),
    ensures
        hook_step(s, ev, other_key_held) == (s, Seq::<KeyStroke>::empty(), HookVerdict::PassOn),
{
}

/// A single press of an Alt key, with no other key held, switches the IME:
/// left Alt off, right Alt on. Both Alt events are swallowed, nothing is
/// injected on the press, the IME key is tapped on the release, and the Alt
/// key is no longer held afterwards.
pub proof fn lemma_alt_tap_switches_ime(
    s: HookState,
    down: KeyEvent,
    up: KeyEvent,
    held_at_release: bool,
)
    requires
        s.alt_ime_enabled,
        keyboard_event(down),
        keyboard_event(up),
        is_key_down(down.w_param),
        is_key_up(up.w_param),
        is_side_alt(down.vk_code),
        up.vk_code == down.vk_code,
        down.vk_code == VK_LMENU ==> !s.lalt_pressed,
        down.vk_code == VK_RMENU ==> !s.ralt_pressed,
    ensures
        ({
            let (s1, keys1, verdict1) = hook_step(s, down, false);
            let (s2, keys2, verdict2) = hook_step(s1, up, held_at_release);
            &&& keys1 == Seq::<KeyStroke>::empty()
            &&& verdict1 == HookVerdict::Consume
            &&& keys2 == tap(
                if down.vk_code == VK_LMENU {
                    VK_IME_OFF
                } else {
                    VK_IME_ON
                },
            )
            &&& verdict2 == HookVerdict::Consume
            &&& !s2.is_combination
            &&& s2.alt_ime_enabled
            &&& (down.vk_code == VK_LMENU ==> !s2.lalt_pressed && s2.ralt_pressed
                == s.ralt_pressed)
            &&& (down.vk_code == VK_RMENU ==> !s2.ralt_pressed && s2.lalt_pressed
                == s.lalt_pressed)
        }),
{
}

/// Alt used with another key keeps working as Alt: the other key's press
/// re-sends the Alt press and is handed on, and the Alt release is handed on
/// without switching the IME.
pub proof fn lemma_alt_combination_keeps_shortcut(
    s: HookState,
    alt_down: KeyEvent,
    key_down: KeyEvent,
    alt_up: KeyEvent,
)
    requires
        s.alt_ime_enabled,
        !s.lalt_pressed,
        !s.ralt_pressed,
        keyboard_event(alt_down),
        keyboard_event(key_down),
        keyboard_event(alt_up),
        is_key_down(alt_down.w_param),
        is_key_down(key_down.w_param),
        is_key_up(alt_up.w_param),
        is_side_alt(alt_down.vk_code),
        !is_side_alt(key_down.vk_code),
        alt_up.vk_code == alt_down.vk_code,
    ensures
        ({
            let (s1, keys1, verdict1) = hook_step(s, alt_down, false);
            let (s2, keys2, verdict2) = hook_step(s1, key_down, false);
            let (s3, keys3, verdict3) = hook_step(s2, alt_up, false);
            &&& verdict1 == HookVerdict::Consume
            &&& keys2 == seq![press(alt_down.vk_code as u16)]
            &&& verdict2 == HookVerdict::PassOn
            &&& keys3 == Seq::<KeyStroke>::empty()
            &&& verdict3 == HookVerdict::PassOn
            &&& !s3.lalt_pressed
            &&& !s3.ralt_pressed
        }),
{
}

/// An Alt press that comes while another key is already held is a
/// combination from the start: the press and the release are handed on and
/// the IME is not switched.
pub proof fn lemma_alt_after_other_key_passes_on(s: HookState, down: KeyEvent, up: KeyEvent)
    requires
        s.alt_ime_enabled,
        keyboard_event(down),
        keyboard_event(up),
        is_key_down(down.w_param),
        is_key_up(up.w_param),
        is_side_alt(down.vk_code),
        up.vk_code == down.vk_code,
        down.vk_code == VK_LMENU ==> !s.lalt_pressed,
        down.vk_code == VK_RMENU ==> !s.ralt_pressed,
    ensures
        ({
            let (s1, keys1, verdict1) = hook_step(s, down, true);
            let (s2, keys2, verdict2) = hook_step(s1, up, false);
            &&& keys1 == Seq::<KeyStroke>::empty()
            &&& verdict1 == HookVerdict::PassOn
            &&& keys2 == Seq::<KeyStroke>::empty()
            &&& verdict2 == HookVerdict::PassOn
        }),
{
}

/// The hook never changes whether switching is on.
pub proof fn lemma_step_keeps_enabled(s: HookState, ev: KeyEvent, other_key_held: bool)
    ensures
        hook_step(s, ev, other_key_held).0.alt_ime_enabled == s.alt_ime_enabled,
{
}

// ---------------------------------------------------------------------------
// The hook's behaviour in terms of the raw event
// ---------------------------------------------------------------------------

/// The result of a step, with one field of the state replaced.
pub open spec fn with_side_pressed(s: HookState, vk: u32, combination: bool) -> HookState {
    HookState {
        alt_ime_enabled: s.alt_ime_enabled,
        is_combination: combination,
        lalt_pressed: if vk == 0xA4 {
            true
        } else {
            s.lalt_pressed
        },
        ralt_pressed: if vk == 0xA5 {
            true
        } else {
            s.ralt_pressed
        },
    }
}

/// Of the event flags only bit 0x10 (injected) matters: any other bit, such
/// as 0x01 (extended key, set for right Alt), changes nothing.
pub proof fn lemma_only_injected_flag_matters(s: HookState, ev: KeyEvent, flags: u32, held: bool)
    requires
        ev.flags & 0x10 == flags & 0x10,
    ensures
        hook_step(s, ev, held) == hook_step(s, KeyEvent { flags, ..ev }, held),
{
}

/// An event whose flags have bit 0x10 set (injected by a program), or whose
/// code is negative, is handed on untouched.
pub proof fn lemma_injected_or_negative_passes_on(s: HookState, ev: KeyEvent, held: bool)
    requires
        ev.flags & 0x10 != 0 || ev.n_code < 0,
    ensures
        hook_step(s, ev, held) == (s, Seq::<KeyStroke>::empty(), HookVerdict::PassOn),
{
}

/// While switching is off, every event is handed on untouched.
pub proof fn lemma_switched_off_passes_on(s: HookState, ev: KeyEvent, held: bool)
    requires
        !s.alt_ime_enabled,
    ensures
        hook_step(s, ev, held) == (s, Seq::<KeyStroke>::empty(), HookVerdict::PassOn),
{
}

/// A press (0x100 or 0x104) of left Alt (0xA4) or right Alt (0xA5) that was
/// not held, from the keyboard (flag 0x10 clear, whatever the other flags),
/// with switching on: the hook asks whether another key is held; if none is,
/// the press is swallowed and the Alt key is marked held with no combination;
/// if one is, the press is handed on and marked as a combination.
pub proof fn lemma_alt_press(s: HookState, ev: KeyEvent)
    requires
        s.alt_ime_enabled,
        ev.n_code >= 0,
        ev.flags & 0x10 == 0,
        ev.w_param == 0x100 || ev.w_param == 0x104,
        ev.vk_code == 0xA4 || ev.vk_code == 0xA5,
        ev.vk_code == 0xA4 ==> !s.lalt_pressed,
        ev.vk_code == 0xA5 ==> !s.ralt_pressed,
    ensures
        starts_alt_press(s, ev),
        hook_step(s, ev, false) == (
            with_side_pressed(s, ev.vk_code, false),
            Seq::<KeyStroke>::empty(),
            HookVerdict::Consume,
        ),
        hook_step(s, ev, true) == (
            with_side_pressed(s, ev.vk_code, true),
            Seq::<KeyStroke>::empty(),
            HookVerdict::PassOn,
        ),
{
}

/// A repeated press of an Alt key already held is swallowed and changes nothing.
pub proof fn lemma_alt_repeat(s: HookState, ev: KeyEvent, held: bool)
    requires
        s.alt_ime_enabled,
        ev.n_code >= 0,
        ev.flags & 0x10 == 0,
        ev.w_param == 0x100 || ev.w_param == 0x104,
        (ev.vk_code == 0xA4 && s.lalt_pressed) || (ev.vk_code == 0xA5 && s.ralt_pressed),
    ensures
        !starts_alt_press(s, ev),
        hook_step(s, ev, held) == (s, Seq::<KeyStroke>::empty(), HookVerdict::Consume),
{
}

/// A release (0x101 or 0x105) of an Alt key from the keyboard with switching
/// on: that Alt key is no longer held; without a combination the IME key is
/// tapped (0x1A, IME off, for left Alt; 0x16, IME on, for right Alt) and the
/// release is swallowed, with a combination it is handed on.
pub proof fn lemma_alt_release(s: HookState, ev: KeyEvent, held: bool)
    requires
        s.alt_ime_enabled,
        ev.n_code >= 0,
        ev.flags & 0x10 == 0,
        ev.w_param == 0x101 || ev.w_param == 0x105,
        ev.vk_code == 0xA4 || ev.vk_code == 0xA5,
    ensures
        ({
            let (t, keys, verdict) = hook_step(s, ev, held);
            let ime: u16 = if ev.vk_code == 0xA4 {
                0x1A
            } else {
                0x16
            };
            &&& t.alt_ime_enabled
            &&& t.is_combination == s.is_combination
            &&& t.lalt_pressed == (s.lalt_pressed && ev.vk_code != 0xA4)
            &&& t.ralt_pressed == (s.ralt_pressed && ev.vk_code != 0xA5)
            &&& !s.is_combination ==> keys == seq![
                KeyStroke { vk: ime, key_up: false },
                KeyStroke { vk: ime, key_up: true },
            ] && verdict == HookVerdict::Consume
            &&& s.is_combination ==> keys == Seq::<KeyStroke>::empty() && verdict
                == HookVerdict::PassOn
        }),
{
}

/// A press of any other key while an Alt key is held marks a combination,
/// re-sends the press of the held Alt key (left if it is held, else right),
/// and is handed on.
pub proof fn lemma_other_key_with_alt(s: HookState, ev: KeyEvent, held: bool)
    requires
        s.alt_ime_enabled,
        ev.n_code >= 0,
        ev.flags & 0x10 == 0,
        ev.w_param == 0x100 || ev.w_param == 0x104,
        ev.vk_code != 0xA4 && ev.vk_code != 0xA5,
        s.lalt_pressed || s.ralt_pressed,
    ensures
        hook_step(s, ev, held) == (
            HookState { is_combination: true, ..s },
            seq![
                KeyStroke {
                    vk: if s.lalt_pressed {
                        0xA4u16
                    } else {
                        0xA5u16
                    },
                    key_up: false,
                },
            ],
            HookVerdict::PassOn,
        ),
{
}

/// Any other event (a press of a key other than Alt without an Alt key held, a
/// release of a key other than Alt, any other message) is handed on and
/// changes nothing.
pub proof fn lemma_other_events_pass_on(s: HookState, ev: KeyEvent, held: bool)
    requires
        !((ev.w_param == 0x100 || ev.w_param == 0x104) && (ev.vk_code == 0xA4 || ev.vk_code == 0xA5
            || s.lalt_pressed || s.ralt_pressed)),
        !((ev.w_param == 0x101 || ev.w_param == 0x105) && (ev.vk_code == 0xA4 || ev.vk_code
            == 0xA5)),
    ensures
        hook_step(s, ev, held) == (s, Seq::<KeyStroke>::empty(), HookVerdict::PassOn),
{
}

/// A key other than Alt is down exactly when some code from 0x08 to 0xFE,
/// other than 0x12, 0xA4 and 0xA5, has its most significant bit set.
pub proof fn lemma_other_key_down_means(key_states: Seq<i16>)
    ensures
        other_key_down(key_states) <==> exists|vk: int|
            0x08 <= vk <= 0xFE && vk != 0x12 && vk != 0xA4 && vk != 0xA5 && #[trigger] key_states[vk]
                < 0,
{
    if other_key_down(key_states) {
        let vk = choose|vk: int|
            0x08 <= vk <= 0xFE && !is_alt_vk(vk) && #[trigger] key_is_down(key_states[vk]);
        assert(key_states[vk] < 0);
    }
    if exists|vk: int|
        0x08 <= vk <= 0xFE && vk != 0x12 && vk != 0xA4 && vk != 0xA5 && #[trigger] key_states[vk]
            < 0 {
        let vk = choose|vk: int|
            0x08 <= vk <= 0xFE && vk != 0x12 && vk != 0xA4 && vk != 0xA5 && #[trigger] key_states[vk]
                < 0;
        assert(key_is_down(key_states[vk]));
    }
}

/// Only the three Alt codes are ignored: a down key at any other code from
/// 0x08 to 0xFE (Shift, Ctrl, letters, ...) is another key.
pub proof fn lemma_any_non_alt_key_counts(key_states: Seq<i16>, vk: int)
    requires
        0x08 <= vk <= 0xFE,
        vk != 0x12 && vk != 0xA4 && vk != 0xA5,
        key_states[vk] < 0,
    ensures
        other_key_down(key_states),
{
    lemma_other_key_down_means(key_states);
}

/// Changing the state of an Alt key, of a mouse button (below 0x08) or of 0xFF
/// never changes the answer.
pub proof fn lemma_ignored_keys(key_states: Seq<i16>, vk: int, state: i16)
    requires
        key_states.len() > 0xFE,
        0 <= vk < key_states.len(),
        vk < 0x08 || vk > 0xFE || vk == 0x12 || vk == 0xA4 || vk == 0xA5,
    ensures
        other_key_down(key_states.update(vk, state)) == other_key_down(key_states),
{
    lemma_other_key_down_means(key_states);
    lemma_other_key_down_means(key_states.update(vk, state));
    if other_key_down(key_states) {
        let k = choose|k: int|
            0x08 <= k <= 0xFE && k != 0x12 && k != 0xA4 && k != 0xA5 && #[trigger] key_states[k] < 0;
        assert(key_states.update(vk, state)[k] < 0);
    }
    if other_key_down(key_states.update(vk, state)) {
        let k = choose|k: int|
            0x08 <= k <= 0xFE && k != 0x12 && k != 0xA4 && k != 0xA5 && #[trigger] key_states.update(
                vk,
                state,
            )[k] < 0;
        assert(key_states[k] < 0);
    }
}

/// The hook asks whether another key is held exactly for a press (0x100 or
/// 0x104) from the keyboard (flag 0x10 clear, code not negative), with
/// switching on, of left Alt (0xA4) while it is not held or of right Alt
/// (0xA5) while it is not held.
pub proof fn lemma_key_state_needed_means(s: HookState, ev: KeyEvent)
    ensures
        starts_alt_press(s, ev) <==> (s.alt_ime_enabled && ev.n_code >= 0 && ev.flags & 0x10 == 0
            && (ev.w_param == 0x100 || ev.w_param == 0x104) && ((ev.vk_code == 0xA4
            && !s.lalt_pressed) || (ev.vk_code == 0xA5 && !s.ralt_pressed))),
{
}

/// A key tap is the press of the key followed by its release.
pub proof fn lemma_tap(vk: u16)
    ensures
        tap(vk).len() == 2,
        tap(vk)[0] == (KeyStroke { vk, key_up: false }),
        tap(vk)[1] == (KeyStroke { vk, key_up: true }),
{
}

} // verus!
