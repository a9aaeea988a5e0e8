//! The hidden window behind the tray icon: which message leads to what, the
//! tray menu, and the message shown when changing CapsLock -> Ctrl is done.
use vstd::prelude::*;
use crate::keyboard::{hook_step, HookState, HookVerdict, KeyEvent, KeyStroke};
use crate::status::ERROR_CANCELLED;
use crate::text::{append_decimal, decimal};

verus! {

/// First message number free for a program's own messages.
pub const WM_USER: u32 = 0x400;

/// Notification from the tray icon (lParam low word: the mouse event).
pub const WM_MY_TRAYICON: u32 = WM_USER + 1;

/// Changing CapsLock -> Ctrl is done (wParam: Win32 error code, 0 = success;
/// lParam: 1 = enabled, 0 = disabled).
pub const WM_CAPS_DONE: u32 = WM_USER + 2;

/// The window is being destroyed.
pub const WM_DESTROY: u32 = 0x2;

/// A menu item was chosen (wParam: its id).
pub const WM_COMMAND: u32 = 0x111;

/// The right mouse button went up.
pub const WM_RBUTTONUP: u32 = 0x205;

/// Menu item: exit.
pub const IDM_EXIT: usize = 1001;

/// Menu item: toggle Alt -> IME.
pub const IDM_ALT_IME: usize = 1002;

/// Menu item: toggle CapsLock -> Ctrl.
pub const IDM_CAPS_CTRL: usize = 1003;

/// Menu item flag: a text item.
pub const MF_STRING: u32 = 0x0;

/// Menu item flag: checked.
pub const MF_CHECKED: u32 = 0x8;

/// Menu item flag: not checked.
pub const MF_UNCHECKED: u32 = 0x0;

/// Menu item flag: grayed out, cannot be chosen.
pub const MF_GRAYED: u32 = 0x1;

/// Menu item flag: a separator line.
pub const MF_SEPARATOR: u32 = 0x800;

/// Message box style: an OK button.
pub const MB_OK: u32 = 0x0;

/// Message box style: error icon.
pub const MB_ICONERROR: u32 = 0x10;

/// Message box style: warning icon.
pub const MB_ICONWARNING: u32 = 0x30;

/// Message box style: information icon.
pub const MB_ICONINFORMATION: u32 = 0x40;

/// Message box style: bring the box to the foreground.
pub const MB_SETFOREGROUND: u32 = 0x10000;

/// What the window does with a message.
pub enum WindowAction {
    /// Nothing more to do: answer 0.
    Handled,
    /// Show the tray menu (see `tray_menu`), then answer 0.
    ShowTrayMenu,
    /// End the message loop, then answer 0.
    Quit,
    /// Start changing CapsLock -> Ctrl to the opposite of what the registry
    /// holds now, then answer 0.
    ToggleCapsCtrl,
    /// Show this message box, then mark the change of CapsLock -> Ctrl as
    /// finished and answer 0.
    ReportCapsResult { text: String, style: u32 },
    /// Leave the message to the default window procedure.
    Default,
}

/// The hook state after Alt -> IME is toggled from the menu: switching flips,
/// and no half-processed Alt press is left behind.
pub open spec fn toggled_alt_ime(s: HookState) -> HookState {
    HookState {
        alt_ime_enabled: !s.alt_ime_enabled,
        is_combination: false,
        lalt_pressed: false,
        ralt_pressed: false,
    }
}

/// The text shown when changing CapsLock -> Ctrl is done.
pub open spec fn caps_result_text(code: u32, enabled: bool) -> Seq<char> {
    if code == 0 {
        "CapsLock -> Ctrl has been "@ + (if enabled {
            "enabled"@
        } else {
            "disabled"@
        }) + ".\nSign out or restart Windows to apply the change."@
    } else if code == ERROR_CANCELLED {
        "Administrator permission was not granted.\nThe setting was not changed."@
    } else {
        "Failed to change the setting. (error code: "@ + decimal(code as nat) + ")"@
    }
}

/// The icon shown with it: information on success, a warning when the user
/// declined, an error otherwise.
pub open spec fn caps_result_icon(code: u32) -> u32 {
    if code == 0 {
        MB_ICONINFORMATION
    } else if code == ERROR_CANCELLED {
        MB_ICONWARNING
    } else {
        MB_ICONERROR
    }
}

/// The text of the message shown when changing CapsLock -> Ctrl is done.
pub fn caps_result_message(code: u32, enabled: bool) -> (text: String)
    ensures
        text@ == caps_result_text(code, enabled),
{
    if code == 0 {
        let mut text = String::from_str("CapsLock -> Ctrl has been ");
        text.append(
            if enabled {
                "enabled"
            } else {
                "disabled"
            },
        );
        text.append(".\nSign out or restart Windows to apply the change.");
        text
    } else if code == ERROR_CANCELLED {
        String::from_str("Administrator permission was not granted.\nThe setting was not changed.")
    } else {
        let mut text = String::from_str("Failed to change the setting. (error code: ");
        append_decimal(&mut text, code);
        text.append(")");
        text
    }
}

/// The icon of that message.
pub fn caps_result_icon_of(code: u32) -> (icon: u32)
    ensures
        icon == caps_result_icon(code),
{
    if code == 0 {
        MB_ICONINFORMATION
    } else if code == ERROR_CANCELLED {
        MB_ICONWARNING
    } else {
        MB_ICONERROR
    }
}

/// Decide what the window does with a message, and update the hook state
/// when Alt -> IME is toggled from the menu.
pub fn window_proc(state: &mut HookState, msg: u32, w_param: usize, l_param: isize) -> (action:
    WindowAction)
    ensures
        msg == WM_COMMAND && w_param == IDM_ALT_IME ==> *final(state) == toggled_alt_ime(
            *old(state),
        ),
        !(msg == WM_COMMAND && w_param == IDM_ALT_IME) ==> *final(state) == *old(state),
        msg == WM_MY_TRAYICON ==> action == (if (l_param & 0xFFFF) as u32 == WM_RBUTTONUP {
            WindowAction::ShowTrayMenu
        } else {
            WindowAction::Handled
        }),
        msg == WM_COMMAND ==> action == (if w_param == IDM_EXIT {
            WindowAction::Quit
        } else if w_param == IDM_CAPS_CTRL {
            WindowAction::ToggleCapsCtrl
        } else {
            WindowAction::Handled
        }),
        msg == WM_CAPS_DONE ==> (action matches WindowAction::ReportCapsResult { text, style }
            && text@ == caps_result_text(w_param as u32, l_param != 0) && style == MB_OK
            | caps_result_icon(w_param as u32) | MB_SETFOREGROUND),
        msg == WM_DESTROY ==> action == WindowAction::Quit,
        msg != WM_MY_TRAYICON && msg != WM_COMMAND && msg != WM_CAPS_DONE && msg != WM_DESTROY
            ==> action == WindowAction::Default,
{
    if msg == WM_MY_TRAYICON {
        let event = (l_param & 0xFFFF) as u32;
        if event == WM_RBUTTONUP {
            WindowAction::ShowTrayMenu
        } else {
            WindowAction::Handled
        }
    } else if msg == WM_COMMAND {
        if w_param == IDM_EXIT {
            WindowAction::Quit
        } else if w_param == IDM_ALT_IME {
            state.alt_ime_enabled = !state.alt_ime_enabled;
            state.is_combination = false;
            state.lalt_pressed = false;
            state.ralt_pressed = false;
            WindowAction::Handled
        } else if w_param == IDM_CAPS_CTRL {
            WindowAction::ToggleCapsCtrl
        } else {
            WindowAction::Handled
        }
    } else if msg == WM_CAPS_DONE {
        let code = w_param as u32;
        let enabled = l_param != 0;
        let text = caps_result_message(code, enabled);
        let style = MB_OK | caps_result_icon_of(code) | MB_SETFOREGROUND;
        WindowAction::ReportCapsResult { text, style }
    } else if msg == WM_DESTROY {
        WindowAction::Quit
    } else {
        WindowAction::Default
    }
}

/// One item of the tray menu.
pub struct MenuItem {
    /// `MF_*` flags.
    pub flags: u32,
    /// The id that `WM_COMMAND` reports when the item is chosen (0 for a separator).
    pub id: usize,
    /// The item's text (none for a separator).
    pub text: Option<String>,
}

/// The view of a menu item: flags, id, text.
pub open spec fn item_view(item: MenuItem) -> (u32, usize, Option<Seq<char>>) {
    (
        item.flags,
        item.id,
        match item.text {
            Some(t) => Some(t@),
            None => None,
        },
    )
}

/// The check mark flag.
pub open spec fn check_flag(checked: bool) -> u32 {
    if checked {
        MF_CHECKED
    } else {
        MF_UNCHECKED
    }
}

/// The tray menu: "Alt to IME" checked while switching is on; "CapsLock to
/// Ctrl" checked while the registry maps CapsLock to Ctrl and grayed out while
/// a change is in progress; a separator; "Exit".
pub open spec fn tray_menu_spec(alt_enabled: bool, caps_registered: bool, caps_busy: bool) -> Seq<
    (u32, usize, Option<Seq<char>>),
> {
    let caps_flags = MF_STRING | check_flag(caps_registered);
    seq![
        (MF_STRING | check_flag(alt_enabled), IDM_ALT_IME, Some("Alt to IME"@)),
        (if caps_busy { caps_flags | MF_GRAYED } else { caps_flags }, IDM_CAPS_CTRL, Some("CapsLock to Ctrl"@)),
        (MF_SEPARATOR, 0usize, None),
        (MF_STRING, IDM_EXIT, Some("Exit"@)),
    ]
}

fn check_flag_of(checked: bool) -> (flag: u32)
    ensures
        flag == check_flag(checked),
{
    if checked {
        MF_CHECKED
    } else {
        MF_UNCHECKED
    }
}

/// The items of the tray menu, in order.
pub fn tray_menu(alt_enabled: bool, caps_registered: bool, caps_busy: bool) -> (items: Vec<
    MenuItem,
>)
    ensures
        items@.map_values(|i: MenuItem| item_view(i)) == tray_menu_spec(
            alt_enabled,
            caps_registered,
            caps_busy,
        ),
{
    let mut items: Vec<MenuItem> = Vec::new();
    items.push(
        MenuItem {
            flags: MF_STRING | check_flag_of(alt_enabled),
            id: IDM_ALT_IME,
            text: Some(String::from_str("Alt to IME")),
        },
    );
    let mut caps_flags = MF_STRING | check_flag_of(caps_registered);
    if caps_busy {
        caps_flags = caps_flags | MF_GRAYED;
    }
    items.push(
        MenuItem {
            flags: caps_flags,
            id: IDM_CAPS_CTRL,
            text: Some(String::from_str("CapsLock to Ctrl")),
        },
    );
    items.push(MenuItem { flags: MF_SEPARATOR, id: 0, text: None });
    items.push(MenuItem { flags: MF_STRING, id: IDM_EXIT, text: Some(String::from_str("Exit")) });
    assert(items@.map_values(|i: MenuItem| item_view(i)) =~= tray_menu_spec(
        alt_enabled,
        caps_registered,
        caps_busy,
    ));
    items
}

/// After Alt -> IME is turned off from the menu, the hook hands every event
/// on untouched and keeps its state.
pub proof fn lemma_switched_off_hook_passes_on(
    s: HookState,
    ev: KeyEvent,
    other_key_held: bool,
)
    requires
        s.alt_ime_enabled,
    ensures
        hook_step(toggled_alt_ime(s), ev, other_key_held) == (
            toggled_alt_ime(s),
            Seq::<KeyStroke>::empty(),
            HookVerdict::PassOn,
        ),
{
}

/// Toggling Alt -> IME twice restores switching as it was, with no Alt key
/// held and no combination pending.
pub proof fn lemma_toggle_twice(s: HookState)
    ensures
        toggled_alt_ime(toggled_alt_ime(s)) == (HookState {
            alt_ime_enabled: s.alt_ime_enabled,
            is_combination: false,
            lalt_pressed: false,
            ralt_pressed: false,
        }),
{
}

/// The tray menu item by item: "Alt to IME" (id 1002) checked (0x8) exactly
/// while switching is on; "CapsLock to Ctrl" (id 1003) checked exactly while
/// the registry maps CapsLock to Ctrl and grayed (0x1) exactly while a change
/// is in progress, whatever the state of switching; a separator (0x800); and
/// "Exit" (id 1001).
pub proof fn lemma_tray_menu_items(alt_enabled: bool, caps_registered: bool, caps_busy: bool)
    ensures
        ({
            let m = tray_menu_spec(alt_enabled, caps_registered, caps_busy);
            &&& m.len() == 4
            &&& m[0] == (
                if alt_enabled {
                    8u32
                } else {
                    0u32
                },
                1002usize,
                Some("Alt to IME"@),
            )
            &&& m[1] == (
                if caps_registered && caps_busy {
                    9u32
                } else if caps_registered {
                    8u32
                } else if caps_busy {
                    1u32
                } else {
                    0u32
                },
                1003usize,
                Some("CapsLock to Ctrl"@),
            )
            &&& m[2] == (0x800u32, 0usize, None::<Seq<char>>)
            &&& m[3] == (0u32, 1001usize, Some("Exit"@))
        }),
{
    assert(0u32 | 8u32 == 8u32) by (bit_vector);
    assert(0u32 | 0u32 == 0u32) by (bit_vector);
    assert(8u32 | 1u32 == 9u32) by (bit_vector);
    assert(0u32 | 1u32 == 1u32) by (bit_vector);
}

/// The "CapsLock to Ctrl" item does not depend on whether switching is on.
pub proof fn lemma_caps_item_ignores_alt(caps_registered: bool, caps_busy: bool)
    ensures
        tray_menu_spec(true, caps_registered, caps_busy)[1] == tray_menu_spec(
            false,
            caps_registered,
            caps_busy,
        )[1],
{
}

} // verus!
