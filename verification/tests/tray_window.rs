use ime_alt::keyboard::HookState;
use ime_alt::tray::{
    caps_result_icon_of, caps_result_message, tray_menu, window_proc, WindowAction, IDM_ALT_IME,
    IDM_CAPS_CTRL, IDM_EXIT, MB_ICONERROR, MB_ICONINFORMATION, MB_ICONWARNING, MB_OK,
    MB_SETFOREGROUND, MF_CHECKED, MF_GRAYED, MF_SEPARATOR, MF_STRING, MF_UNCHECKED, WM_CAPS_DONE,
    WM_COMMAND, WM_DESTROY, WM_MY_TRAYICON, WM_RBUTTONUP, WM_USER,
};
use windows_sys::Win32::UI::WindowsAndMessaging as wm;

#[test]
fn window_constants_match_win32() {
    assert_eq!(WM_USER, wm::WM_USER);
    assert_eq!(WM_MY_TRAYICON, wm::WM_USER + 1);
    assert_eq!(WM_CAPS_DONE, wm::WM_USER + 2);
    assert_eq!(WM_COMMAND, wm::WM_COMMAND);
    assert_eq!(WM_DESTROY, wm::WM_DESTROY);
    assert_eq!(WM_RBUTTONUP, wm::WM_RBUTTONUP);
    assert_eq!(MF_STRING, wm::MF_STRING);
    assert_eq!(MF_CHECKED, wm::MF_CHECKED);
    assert_eq!(MF_UNCHECKED, wm::MF_UNCHECKED);
    assert_eq!(MF_GRAYED, wm::MF_GRAYED);
    assert_eq!(MF_SEPARATOR, wm::MF_SEPARATOR);
    assert_eq!(MB_OK, wm::MB_OK);
    assert_eq!(MB_ICONERROR, wm::MB_ICONERROR);
    assert_eq!(MB_ICONWARNING, wm::MB_ICONWARNING);
    assert_eq!(MB_ICONINFORMATION, wm::MB_ICONINFORMATION);
    assert_eq!(MB_SETFOREGROUND, wm::MB_SETFOREGROUND);
}

#[test]
fn right_click_on_tray_icon_shows_menu() {
    let mut s = HookState::new();
    let a = window_proc(&mut s, WM_MY_TRAYICON, 1, (0x7_0000 | WM_RBUTTONUP) as isize);
    assert!(matches!(a, WindowAction::ShowTrayMenu));
    let a = window_proc(&mut s, WM_MY_TRAYICON, 1, 0x201);
    assert!(matches!(a, WindowAction::Handled));
    assert_eq!(s, HookState::new());
}

#[test]
fn menu_commands() {
    let mut s = HookState::new();
    assert!(matches!(window_proc(&mut s, WM_COMMAND, IDM_EXIT, 0), WindowAction::Quit));
    assert!(matches!(window_proc(&mut s, WM_COMMAND, IDM_CAPS_CTRL, 0), WindowAction::ToggleCapsCtrl));
    assert!(matches!(window_proc(&mut s, WM_COMMAND, 4242, 0), WindowAction::Handled));
    assert_eq!(s, HookState::new());
}

#[test]
fn toggling_alt_ime_resets_alt_state() {
    let mut s = HookState { alt_ime_enabled: true, is_combination: true, lalt_pressed: true, ralt_pressed: true };
    assert!(matches!(window_proc(&mut s, WM_COMMAND, IDM_ALT_IME, 0), WindowAction::Handled));
    assert_eq!(s, HookState { alt_ime_enabled: false, is_combination: false, lalt_pressed: false, ralt_pressed: false });
    window_proc(&mut s, WM_COMMAND, IDM_ALT_IME, 0);
    assert_eq!(s, HookState::new());
}

#[test]
fn destroy_quits_and_others_go_default() {
    let mut s = HookState::new();
    assert!(matches!(window_proc(&mut s, WM_DESTROY, 0, 0), WindowAction::Quit));
    assert!(matches!(window_proc(&mut s, 0x000F, 0, 0), WindowAction::Default));
}

fn report(code: usize, enabled: isize) -> (String, u32) {
    let mut s = HookState::new();
    match window_proc(&mut s, WM_CAPS_DONE, code, enabled) {
        WindowAction::ReportCapsResult { text, style } => (text, style),
        _ => panic!("no report"),
    }
}

#[test]
fn caps_done_success_messages() {
    assert_eq!(
        report(0, 1),
        (
            "CapsLock -> Ctrl has been enabled.\nSign out or restart Windows to apply the change.".to_string(),
            wm::MB_OK | wm::MB_ICONINFORMATION | wm::MB_SETFOREGROUND
        )
    );
    assert_eq!(
        report(0, 0).0,
        "CapsLock -> Ctrl has been disabled.\nSign out or restart Windows to apply the change."
    );
}

#[test]
fn caps_done_cancelled_message() {
    assert_eq!(
        report(1223, 1),
        (
            "Administrator permission was not granted.\nThe setting was not changed.".to_string(),
            wm::MB_OK | wm::MB_ICONWARNING | wm::MB_SETFOREGROUND
        )
    );
}

#[test]
fn caps_done_error_message() {
    assert_eq!(
        report(5, 1),
        (
            "Failed to change the setting. (error code: 5)".to_string(),
            wm::MB_OK | wm::MB_ICONERROR | wm::MB_SETFOREGROUND
        )
    );
    for code in [1u32, 10, 87, 1224, 65536, 4294967295] {
        assert_eq!(caps_result_message(code, false), format!("Failed to change the setting. (error code: {})", code));
        assert_eq!(caps_result_icon_of(code), MB_ICONERROR);
    }
}

fn items(alt: bool, caps: bool, busy: bool) -> Vec<(u32, usize, Option<String>)> {
    tray_menu(alt, caps, busy).into_iter().map(|i| (i.flags, i.id, i.text)).collect()
}

#[test]
fn tray_menu_items() {
    assert_eq!(
        items(true, false, false),
        vec![
            (8, 1002, Some("Alt to IME".to_string())),
            (0, 1003, Some("CapsLock to Ctrl".to_string())),
            (0x800, 0, None),
            (0, 1001, Some("Exit".to_string())),
        ]
    );
    let busy = items(false, true, true);
    assert_eq!(busy[0].0, 0);
    assert_eq!(busy[1].0, wm::MF_STRING | wm::MF_CHECKED | wm::MF_GRAYED);
    assert_eq!(items(true, true, false)[1].0, wm::MF_CHECKED);
}
