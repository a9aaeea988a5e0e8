use ime_alt::caps_job::{
    helper_arguments, helper_exit_code, helper_request, module_path_complete, needs_elevation,
    outcome_code, HelperRequest,
};

fn args(list: &[&str]) -> Vec<String> {
    list.iter().map(|s| s.to_string()).collect()
}

#[test]
fn helper_command_line() {
    assert_eq!(helper_arguments(true), "--set-caps-ctrl on");
    assert_eq!(helper_arguments(false), "--set-caps-ctrl off");
}

#[test]
fn helper_requests() {
    assert_eq!(helper_request(&args(&["ime-alt.exe"])), HelperRequest::NotHelper);
    assert_eq!(helper_request(&args(&["ime-alt.exe", "--set-caps-ctrl"])), HelperRequest::NotHelper);
    assert_eq!(helper_request(&args(&["ime-alt.exe", "--other", "on"])), HelperRequest::NotHelper);
    assert_eq!(helper_request(&args(&["ime-alt.exe", "--set-caps-ctrl", "on"])), HelperRequest::SetCapsCtrl(true));
    assert_eq!(helper_request(&args(&["ime-alt.exe", "--set-caps-ctrl", "off", "x"])), HelperRequest::SetCapsCtrl(false));
    assert_eq!(helper_request(&args(&["ime-alt.exe", "--set-caps-ctrl", "ON"])), HelperRequest::InvalidValue);
}

#[test]
fn helper_arguments_read_back() {
    for enable in [true, false] {
        let line = helper_arguments(enable);
        let mut list = vec!["ime-alt.exe".to_string()];
        list.extend(line.split(' ').map(|s| s.to_string()));
        assert_eq!(helper_request(&list), HelperRequest::SetCapsCtrl(enable));
    }
}

#[test]
fn helper_exit_codes() {
    assert_eq!(helper_exit_code(&Ok(())), 0);
    assert_eq!(helper_exit_code(&Err(5)), 5);
    assert_eq!(helper_exit_code(&Err(87)), 87);
    assert_eq!(helper_exit_code(&Err(u32::MAX)), -1);
}

#[test]
fn elevation_only_when_access_denied() {
    assert!(needs_elevation(&Err(5)));
    assert!(!needs_elevation(&Err(2)));
    assert!(!needs_elevation(&Ok(())));
}

#[test]
fn outcome_codes() {
    assert_eq!(outcome_code(&Ok(())), 0);
    assert_eq!(outcome_code(&Err(1223)), 1223);
}

#[test]
fn module_path_checks() {
    assert!(!module_path_complete(0, 1024));
    assert!(!module_path_complete(1024, 1024));
    assert!(module_path_complete(1023, 1024));
    assert!(module_path_complete(30, 1024));
}
