//! Changing CapsLock -> Ctrl: writing needs administrator rights, so a change
//! that is denied is handed to a copy of the program started elevated, in
//! helper mode ("--set-caps-ctrl on|off"), whose exit code is the outcome.
use vstd::prelude::*;
use crate::status::{ERROR_ACCESS_DENIED, ERROR_SUCCESS};

verus! {

/// The command line of the elevated helper.
pub open spec fn helper_arguments_text(enable: bool) -> Seq<char> {
    "--set-caps-ctrl "@ + (if enable {
        "on"@
    } else {
        "off"@
    })
}

/// The command line of the elevated helper that turns CapsLock -> Ctrl on or off.
pub fn helper_arguments(enable: bool) -> (args: String)
    ensures
        args@ == helper_arguments_text(enable),
{
    let mut args = String::from_str("--set-caps-ctrl ");
    args.append(
        if enable {
            "on"
        } else {
            "off"
        },
    );
    args
}

/// How the program was started.
#[derive(Clone, Copy, PartialEq, Eq, Structural, Debug)]
pub enum HelperRequest {
    /// Not as a helper: run the tray program.
    NotHelper,
    /// As a helper that turns CapsLock -> Ctrl on (`true`) or off (`false`).
    SetCapsCtrl(bool),
    /// As a helper, with a value other than "on" or "off".
    InvalidValue,
}

/// The request that a command line holds: helper mode when the first
/// argument is "--set-caps-ctrl" and a value follows.
pub open spec fn helper_request_spec(args: Seq<Seq<char>>) -> HelperRequest {
    if args.len() < 3 || args[1] != "--set-caps-ctrl"@ {
        HelperRequest::NotHelper
    } else if args[2] == "on"@ {
        HelperRequest::SetCapsCtrl(true)
    } else if args[2] == "off"@ {
        HelperRequest::SetCapsCtrl(false)
    } else {
        HelperRequest::InvalidValue
    }
}

/// Read the command line (program name first).
pub fn helper_request(args: &Vec<String>) -> (request: HelperRequest)
    ensures
        request == helper_request_spec(args@.map_values(|a: String| a@)),
{
    let ghost views = args@.map_values(|a: String| a@);
    if args.len() < 3 {
        return HelperRequest::NotHelper;
    }
    assert(views[1] == args@[1]@ && views[2] == args@[2]@);
    let switch = String::from_str("--set-caps-ctrl");
    if !(args[1] == switch) {
        return HelperRequest::NotHelper;
    }
    let on = String::from_str("on");
    let off = String::from_str("off");
    if args[2] == on {
        HelperRequest::SetCapsCtrl(true)
    } else if args[2] == off {
        HelperRequest::SetCapsCtrl(false)
    } else {
        HelperRequest::InvalidValue
    }
}

/// The exit code of the helper: 0 on success, else the Win32 error code.
pub fn helper_exit_code(outcome: &Result<(), u32>) -> (code: i32)
    ensures
        outcome is Ok ==> code == 0,
        outcome matches Err(e) ==> code == e as i32,
{
    match outcome {
        Ok(()) => 0,
        Err(e) => *e as i32,
    }
}

/// A write that the registry refused for want of rights is retried elevated.
pub fn needs_elevation(outcome: &Result<(), u32>) -> (retry: bool)
    ensures
        retry == (*outcome == Err::<(), u32>(ERROR_ACCESS_DENIED)),
{
    match outcome {
        Err(e) => *e == ERROR_ACCESS_DENIED,
        Ok(()) => false,
    }
}

/// The code that reports the outcome of a change: 0 on success, else the error.
pub fn outcome_code(outcome: &Result<(), u32>) -> (code: u32)
    ensures
        outcome is Ok ==> code == ERROR_SUCCESS,
        outcome matches Err(e) ==> code == e,
{
    match outcome {
        Ok(()) => ERROR_SUCCESS,
        Err(e) => *e,
    }
}

/// The path of the running program was read whole: `len` units were written
/// into a buffer of `capacity` units (0 means failure, `capacity` or more that
/// the path was cut off).
pub fn module_path_complete(len: u32, capacity: usize) -> (complete: bool)
    ensures
        complete == (len != 0 && (len as int) < capacity),
{
    !(len == 0 || len as usize >= capacity)
}

/// The value of the helper's switch.
pub open spec fn helper_value(enable: bool) -> Seq<char> {
    if enable {
        "on"@
    } else {
        "off"@
    }
}

/// The helper command line is the switch, a space and the value; a helper
/// started with it as its arguments reads back the same request.
pub proof fn lemma_helper_arguments_read_back(program: Seq<char>, enable: bool)
    ensures
        helper_arguments_text(enable) == "--set-caps-ctrl"@ + seq![' '] + helper_value(enable),
        helper_request_spec(seq![program, "--set-caps-ctrl"@, helper_value(enable)])
            == HelperRequest::SetCapsCtrl(enable),
{
    reveal_strlit("--set-caps-ctrl ");
    reveal_strlit("--set-caps-ctrl");
    reveal_strlit("on");
    reveal_strlit("off");
    assert("--set-caps-ctrl "@ =~= "--set-caps-ctrl"@ + seq![' ']);
    assert("on"@ != "off"@) by {
        assert("on"@.len() != "off"@.len());
    }
}

} // verus!
