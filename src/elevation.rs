use vstd::prelude::*;

use crate::platform::{
    Platform,
    platform_spec,
    unsupported_message,
    unsupported_platform_message,
    unsupported_prefix,
};
use crate::wide::{to_wide_nul, wide_nul};

verus! {

/// `SW_SHOWNORMAL`: the launched program's window is shown normally.
pub const SHOW_NORMAL: i32 = 1;

/// `ShellExecuteW` reports success with a value greater than this one; values
/// up to it are error codes.
pub const SHELL_EXECUTE_ERROR_MAX: isize = 32;

/// A request to the Windows shell to open a file, in the shape
/// `ShellExecuteW` takes it: every string is NUL-terminated UTF-16, and
/// `None` stands for a null pointer.
pub struct ShellExecuteRequest {
    pub operation: Vec<u16>,
    pub file: Vec<u16>,
    pub parameters: Option<Vec<u16>>,
    pub directory: Option<Vec<u16>>,
    pub show_command: i32,
}

/// What is left to do after an elevation request has been planned: either
/// hand a request to the shell, or nothing, with the answer already known.
pub enum ElevationStep {
    Launch(ShellExecuteRequest),
    Finished(bool),
}

/// A result as the contracts see it: the error message by its characters.
pub open spec fn outcome_view<T>(r: Result<T, String>) -> Result<T, Seq<char>> {
    match r {
        Ok(v) => Ok(v),
        Err(m) => Err(m@),
    }
}

/// Whether the process has administrative rights, given the platform and
/// what the OS reports of the process token (`process_is_admin`).
pub open spec fn admin_status(platform: Platform, process_is_admin: bool) -> Result<bool, Seq<char>> {
    match platform {
        Platform::Windows => Ok(process_is_admin),
        Platform::MacOs => Ok(false),
        Platform::Linux => Ok(false),
        Platform::Unsupported(os) => Err(unsupported_message(os@)),
    }
}

/// `req` asks the shell to run `exe_path` elevated ("runas"), with no
/// arguments, no working directory and a normally shown window.
pub open spec fn is_runas_request(req: ShellExecuteRequest, exe_path: Seq<char>) -> bool {
    &&& req.operation@ == wide_nul("runas"@)
    &&& req.file@ == wide_nul(exe_path)
    &&& req.parameters is None
    &&& req.directory is None
    &&& req.show_command == SHOW_NORMAL
}

/// The step that an elevation request for `exe_path` takes on `platform`.
pub open spec fn elevation_plan(
    platform: Platform,
    exe_path: Seq<char>,
    r: Result<ElevationStep, String>,
) -> bool {
    match platform {
        Platform::Windows => r matches Ok(ElevationStep::Launch(req)) && is_runas_request(req, exe_path),
        Platform::MacOs => r matches Ok(ElevationStep::Finished(b)) && !b,
        Platform::Linux => r matches Ok(ElevationStep::Finished(b)) && !b,
        Platform::Unsupported(os) => r matches Err(m) && m@ == unsupported_message(os@),
    }
}

/// Whether the current process runs with administrative rights.
///
/// On Windows this is what the OS reports of the process token
/// (`process_is_admin`, which is consulted nowhere else); macOS and Linux
/// always answer `false`; any other platform is an error naming it.
pub fn check_admin_privileges(platform: &Platform, process_is_admin: bool) -> (r: Result<bool, String>)
    ensures
        outcome_view(r) == admin_status(*platform, process_is_admin),
{
    match platform {
        Platform::Windows => Ok(process_is_admin),
        Platform::MacOs => Ok(false),
        Platform::Linux => Ok(false),
        Platform::Unsupported(os) => Err(unsupported_platform_message(os.as_str())),
    }
}

/// Plans the relaunch of `exe_path` with elevation.
///
/// On Windows the result is the shell request to make ("runas" on the path,
/// nothing else); its answer is read with [`launch_succeeded`]. macOS and
/// Linux have nothing to launch and answer `false`; any other platform is an
/// error naming it.
pub fn request_admin_privileges(platform: &Platform, exe_path: &str) -> (r: Result<ElevationStep, String>)
    ensures
        elevation_plan(*platform, exe_path@, r),
{
    match platform {
        Platform::Windows => {
            let req = ShellExecuteRequest {
                operation: to_wide_nul("runas"),
                file: to_wide_nul(exe_path),
                parameters: None,
                directory: None,
                show_command: SHOW_NORMAL,
            };
            Ok(ElevationStep::Launch(req))
        },
        Platform::MacOs => Ok(ElevationStep::Finished(false)),
        Platform::Linux => Ok(ElevationStep::Finished(false)),
        Platform::Unsupported(os) => Err(unsupported_platform_message(os.as_str())),
    }
}

/// Whether the value `ShellExecuteW` returned reports a launch.
pub open spec fn launch_outcome(instance_code: isize) -> bool {
    instance_code > SHELL_EXECUTE_ERROR_MAX
}

/// Reads the value `ShellExecuteW` returned: the launch went through when it
/// is above the range of error codes. Every error (the user declined, the
/// file is missing, ...) is the same `false`.
pub fn launch_succeeded(instance_code: isize) -> (r: bool)
    ensures
        r == launch_outcome(instance_code),
{
    instance_code > SHELL_EXECUTE_ERROR_MAX
}

/// `needle` occurs somewhere in `hay` as a contiguous run.
pub open spec fn occurs_in(needle: Seq<char>, hay: Seq<char>) -> bool {
    exists|i: int| 0 <= i && i + needle.len() <= hay.len() && #[trigger] hay.subrange(i, i + needle.len()) == needle
}

/// On Windows the check reports `true` exactly when the process token is
/// elevated.
pub proof fn lemma_windows_follows_token(process_is_admin: bool)
    ensures
        admin_status(Platform::Windows, process_is_admin) == Ok::<bool, Seq<char>>(true) <==> process_is_admin,
        admin_status(Platform::Windows, process_is_admin) is Ok,
{
}

/// On macOS and Linux the check answers `Ok(false)`, never an error, whatever
/// the privileges of the process are.
pub proof fn lemma_unmodelled_platforms_report_false(platform: Platform, process_is_admin: bool)
    requires
        platform is MacOs || platform is Linux,
    ensures
        admin_status(platform, process_is_admin) == Ok::<bool, Seq<char>>(false),
{
}

/// On a host whose OS identifier is none of the three handled ones, both
/// operations fail, and the error message contains that identifier.
pub proof fn lemma_unsupported_names_os(
    os: Seq<char>,
    platform: Platform,
    process_is_admin: bool,
    exe_path: Seq<char>,
    request: Result<ElevationStep, String>,
)
    requires
        os != "windows"@,
        os != "macos"@,
        os != "linux"@,
        platform_spec(os, platform),
        elevation_plan(platform, exe_path, request),
    ensures
        admin_status(platform, process_is_admin) matches Err(m) && occurs_in(os, m),
        request matches Err(m) && occurs_in(os, m@),
{
    let m = unsupported_message(os);
    let i = unsupported_prefix().len() as int;
    assert(m.subrange(i, i + os.len()) == os);
}

/// Planning an elevation request fails on no path on a handled platform, and
/// a launch that the shell reports as failed (a missing file, a declined
/// prompt) reads as `false`.
pub proof fn lemma_request_total(
    platform: Platform,
    exe_path: Seq<char>,
    request: Result<ElevationStep, String>,
    instance_code: isize,
)
    requires
        !(platform is Unsupported),
        elevation_plan(platform, exe_path, request),
        instance_code <= SHELL_EXECUTE_ERROR_MAX,
    ensures
        request is Ok,
        !launch_outcome(instance_code),
{
}

/// Two checks made while neither the platform nor the process's privileges
/// change give the same answer.
pub proof fn lemma_check_repeatable(
    platform: Platform,
    process_is_admin: bool,
    first: Result<bool, String>,
    second: Result<bool, String>,
)
    requires
        outcome_view(first) == admin_status(platform, process_is_admin),
        outcome_view(second) == admin_status(platform, process_is_admin),
    ensures
        outcome_view(first) == outcome_view(second),
        first is Ok <==> second is Ok,
        first is Ok ==> first == second,
{
}

} // verus!
