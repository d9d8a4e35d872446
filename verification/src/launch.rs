//! The launch plan for the sidecar process.
//!
//! Platform-conditional spawn details are kept out of the supervisor proper:
//! a small strategy keyed by target platform fixes the worker executable's
//! name and whether the child's console window must be suppressed, and the
//! plan builder assembles the full invocation — executable, argument list and
//! working directory — from the host's own PID.

use vstd::prelude::*;

use crate::text::{decimal_digits, u32_decimal};

verus! {

/// The target platform of the host, as far as spawning is concerned.
#[derive(Clone, Copy, Debug, PartialEq, Eq, Structural)]
pub enum Platform {
    Windows,
    Other,
}

/// The worker executable's file name on each platform.
pub open spec fn spec_executable_name(p: Platform) -> Seq<char> {
    match p {
        Platform::Windows => "libresvip-tauri-server.exe"@,
        Platform::Other => "libresvip-tauri-server"@,
    }
}

/// Everything the host needs to launch the sidecar: the executable's name,
/// its argument list, the working directory, and whether the child's console
/// window must be suppressed (Windows only).
pub struct LaunchPlan {
    pub executable: String,
    pub args: Vec<String>,
    pub working_dir: String,
    pub suppress_console: bool,
}

/// Build the launch plan for the sidecar: the platform's executable name, run
/// in the application's own directory, with the host's PID passed as
/// `--parent-pid` so the child can detect an orphaned state; on Windows the
/// child's console window is suppressed.
pub fn launch_plan(platform: Platform, host_pid: u32) -> (l: LaunchPlan)
    ensures
        l.executable@ == spec_executable_name(platform),
        l.args@.len() == 2,
        l.args@[0]@ == "--parent-pid"@,
        l.args@[1]@ == decimal_digits(host_pid as nat),
        l.working_dir@ == "."@,
        l.suppress_console == (platform is Windows),
{
    let executable = match platform {
        Platform::Windows => String::from_str("libresvip-tauri-server.exe"),
        Platform::Other => String::from_str("libresvip-tauri-server"),
    };
    let mut args: Vec<String> = Vec::new();
    args.push(String::from_str("--parent-pid"));
    args.push(u32_decimal(host_pid));
    let suppress_console = match platform {
        Platform::Windows => true,
        Platform::Other => false,
    };
    LaunchPlan { executable, args, working_dir: String::from_str("."), suppress_console }
}

} // verus!
