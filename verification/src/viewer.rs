//! The viewer launch decision: which command opens a file with the host's
//! default application on each platform family. Spawning the command and
//! waiting for it are left to the caller; a platform outside the three
//! known families gets no command and the launch is quietly skipped.

use vstd::prelude::*;

verus! {

/// The platform family the program runs on.
#[derive(Clone, Copy, PartialEq, Eq, Structural, Debug)]
pub enum Platform {
    Windows,
    MacOs,
    Linux,
    Other,
}

/// A program name with its arguments, ready to spawn.
pub struct OpenCommand {
    pub program: String,
    pub args: Vec<String>,
}

/// The command that opens `path` with the platform's default application:
/// `cmd /C start` on Windows, `open` on macOS, `xdg-open` on Linux, and
/// none anywhere else.
pub fn opener_command(platform: Platform, path: &str) -> (r: Option<OpenCommand>)
    ensures
        match platform {
            Platform::Windows => {
                &&& r is Some
                &&& r->Some_0.program@ == "cmd"@
                &&& r->Some_0.args@.len() == 3
                &&& r->Some_0.args@[0]@ == "/C"@
                &&& r->Some_0.args@[1]@ == "start"@
                &&& r->Some_0.args@[2]@ == path@
            },
            Platform::MacOs => {
                &&& r is Some
                &&& r->Some_0.program@ == "open"@
                &&& r->Some_0.args@.len() == 1
                &&& r->Some_0.args@[0]@ == path@
            },
            Platform::Linux => {
                &&& r is Some
                &&& r->Some_0.program@ == "xdg-open"@
                &&& r->Some_0.args@.len() == 1
                &&& r->Some_0.args@[0]@ == path@
            },
            Platform::Other => r is None,
        },
{
    match platform {
        Platform::Windows => {
            let mut args: Vec<String> = Vec::new();
            args.push(String::from_str("/C"));
            args.push(String::from_str("start"));
            args.push(String::from_str(path));
            Some(OpenCommand { program: String::from_str("cmd"), args })
        },
        Platform::MacOs => {
            let mut args: Vec<String> = Vec::new();
            args.push(String::from_str(path));
            Some(OpenCommand { program: String::from_str("open"), args })
        },
        Platform::Linux => {
            let mut args: Vec<String> = Vec::new();
            args.push(String::from_str(path));
            Some(OpenCommand { program: String::from_str("xdg-open"), args })
        },
        Platform::Other => None,
    }
}

} // verus!
