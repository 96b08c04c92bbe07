use vstd::prelude::*;

verus! {

/// The platform the process runs on, as far as dispatch cares.
pub enum Platform {
    Linux,
    Windows,
    /// Any other platform: the default-open mechanism is unspecified there.
    Other,
}

/// A fire-and-forget external command, ready for the detached-spawn
/// capability that performs it.
pub struct LaunchCommand {
    pub program: String,
    pub args: Vec<String>,
}

/// The canonical "open with the default application" invocation for `path`:
/// `xdg-open <path>` on Linux, `cmd /C start <path>` on Windows, and none on
/// any other platform.
pub fn open_command(platform: Platform, path: String) -> (r: Option<LaunchCommand>)
    ensures
        platform is Linux ==> (r matches Some(c) && c.program@ == "xdg-open"@ && c.args@.len()
            == 1 && c.args@[0]@ == path@),
        platform is Windows ==> (r matches Some(c) && c.program@ == "cmd"@ && c.args@.len() == 3
            && c.args@[0]@ == "/C"@ && c.args@[1]@ == "start"@ && c.args@[2]@ == path@),
        platform is Other ==> r is None,
{
    match platform {
        Platform::Linux => {
            let mut args: Vec<String> = Vec::new();
            args.push(path);
            Some(LaunchCommand { program: String::from_str("xdg-open"), args })
        },
        Platform::Windows => {
            let mut args: Vec<String> = Vec::new();
            args.push(String::from_str("/C"));
            args.push(String::from_str("start"));
            args.push(path);
            Some(LaunchCommand { program: String::from_str("cmd"), args })
        },
        Platform::Other => None,
    }
}

} // verus!
