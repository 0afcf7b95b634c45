use vstd::prelude::*;

use crate::text::string_or;

verus! {

/// The operating system the application runs on.
#[derive(Clone, Copy, Debug, PartialEq, Eq, Structural)]
pub enum Platform {
    MacOs,
    Windows,
    Linux,
}

/// What the library needs to know of the machine: its platform, and on Windows the two
/// directories under which tools are installed.
pub struct HostEnv {
    pub platform: Platform,
    pub program_files: String,
    pub local_app_data: String,
    /// The directory of the tools bundled with the application (Tauri sidecars), where known.
    pub sidecar_dir: Option<String>,
}

/// Windows' `ProgramFiles` where the environment does not give it.
pub open spec fn default_program_files() -> Seq<char> {
    "C:\\Program Files"@
}

/// Windows' `LOCALAPPDATA` where the environment does not give it.
pub open spec fn default_local_app_data() -> Seq<char> {
    "C:\\Users\\Default\\AppData\\Local"@
}

impl HostEnv {
    /// The host environment, from the values of the variables `ProgramFiles` and `LOCALAPPDATA`
    /// where they are set.
    pub fn new(platform: Platform, program_files: Option<String>, local_app_data: Option<
        String,
    >) -> (h: HostEnv)
        ensures
            h.platform == platform,
            h.program_files@ == match program_files {
                Some(p) => p@,
                None => default_program_files(),
            },
            h.local_app_data@ == match local_app_data {
                Some(p) => p@,
                None => default_local_app_data(),
            },
            h.sidecar_dir is None,
    {
        HostEnv {
            platform,
            program_files: string_or(program_files, "C:\\Program Files"),
            local_app_data: string_or(local_app_data, "C:\\Users\\Default\\AppData\\Local"),
            sidecar_dir: None,
        }
    }

    /// The same environment, with the bundled tools in `dir`.
    pub fn with_sidecar_dir(self, dir: String) -> (h: HostEnv)
        ensures
            h.platform == self.platform,
            h.program_files == self.program_files,
            h.local_app_data == self.local_app_data,
            h.sidecar_dir == Some(dir),
    {
        HostEnv { sidecar_dir: Some(dir), ..self }
    }
}

} // verus!
