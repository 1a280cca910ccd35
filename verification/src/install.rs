//! Where the client program is put on a machine, and under which name.
//!
//! Copying the program and registering it to start with the machine is the
//! installer's work; the names are decided here.

use vstd::prelude::*;
use vstd::string::StringExecFns;

verus! {

/// The file name under which the client program is shipped, beside the
/// installer.
pub const CLIENT_EXECUTABLE: &'static str = "dori-client.exe";

/// The kind of machine.
#[derive(Debug, Clone, Copy, PartialEq, Eq, Structural)]
pub enum Platform {
    Windows,
    Unix,
    Other,
}

/// Where a program goes.
#[derive(Debug, Clone, PartialEq, Eq)]
pub struct ProgramPath {
    /// The directory of the program. On Windows it is relative to the home
    /// directory of the user; on Unix it is absolute.
    pub directory: String,
    /// The file name of the program in that directory.
    pub executable: String,
}

/// Whether `found` is where the program named `program` goes on `platform`:
/// on Windows `AppData\Local\<program>` under the home directory, with the
/// file name `<program>.exe`; on Unix `/opt/<program>/<program>`, with the
/// file name `<program>`.
pub open spec fn is_program_path(platform: Platform, program: Seq<char>, found: ProgramPath) -> bool {
    match platform {
        Platform::Windows => {
            &&& found.directory@ == "AppData\\Local\\"@ + program
            &&& found.executable@ == program + ".exe"@
        },
        Platform::Unix => {
            &&& found.directory@ == "/opt/"@ + program + "/"@ + program
            &&& found.executable@ == program
        },
        Platform::Other => false,
    }
}

/// Where the program named `program` goes on `platform`; `None` on a
/// platform that is neither Windows nor Unix.
pub fn program_path(platform: Platform, program: &str) -> (r: Option<ProgramPath>)
    ensures
        r is Some <==> platform != Platform::Other,
        r matches Some(found) ==> is_program_path(platform, program@, found),
{
    match platform {
        Platform::Windows => {
            let mut directory = String::from_str("AppData\\Local\\");
            directory.append(program);
            let mut executable = String::from_str(program);
            executable.append(".exe");
            Some(ProgramPath { directory, executable })
        },
        Platform::Unix => {
            let mut directory = String::from_str("/opt/");
            directory.append(program);
            directory.append("/");
            directory.append(program);
            Some(ProgramPath { directory, executable: String::from_str(program) })
        },
        Platform::Other => None,
    }
}

} // verus!
