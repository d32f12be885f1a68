//! The on-disk installation layout: where a tool release is unpacked and
//! where its executable ends up, derived from the tool name, the version
//! and the operating system alone.

use vstd::prelude::*;
use vstd::string::StringExecFns;
use crate::platform::Os;

verus! {

/// Where a release is installed: the installation root, the directory
/// that holds the binary, and the full path of the executable.
#[derive(Debug, Clone, PartialEq, Eq)]
pub struct InstallationLayout {
    pub root_dir: String,
    pub bin_dir: String,
    pub executable_path: String,
}

/// The installation root: `{tool}-{version}`, relative to the plugin's
/// working directory.
pub open spec fn root_dir_view(tool: Seq<char>, version: Seq<char>) -> Seq<char> {
    tool + "-"@ + version
}

/// The directory holding the binary: `{root}/bin`.
pub open spec fn bin_dir_view(tool: Seq<char>, version: Seq<char>) -> Seq<char> {
    root_dir_view(tool, version) + "/bin"@
}

/// The executable file name: the tool name, with `.exe` appended on
/// windows.
pub open spec fn executable_name_view(tool: Seq<char>, os: Os) -> Seq<char> {
    if os == Os::Windows {
        tool + ".exe"@
    } else {
        tool
    }
}

/// The full executable path: `{root}/bin/{tool}[.exe]`.
pub open spec fn executable_path_view(tool: Seq<char>, version: Seq<char>, os: Os) -> Seq<char> {
    bin_dir_view(tool, version) + "/"@ + executable_name_view(tool, os)
}

/// Derives the installation layout. The planner has no failure mode and
/// touches nothing on disk: creating the directories is a separate step
/// of the orchestrator.
pub fn plan(tool: &str, version: &str, os: Os) -> (r: InstallationLayout)
    ensures
        r.root_dir@ == root_dir_view(tool@, version@),
        r.bin_dir@ == bin_dir_view(tool@, version@),
        r.executable_path@ == executable_path_view(tool@, version@, os),
{
    let mut root: String = tool.to_owned();
    root.append("-");
    root.append(version);
    let mut bin: String = root.clone();
    bin.append("/bin");
    let mut exec: String = bin.clone();
    exec.append("/");
    exec.append(tool);
    if let Os::Windows = os {
        exec.append(".exe");
    }
    proof {
        assert(root@ =~= root_dir_view(tool@, version@));
        assert(bin@ =~= bin_dir_view(tool@, version@));
        assert(exec@ =~= executable_path_view(tool@, version@, os));
    }
    InstallationLayout { root_dir: root, bin_dir: bin, executable_path: exec }
}

/// The planner is a pure function of its inputs: the layout is determined
/// by the tool name, the version and the operating system, and the one
/// difference between operating systems is that windows appends `.exe`
/// to the executable path that every other system gets.
pub proof fn lemma_plan_pure_and_windows_exe(tool: Seq<char>, version: Seq<char>)
    ensures
        executable_path_view(tool, version, Os::Windows) == executable_path_view(
            tool,
            version,
            Os::Linux,
        ) + ".exe"@,
        executable_path_view(tool, version, Os::Macos) == executable_path_view(
            tool,
            version,
            Os::Linux,
        ),
{
    assert(executable_path_view(tool, version, Os::Windows) =~= executable_path_view(
        tool,
        version,
        Os::Linux,
    ) + ".exe"@);
}

} // verus!
