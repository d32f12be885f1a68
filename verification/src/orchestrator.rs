//! The provisioning sequence. Given the host platform and what is
//! already on disk, the orchestrator produces the ordered list of host
//! actions that initialization performs: create the installation root,
//! set the advisory lock marker, download and extract the archive when
//! the executable is not yet installed, clear the marker, and request
//! the language-server launch. On an unsupported platform it produces
//! no actions at all.

use vstd::prelude::*;
use crate::layout::{executable_path_view, plan, root_dir_view};
use crate::platform::{arch_of, os_of, parse_arch, parse_os, Arch, Os};
use crate::resolver::{
    archive_name_view, download_url_view, resolve, supported, tool_name, tool_name_view,
    tool_version, tool_version_view,
};

verus! {

/// The advisory lock marker's path, fixed and relative to the plugin's
/// working directory.
pub open spec fn lock_path_view() -> Seq<char> {
    "download.lock"@
}

/// The language identifier handed to the launch call.
pub open spec fn language_id_view() -> Seq<char> {
    "lua"@
}

/// The installation root for the fixed tool and version.
pub open spec fn install_root_view() -> Seq<char> {
    root_dir_view(tool_name_view(), tool_version_view())
}

/// The executable path for the fixed tool and version.
pub open spec fn install_exec_view(os: Os) -> Seq<char> {
    executable_path_view(tool_name_view(), tool_version_view(), os)
}

/// One host action of the provisioning sequence, abstract form: each
/// path or URL as the sequence of characters it is made of.
pub enum ActionModel {
    CreateInstallDir { path: Seq<char> },
    AcquireLock { path: Seq<char> },
    RemoveStaleArchive { path: Seq<char> },
    Download { url: Seq<char>, path: Seq<char> },
    ExtractArchive { archive: Seq<char>, root: Seq<char> },
    MakeExecutable { path: Seq<char> },
    RemoveArchive { path: Seq<char> },
    ReleaseLock { path: Seq<char> },
    StartServer { executable: Seq<char>, language_id: Seq<char> },
}

/// One host action of the provisioning sequence. The orchestrator only
/// decides; the host performs: directory creation, the marker file, the
/// download, the extraction writes, the permission bit and the launch
/// are all carried out by the caller, in order.
#[derive(Debug, Clone, PartialEq, Eq)]
pub enum HostAction {
    CreateInstallDir { path: String },
    AcquireLock { path: String },
    RemoveStaleArchive { path: String },
    Download { url: String, path: String },
    ExtractArchive { archive: String, root: String },
    MakeExecutable { path: String },
    RemoveArchive { path: String },
    ReleaseLock { path: String },
    StartServer { executable: String, language_id: String },
}

impl View for HostAction {
    type V = ActionModel;

    open spec fn view(&self) -> ActionModel {
        match self {
            HostAction::CreateInstallDir { path } => ActionModel::CreateInstallDir {
                path: path@,
            },
            HostAction::AcquireLock { path } => ActionModel::AcquireLock { path: path@ },
            HostAction::RemoveStaleArchive { path } => ActionModel::RemoveStaleArchive {
                path: path@,
            },
            HostAction::Download { url, path } => ActionModel::Download {
                url: url@,
                path: path@,
            },
            HostAction::ExtractArchive { archive, root } => ActionModel::ExtractArchive {
                archive: archive@,
                root: root@,
            },
            HostAction::MakeExecutable { path } => ActionModel::MakeExecutable { path: path@ },
            HostAction::RemoveArchive { path } => ActionModel::RemoveArchive { path: path@ },
            HostAction::ReleaseLock { path } => ActionModel::ReleaseLock { path: path@ },
            HostAction::StartServer { executable, language_id } => ActionModel::StartServer {
                executable: executable@,
                language_id: language_id@,
            },
        }
    }
}

/// A sequence of actions as its abstract form.
pub open spec fn actions_view(s: Seq<HostAction>) -> Seq<ActionModel> {
    s.map_values(|a: HostAction| a@)
}

/// The provisioning steps run only when the executable is not yet on
/// disk: clear a stale archive if one is present, download the archive,
/// extract it into the installation root, mark the binary executable,
/// and delete the archive.
pub open spec fn provision_actions(arch: Arch, os: Os, stale: bool) -> Seq<ActionModel> {
    (if stale {
        seq![ActionModel::RemoveStaleArchive { path: archive_name_view(arch, os) }]
    } else {
        Seq::<ActionModel>::empty()
    }) + seq![
        ActionModel::Download {
            url: download_url_view(arch, os),
            path: archive_name_view(arch, os),
        },
        ActionModel::ExtractArchive {
            archive: archive_name_view(arch, os),
            root: install_root_view(),
        },
        ActionModel::MakeExecutable { path: install_exec_view(os) },
        ActionModel::RemoveArchive { path: archive_name_view(arch, os) },
    ]
}

/// The whole initialization sequence. An unsupported or unrecognised
/// platform yields no actions: initialization ends silently, with no
/// side effect of any kind. A supported platform always creates the
/// installation root, then holds the lock marker around the (possibly
/// empty) provisioning steps, and always ends by requesting the launch.
pub open spec fn plan_model(
    arch: Option<Arch>,
    os: Option<Os>,
    already_installed: bool,
    stale_archive_present: bool,
) -> Seq<ActionModel> {
    match (arch, os) {
        (Some(a), Some(o)) => if supported(a, o) {
            seq![
                ActionModel::CreateInstallDir { path: install_root_view() },
                ActionModel::AcquireLock { path: lock_path_view() },
            ] + (if !already_installed {
                provision_actions(a, o, stale_archive_present)
            } else {
                Seq::<ActionModel>::empty()
            }) + seq![
                ActionModel::ReleaseLock { path: lock_path_view() },
                ActionModel::StartServer {
                    executable: install_exec_view(o),
                    language_id: language_id_view(),
                },
            ]
        } else {
            Seq::<ActionModel>::empty()
        },
        _ => Seq::<ActionModel>::empty(),
    }
}

/// Decides the initialization sequence from the host-supplied platform
/// names and the two facts the caller observes on disk: whether the
/// executable is already installed, and whether a stale copy of the
/// archive is lying around.
pub fn initialize_plan(
    arch_name: &str,
    os_name: &str,
    already_installed: bool,
    stale_archive_present: bool,
) -> (r: Vec<HostAction>)
    ensures
        actions_view(r@) == plan_model(
            arch_of(arch_name@),
            os_of(os_name@),
            already_installed,
            stale_archive_present,
        ),
{
    let ghost m = plan_model(
        arch_of(arch_name@),
        os_of(os_name@),
        already_installed,
        stale_archive_present,
    );
    let mut out: Vec<HostAction> = Vec::new();
    let arch = match parse_arch(arch_name) {
        Some(a) => a,
        None => {
            proof {
                assert(actions_view(out@) =~= m);
            }
            return out;
        },
    };
    let os = match parse_os(os_name) {
        Some(o) => o,
        None => {
            proof {
                assert(actions_view(out@) =~= m);
            }
            return out;
        },
    };
    let asset = match resolve(arch, os) {
        Some(asset) => asset,
        None => {
            proof {
                assert(actions_view(out@) =~= m);
            }
            return out;
        },
    };
    let layout = plan(tool_name(), tool_version(), os);
    out.push(HostAction::CreateInstallDir { path: layout.root_dir.clone() });
    out.push(HostAction::AcquireLock { path: lock_path() });
    if !already_installed {
        if stale_archive_present {
            out.push(HostAction::RemoveStaleArchive { path: asset.archive_name.clone() });
        }
        out.push(
            HostAction::Download {
                url: asset.download_url.clone(),
                path: asset.archive_name.clone(),
            },
        );
        out.push(
            HostAction::ExtractArchive {
                archive: asset.archive_name.clone(),
                root: layout.root_dir.clone(),
            },
        );
        out.push(HostAction::MakeExecutable { path: layout.executable_path.clone() });
        out.push(HostAction::RemoveArchive { path: asset.archive_name.clone() });
    }
    out.push(HostAction::ReleaseLock { path: lock_path() });
    out.push(
        HostAction::StartServer { executable: layout.executable_path.clone(), language_id: language_id() },
    );
    proof {
        if already_installed {
            assert(actions_view(out@) =~= m);
        } else if stale_archive_present {
            assert(actions_view(out@) =~= m);
        } else {
            assert(actions_view(out@) =~= m);
        }
    }
    out
}

/// Initialization is idempotent once the executable is on disk: when it
/// is already installed, the plan holds no download, no extraction and
/// no other provisioning step, does not depend on whether a stale
/// archive is present, and still ends by requesting the launch — so a
/// second invocation does exactly the same harmless steps again.
pub proof fn lemma_already_installed_skips_provisioning(
    arch: Option<Arch>,
    os: Option<Os>,
    stale_a: bool,
    stale_b: bool,
)
    ensures
        plan_model(arch, os, true, stale_a) == plan_model(arch, os, true, stale_b),
        forall|j: int|
            0 <= j < plan_model(arch, os, true, stale_a).len() ==> {
                let a = #[trigger] plan_model(arch, os, true, stale_a)[j];
                !(a is Download) && !(a is ExtractArchive) && !(a is RemoveStaleArchive) && !(a
                    is MakeExecutable) && !(a is RemoveArchive)
            },
        plan_model(arch, os, true, stale_a).len() > 0 ==> plan_model(arch, os, true, stale_a).last()
            is StartServer,
{
    let p = plan_model(arch, os, true, stale_a);
    if p.len() > 0 {
        assert(p.len() == 4);
    }
}

/// The lock marker lives exactly once per initialization attempt: every
/// non-empty plan sets it exactly once, right after creating the
/// installation root, and clears it exactly once, right before the
/// launch request — also when the short-circuit for an already installed
/// executable skips all provisioning in between. An empty plan (an
/// unsupported platform) never touches the marker at all.
pub proof fn lemma_lock_lifecycle(
    arch: Option<Arch>,
    os: Option<Os>,
    already_installed: bool,
    stale_archive_present: bool,
)
    ensures
        ({
            let p = plan_model(arch, os, already_installed, stale_archive_present);
            p.len() > 0 ==> {
                &&& p[1] is AcquireLock
                &&& p[p.len() - 2] is ReleaseLock
                &&& forall|j: int|
                    0 <= j < p.len() && j != 1 ==> !((#[trigger] p[j]) is AcquireLock)
                &&& forall|j: int|
                    0 <= j < p.len() && j != p.len() - 2 ==> !((#[trigger] p[j]) is ReleaseLock)
            }
        }),
{
    let p = plan_model(arch, os, already_installed, stale_archive_present);
    if p.len() > 0 {
        if already_installed {
            assert(p.len() == 4);
        } else if stale_archive_present {
            assert(p.len() == 9);
        } else {
            assert(p.len() == 8);
        }
    }
}

/// The advisory lock marker's path.
pub fn lock_path() -> (r: String)
    ensures
        r@ == lock_path_view(),
{
    "download.lock".to_owned()
}

/// The language identifier handed to the launch call.
pub fn language_id() -> (r: String)
    ensures
        r@ == language_id_view(),
{
    "lua".to_owned()
}

} // verus!
