//! Resolution of the release archive for a platform: the fixed tool name
//! and version, the table of supported (architecture, operating system)
//! pairs, and the archive name and download URL each pair maps to.

use vstd::prelude::*;
use vstd::string::StringExecFns;
use crate::platform::{Arch, Os};

verus! {

pub open spec fn tool_name_view() -> Seq<char> {
    "lua-language-server"@
}

pub open spec fn tool_version_view() -> Seq<char> {
    "3.3.1"@
}

pub open spec fn release_host_view() -> Seq<char> {
    "https://github.com/sumneko/lua-language-server/releases/download/"@
}

/// The name of the provisioned tool; also the file name of its binary.
pub fn tool_name() -> (r: &'static str)
    ensures
        r@ == tool_name_view(),
{
    "lua-language-server"
}

/// The pinned release version of the tool.
pub fn tool_version() -> (r: &'static str)
    ensures
        r@ == tool_version_view(),
{
    "3.3.1"
}

/// Whether a prebuilt release archive exists for the pair.
pub open spec fn supported(arch: Arch, os: Os) -> bool {
    match (arch, os) {
        (Arch::X86_64, _) => true,
        (Arch::Aarch64, Os::Macos) => true,
        (Arch::Aarch64, Os::Linux) => true,
        (Arch::X86, Os::Windows) => true,
        _ => false,
    }
}

/// The platform-specific part of the archive file name, for supported pairs.
pub open spec fn suffix_view(arch: Arch, os: Os) -> Seq<char> {
    match (arch, os) {
        (Arch::X86_64, Os::Macos) => "darwin-x64.tar.gz"@,
        (Arch::X86_64, Os::Linux) => "linux-x64.tar.gz"@,
        (Arch::X86_64, Os::Windows) => "win32-x64.zip"@,
        (Arch::Aarch64, Os::Macos) => "darwin-arm64.tar.gz"@,
        (Arch::Aarch64, Os::Linux) => "linux-arm64.tar.gz"@,
        _ => "win32-ia32.zip"@,
    }
}

/// The archive file name: `{tool}-{version}-{suffix}`.
pub open spec fn archive_name_view(arch: Arch, os: Os) -> Seq<char> {
    tool_name_view() + "-"@ + tool_version_view() + "-"@ + suffix_view(arch, os)
}

/// The release URL the archive is downloaded from:
/// `{host}{version}/{archive}`.
pub open spec fn download_url_view(arch: Arch, os: Os) -> Seq<char> {
    release_host_view() + tool_version_view() + "/"@ + archive_name_view(arch, os)
}

/// A versioned, platform-specific release archive and where to fetch it.
#[derive(Debug, Clone, PartialEq, Eq)]
pub struct ReleaseAsset {
    pub archive_name: String,
    pub download_url: String,
}

/// Maps a platform to its release archive; `None` where the table of
/// supported pairs has no entry, in which case provisioning must stop
/// with no side effects at all.
pub fn resolve(arch: Arch, os: Os) -> (r: Option<ReleaseAsset>)
    ensures
        r is Some <==> supported(arch, os),
        r matches Some(asset) ==> asset.archive_name@ == archive_name_view(arch, os)
            && asset.download_url@ == download_url_view(arch, os),
{
    let suffix: &str = match (arch, os) {
        (Arch::X86_64, Os::Macos) => "darwin-x64.tar.gz",
        (Arch::X86_64, Os::Linux) => "linux-x64.tar.gz",
        (Arch::X86_64, Os::Windows) => "win32-x64.zip",
        (Arch::Aarch64, Os::Macos) => "darwin-arm64.tar.gz",
        (Arch::Aarch64, Os::Linux) => "linux-arm64.tar.gz",
        (Arch::X86, Os::Windows) => "win32-ia32.zip",
        _ => {
            return None;
        },
    };
    let mut name: String = tool_name().to_owned();
    name.append("-");
    name.append(tool_version());
    name.append("-");
    name.append(suffix);
    let mut url: String =
        "https://github.com/sumneko/lua-language-server/releases/download/".to_owned();
    url.append(tool_version());
    url.append("/");
    url.append(name.as_str());
    proof {
        assert(name@ =~= archive_name_view(arch, os));
        assert(url@ =~= download_url_view(arch, os));
    }
    Some(ReleaseAsset { archive_name: name, download_url: url })
}

} // verus!
