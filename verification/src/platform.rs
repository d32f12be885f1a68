//! The host platform: which processor architectures and operating systems
//! the provisioning flow recognises, and how the textual names the host
//! hands over are read into them.

use vstd::prelude::*;

verus! {

/// Processor architectures with prebuilt release archives.
#[derive(Clone, Copy, PartialEq, Eq, Structural, Debug)]
pub enum Arch {
    X86_64,
    Aarch64,
    X86,
}

/// Operating systems with prebuilt release archives.
#[derive(Clone, Copy, PartialEq, Eq, Structural, Debug)]
pub enum Os {
    Macos,
    Linux,
    Windows,
}

/// Which architecture a host-supplied name denotes, if any.
/// `x86` and `i386` are two names for the same 32-bit architecture.
pub open spec fn arch_of(s: Seq<char>) -> Option<Arch> {
    if s == "x86_64"@ {
        Some(Arch::X86_64)
    } else if s == "aarch64"@ {
        Some(Arch::Aarch64)
    } else if s == "x86"@ || s == "i386"@ {
        Some(Arch::X86)
    } else {
        None
    }
}

/// Which operating system a host-supplied name denotes, if any.
pub open spec fn os_of(s: Seq<char>) -> Option<Os> {
    if s == "macos"@ {
        Some(Os::Macos)
    } else if s == "linux"@ {
        Some(Os::Linux)
    } else if s == "windows"@ {
        Some(Os::Windows)
    } else {
        None
    }
}

/// String equality by contents.
pub fn str_eq(a: &str, b: &str) -> (r: bool)
    ensures
        r == (a@ == b@),
{
    let sa: String = a.to_owned();
    let sb: String = b.to_owned();
    sa == sb
}

/// Reads an architecture name from the host payload.
pub fn parse_arch(s: &str) -> (r: Option<Arch>)
    ensures
        r == arch_of(s@),
{
    if str_eq(s, "x86_64") {
        Some(Arch::X86_64)
    } else if str_eq(s, "aarch64") {
        Some(Arch::Aarch64)
    } else if str_eq(s, "x86") || str_eq(s, "i386") {
        Some(Arch::X86)
    } else {
        None
    }
}

/// Reads an operating-system name from the host payload.
pub fn parse_os(s: &str) -> (r: Option<Os>)
    ensures
        r == os_of(s@),
{
    if str_eq(s, "macos") {
        Some(Os::Macos)
    } else if str_eq(s, "linux") {
        Some(Os::Linux)
    } else if str_eq(s, "windows") {
        Some(Os::Windows)
    } else {
        None
    }
}

} // verus!
