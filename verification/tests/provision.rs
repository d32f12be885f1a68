use lua_lsp_provision::layout::plan;
use lua_lsp_provision::orchestrator::{initialize_plan, HostAction};
use lua_lsp_provision::platform::{parse_arch, parse_os, Arch, Os};
use lua_lsp_provision::resolver::resolve;

#[test]
fn resolve_supported_table_exact_suffixes() {
    let cases = [
        (Arch::X86_64, Os::Macos, "darwin-x64.tar.gz"),
        (Arch::X86_64, Os::Linux, "linux-x64.tar.gz"),
        (Arch::X86_64, Os::Windows, "win32-x64.zip"),
        (Arch::Aarch64, Os::Macos, "darwin-arm64.tar.gz"),
        (Arch::Aarch64, Os::Linux, "linux-arm64.tar.gz"),
        (Arch::X86, Os::Windows, "win32-ia32.zip"),
    ];
    for (arch, os, suffix) in cases {
        let asset = resolve(arch, os).expect("pair from the supported table");
        assert_eq!(
            asset.archive_name,
            format!("lua-language-server-3.3.1-{suffix}")
        );
        assert_eq!(
            asset.download_url,
            format!(
                "https://github.com/sumneko/lua-language-server/releases/download/3.3.1/{}",
                asset.archive_name
            )
        );
    }
}

#[test]
fn resolve_unsupported_pairs() {
    assert_eq!(resolve(Arch::Aarch64, Os::Windows), None);
    assert_eq!(resolve(Arch::X86, Os::Macos), None);
    assert_eq!(resolve(Arch::X86, Os::Linux), None);
}

#[test]
fn parse_arch_names() {
    assert_eq!(parse_arch("x86_64"), Some(Arch::X86_64));
    assert_eq!(parse_arch("aarch64"), Some(Arch::Aarch64));
    assert_eq!(parse_arch("x86"), Some(Arch::X86));
    assert_eq!(parse_arch("i386"), Some(Arch::X86));
    assert_eq!(parse_arch("arm"), None);
    assert_eq!(parse_arch(""), None);
}

#[test]
fn parse_os_names() {
    assert_eq!(parse_os("macos"), Some(Os::Macos));
    assert_eq!(parse_os("linux"), Some(Os::Linux));
    assert_eq!(parse_os("windows"), Some(Os::Windows));
    assert_eq!(parse_os("freebsd"), None);
}

#[test]
fn plan_layout_linux() {
    let layout = plan("lua-language-server", "3.3.1", Os::Linux);
    assert_eq!(layout.root_dir, "lua-language-server-3.3.1");
    assert_eq!(layout.bin_dir, "lua-language-server-3.3.1/bin");
    assert_eq!(
        layout.executable_path,
        "lua-language-server-3.3.1/bin/lua-language-server"
    );
}

#[test]
fn plan_layout_windows_appends_exe() {
    let layout = plan("lua-language-server", "3.3.1", Os::Windows);
    assert_eq!(
        layout.executable_path,
        "lua-language-server-3.3.1/bin/lua-language-server.exe"
    );
}

#[test]
fn plan_layout_deterministic() {
    for os in [Os::Macos, Os::Linux, Os::Windows] {
        let a = plan("lua-language-server", "3.3.1", os);
        let b = plan("lua-language-server", "3.3.1", os);
        assert_eq!(a, b);
    }
    let macos = plan("lua-language-server", "3.3.1", Os::Macos);
    let linux = plan("lua-language-server", "3.3.1", Os::Linux);
    assert_eq!(macos, linux);
}

#[test]
fn scenario_fresh_install_linux_x86_64() {
    let actions = initialize_plan("x86_64", "linux", false, false);
    let archive = "lua-language-server-3.3.1-linux-x64.tar.gz".to_string();
    let expected = vec![
        HostAction::CreateInstallDir {
            path: "lua-language-server-3.3.1".to_string(),
        },
        HostAction::AcquireLock {
            path: "download.lock".to_string(),
        },
        HostAction::Download {
            url: format!(
                "https://github.com/sumneko/lua-language-server/releases/download/3.3.1/{archive}"
            ),
            path: archive.clone(),
        },
        HostAction::ExtractArchive {
            archive: archive.clone(),
            root: "lua-language-server-3.3.1".to_string(),
        },
        HostAction::MakeExecutable {
            path: "lua-language-server-3.3.1/bin/lua-language-server".to_string(),
        },
        HostAction::RemoveArchive {
            path: archive.clone(),
        },
        HostAction::ReleaseLock {
            path: "download.lock".to_string(),
        },
        HostAction::StartServer {
            executable: "lua-language-server-3.3.1/bin/lua-language-server".to_string(),
            language_id: "lua".to_string(),
        },
    ];
    assert_eq!(actions, expected);
}

#[test]
fn scenario_stale_archive_removed_first() {
    let actions = initialize_plan("x86_64", "linux", false, true);
    assert_eq!(actions.len(), 9);
    assert!(matches!(&actions[2], HostAction::RemoveStaleArchive { path }
        if path == "lua-language-server-3.3.1-linux-x64.tar.gz"));
    assert!(matches!(&actions[3], HostAction::Download { .. }));
}

#[test]
fn scenario_unsupported_platform_does_nothing() {
    assert_eq!(initialize_plan("arm", "linux", false, false), vec![]);
    assert_eq!(initialize_plan("arm", "linux", true, true), vec![]);
    assert_eq!(initialize_plan("aarch64", "windows", false, false), vec![]);
    assert_eq!(initialize_plan("x86_64", "plan9", false, false), vec![]);
}

#[test]
fn scenario_already_installed_skips_to_launch() {
    for stale in [false, true] {
        let actions = initialize_plan("x86_64", "linux", true, stale);
        let expected = vec![
            HostAction::CreateInstallDir {
                path: "lua-language-server-3.3.1".to_string(),
            },
            HostAction::AcquireLock {
                path: "download.lock".to_string(),
            },
            HostAction::ReleaseLock {
                path: "download.lock".to_string(),
            },
            HostAction::StartServer {
                executable: "lua-language-server-3.3.1/bin/lua-language-server".to_string(),
                language_id: "lua".to_string(),
            },
        ];
        assert_eq!(actions, expected);
    }
}

#[test]
fn lock_acquired_and_released_exactly_once() {
    for installed in [false, true] {
        for stale in [false, true] {
            let actions = initialize_plan("aarch64", "macos", installed, stale);
            let acquires = actions
                .iter()
                .filter(|a| matches!(a, HostAction::AcquireLock { .. }))
                .count();
            let releases = actions
                .iter()
                .filter(|a| matches!(a, HostAction::ReleaseLock { .. }))
                .count();
            assert_eq!(acquires, 1);
            assert_eq!(releases, 1);
        }
    }
}

#[test]
fn windows_plan_uses_zip_archive_and_exe() {
    let actions = initialize_plan("x86", "windows", false, false);
    assert!(matches!(&actions[2], HostAction::Download { url, path }
        if path == "lua-language-server-3.3.1-win32-ia32.zip"
            && url.ends_with("/lua-language-server-3.3.1-win32-ia32.zip")));
    assert!(matches!(&actions[4], HostAction::MakeExecutable { path }
        if path == "lua-language-server-3.3.1/bin/lua-language-server.exe"));
}
