use rustfetch::extract::{gpu_field, resolution_field};
use rustfetch::info::{gather_info, Ambient};
use rustfetch::pkg::{package_candidates, packages_field, probe_presence, PkgProbe};
use rustfetch::probe::{cpu_field, de_wm_field, host_field, kernel_field, os_pretty_field,
    shell_field, terminal_env_keys, terminal_field, Platform};

fn no_probes() -> Vec<PkgProbe> {
    Vec::new()
}

#[test]
fn kernel_is_trimmed_output_or_placeholder() {
    assert_eq!(kernel_field(&Some(String::from("6.1.0-generic\n"))), "6.1.0-generic");
    assert_eq!(kernel_field(&Some(String::from("  \n"))), "-");
    assert_eq!(kernel_field(&None), "-");
}

#[test]
fn shell_from_environment_is_basename_only() {
    let r = shell_field(Platform::Linux, &Some(String::from("/bin/zsh")), false, &None, &None);
    assert_eq!(r, "zsh");
}

#[test]
fn shell_windows_fallbacks() {
    assert_eq!(shell_field(Platform::Windows, &None, true, &None, &None), "powershell");
    let comspec = Some(String::from("C:\\WINDOWS\\system32\\cmd.exe"));
    assert_eq!(shell_field(Platform::Windows, &None, false, &comspec, &None), "cmd.exe");
    assert_eq!(shell_field(Platform::Windows, &None, false, &None, &None), "cmd");
}

#[test]
fn shell_falls_back_to_parent_process() {
    let r = shell_field(Platform::Linux, &None, false, &None, &Some(String::from(" bash\n")));
    assert_eq!(r, "bash");
    assert_eq!(shell_field(Platform::Linux, &None, false, &None, &None), "-");
}

#[test]
fn terminal_takes_first_nonempty_variable() {
    let vals = vec![None, Some(String::new()), Some(String::from("iTerm.app")), None];
    let r = terminal_field(Platform::MacOs, &vals, false, &None);
    assert_eq!(r, "iTerm.app");
}

#[test]
fn terminal_windows_and_parent_fallbacks() {
    let empty: Vec<Option<String>> = Vec::new();
    assert_eq!(terminal_field(Platform::Windows, &empty, true, &None), "Windows Terminal");
    assert_eq!(terminal_field(Platform::Windows, &empty, false, &None), "ConsoleHost");
    let r = terminal_field(Platform::Linux, &empty, false, &Some(String::from("konsole\n")));
    assert_eq!(r, "konsole");
    assert_eq!(terminal_field(Platform::Linux, &empty, false, &None), "-");
}

#[test]
fn terminal_keys_are_in_priority_order() {
    let keys = terminal_env_keys();
    assert_eq!(
        keys,
        vec![
            "TERM_PROGRAM",
            "TERMINAL_EMULATOR",
            "WEZTERM_EXECUTABLE",
            "ITERM_SESSION_ID",
            "TERM",
            "WT_SESSION",
        ]
    );
}

#[test]
fn desktop_environment_fixed_and_variable_paths() {
    assert_eq!(de_wm_field(Platform::MacOs, &None, &None), "Aqua");
    assert_eq!(de_wm_field(Platform::Windows, &None, &None), "Explorer");
    assert_eq!(de_wm_field(Platform::Linux, &Some(String::from("GNOME")), &None), "GNOME");
    assert_eq!(de_wm_field(Platform::Linux, &None, &Some(String::from("plasma"))), "plasma");
    assert_eq!(de_wm_field(Platform::Linux, &None, &None), "-");
}

#[test]
fn host_falls_back_to_unknown() {
    assert_eq!(host_field(Some(String::from("box"))), "box");
    assert_eq!(host_field(Some(String::new())), "-");
    assert_eq!(host_field(None), "unknown");
}

#[test]
fn os_pretty_joins_name_and_version() {
    assert_eq!(os_pretty_field("Ubuntu", "22.04.3"), "Ubuntu 22.04.3");
}

#[test]
fn cpu_field_shows_brand_and_frequency() {
    assert_eq!(cpu_field(&Some((String::from("Apple M1"), 3200))), "Apple M1 (3200 MHz)");
    assert_eq!(cpu_field(&None), "-");
}

#[test]
fn package_candidates_per_platform() {
    assert_eq!(package_candidates(Platform::MacOs), vec!["brew", "port"]);
    assert_eq!(package_candidates(Platform::Linux), vec!["pacman", "dpkg", "rpm"]);
    assert_eq!(package_candidates(Platform::Windows), vec!["choco", "winget"]);
    assert_eq!(package_candidates(Platform::Other).len(), 0);
}

#[test]
fn packages_no_manager_present_is_placeholder() {
    assert_eq!(packages_field(&no_probes()), "-");
    let probes = vec![
        PkgProbe {
            manager: String::from("pacman"),
            present: false,
            listing: None,
            listing2: None,
        },
        PkgProbe { manager: String::from("dpkg"), present: false, listing: None, listing2: None },
    ];
    assert_eq!(packages_field(&probes), "-");
}

#[test]
fn packages_dpkg_counts_installed_lines() {
    let mut listing = String::new();
    listing.push_str("Desired=Unknown/Install\n");
    listing.push_str("| Status=Not/Inst\n");
    for i in 0..42 {
        listing.push_str(&format!("ii  package-{} 1.0 amd64 a package\n", i));
    }
    let probes = vec![
        PkgProbe {
            manager: String::from("dpkg"),
            present: true,
            listing: Some(listing),
            listing2: None,
        },
    ];
    assert_eq!(packages_field(&probes), "dpkg (42)");
}

#[test]
fn packages_brew_sums_both_listings_and_skips_empty() {
    let probes = vec![
        PkgProbe {
            manager: String::from("brew"),
            present: true,
            listing: Some(String::from("wget\ncurl\njq\n")),
            listing2: Some(String::from("firefox\nkitty\n")),
        },
    ];
    assert_eq!(packages_field(&probes), "brew (5)");
    let empty_then_port = vec![
        PkgProbe {
            manager: String::from("brew"),
            present: true,
            listing: Some(String::new()),
            listing2: None,
        },
        PkgProbe {
            manager: String::from("port"),
            present: true,
            listing: Some(String::from("vim @9.0_0 (active)\nzlib @1.2_1\n")),
            listing2: None,
        },
    ];
    assert_eq!(packages_field(&empty_then_port), "ports (2)");
}

#[test]
fn packages_pacman_counts_nonblank_lines() {
    let probes = vec![
        PkgProbe {
            manager: String::from("pacman"),
            present: true,
            listing: Some(String::from("bash\ncoreutils\nlinux\n\n")),
            listing2: None,
        },
    ];
    assert_eq!(packages_field(&probes), "pacman (3)");
}

#[test]
fn packages_failed_listing_falls_through() {
    let probes = vec![
        PkgProbe { manager: String::from("pacman"), present: true, listing: None, listing2: None },
        PkgProbe {
            manager: String::from("rpm"),
            present: true,
            listing: Some(String::from("glibc\nsystemd\n")),
            listing2: None,
        },
    ];
    assert_eq!(packages_field(&probes), "rpm (2)");
}

#[test]
fn packages_winget_counts_every_line() {
    let probes = vec![
        PkgProbe {
            manager: String::from("winget"),
            present: true,
            listing: Some(String::from("Name  Id  Version\n----\nGit   Git.Git  2.40\n")),
            listing2: None,
        },
    ];
    assert_eq!(packages_field(&probes), "winget (3)");
}

#[test]
fn resolution_extracts_every_match_on_mac() {
    let out = String::from(
        "Graphics/Displays:\n    Resolution: 2560 x 1600 Retina\n    Resolution: 1920 x 1080\n",
    );
    assert_eq!(resolution_field(Platform::MacOs, &Some(out)), "2560x1600, 1920x1080");
    assert_eq!(resolution_field(Platform::MacOs, &Some(String::from("no displays"))), "-");
    assert_eq!(resolution_field(Platform::MacOs, &None), "-");
}

#[test]
fn resolution_trims_on_linux() {
    assert_eq!(
        resolution_field(Platform::Linux, &Some(String::from("1920x1080,2560x1440\n"))),
        "1920x1080,2560x1440"
    );
    assert_eq!(resolution_field(Platform::Linux, &Some(String::from("\n"))), "-");
    assert_eq!(resolution_field(Platform::Linux, &None), "-");
}

#[test]
fn gpu_takes_first_chipset_line_on_mac() {
    let out = String::from("Graphics:\n  Chipset Model: Apple M1 Pro\n  Vendor: Apple\n");
    assert_eq!(gpu_field(Platform::MacOs, &Some(out)), "Apple M1 Pro");
    assert_eq!(gpu_field(Platform::MacOs, &Some(String::from("nothing here"))), "-");
}

#[test]
fn gpu_trims_on_linux() {
    assert_eq!(
        gpu_field(Platform::Linux, &Some(String::from(" NVIDIA Corporation AD104\n"))),
        "NVIDIA Corporation AD104"
    );
    assert_eq!(gpu_field(Platform::Linux, &None), "-");
}

#[test]
fn presence_probe_answers_each_name() {
    let names = vec![String::from("surely-not-a-real-executable-name-here")];
    let r = probe_presence(&names);
    assert_eq!(r, vec![false]);
}

#[test]
fn gathered_snapshot_leaves_no_field_empty() {
    let ambient = Ambient {
        platform: Platform::Linux,
        shell_var: Some(String::from("/bin/zsh")),
        ps_module_path: false,
        comspec: None,
        terminal_vars: vec![None, None, None, None, Some(String::from("xterm-256color")), None],
        wt_session: false,
        ppid_comm: None,
        kernel_output: Some(String::from("6.1.0-generic\n")),
        xdg_current_desktop: None,
        desktop_session: None,
        resolution_output: None,
        gpu_output: None,
        package_probes: no_probes(),
    };
    let info = gather_info(&ambient);
    let fields = [
        &info.user, &info.host, &info.os_name, &info.os_pretty, &info.kernel, &info.uptime,
        &info.shell, &info.terminal, &info.packages, &info.resolution, &info.de_wm, &info.cpu,
        &info.gpu, &info.memory,
    ];
    for f in fields {
        assert!(!f.is_empty());
    }
    assert_eq!(info.kernel, "6.1.0-generic");
    assert_eq!(info.shell, "zsh");
    assert_eq!(info.terminal, "xterm-256color");
    assert_eq!(info.packages, "-");
    assert_eq!(info.resolution, "-");
    assert_eq!(info.de_wm, "-");
    assert_eq!(info.gpu, "-");
}
