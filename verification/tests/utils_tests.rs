use oneberry_devkit::command::{ExitInfo, RunOutcome};
use oneberry_devkit::platform::{HostEnv, Platform};
use oneberry_devkit::utils::{
    check_bin_in_path, cli_command, find_bin, is_process_alive, path_lookup_command,
    process_alive_command, quoted_command_line, resolve_bin, system_paths,
    bin_candidates, tailscale_download_url, tailscale_installer_name,
};

fn host(p: Platform) -> HostEnv {
    HostEnv::new(p, None, None)
}

fn exited(success: bool, stdout: &str) -> RunOutcome {
    RunOutcome::Exited(ExitInfo {
        success,
        code: Some(if success { 0 } else { 1 }),
        stdout: stdout.to_string(),
        stderr: String::new(),
    })
}

#[test]
fn host_env_defaults() {
    let h = HostEnv::new(Platform::Windows, None, Some("D:\\Local".to_string()));
    assert_eq!(h.program_files, "C:\\Program Files");
    assert_eq!(h.local_app_data, "D:\\Local");
}

#[test]
fn system_paths_per_platform() {
    assert_eq!(
        system_paths("tailscale", &host(Platform::MacOs)),
        vec![
            "/Applications/Tailscale.app/Contents/MacOS/tailscale",
            "/opt/homebrew/bin/tailscale",
            "/usr/local/bin/tailscale"
        ]
    );
    assert_eq!(system_paths("ktctl", &host(Platform::Linux)), vec!["/usr/local/bin/ktctl"]);
    assert_eq!(
        system_paths("kubectl", &host(Platform::Windows)),
        vec![
            "C:\\Program Files\\kubectl\\kubectl.exe",
            "C:\\Users\\Default\\AppData\\Local\\kubectl.exe",
            "C:\\kubectl\\kubectl.exe"
        ]
    );
    assert_eq!(
        system_paths("tailscale", &HostEnv::new(Platform::Windows, Some("E:\\PF".into()), None))[1],
        "E:\\PF\\Tailscale IPN\\tailscale.exe"
    );
    assert!(system_paths("docker", &host(Platform::MacOs)).is_empty());
}

#[test]
fn resolve_bin_takes_first_present() {
    let c = vec!["/a/t".to_string(), "/b/t".to_string(), "/c/t".to_string()];
    assert_eq!(resolve_bin("t", &c, &vec![false, true, true]), "/b/t");
    assert_eq!(resolve_bin("t", &c, &vec![false, false, false]), "t");
    assert_eq!(resolve_bin("t", &c, &vec![false]), "t");
    assert_eq!(resolve_bin("t", &c, &vec![true]), "/a/t");
}

#[test]
fn find_bin_falls_back_to_bare_name() {
    // No install location is known for this tool, so nothing is probed.
    assert_eq!(find_bin("no-such-tool", &host(Platform::Linux)), "no-such-tool");
    // Windows locations do not exist on this machine.
    assert_eq!(find_bin("ktctl", &host(Platform::Windows)), "ktctl");
}

#[test]
fn installer_and_download_page() {
    assert_eq!(tailscale_installer_name(Platform::MacOs), "tailscale-darwin.pkg");
    assert_eq!(tailscale_installer_name(Platform::Windows), "tailscale-windows.msi");
    assert_eq!(tailscale_installer_name(Platform::Linux), "");
    assert_eq!(tailscale_download_url(Platform::MacOs), "https://pkgs.tailscale.com/stable/#macos");
    assert_eq!(tailscale_download_url(Platform::Windows), "https://pkgs.tailscale.com/stable/#windows");
    assert_eq!(tailscale_download_url(Platform::Linux), "https://tailscale.com/download");
}

#[test]
fn cli_command_wraps_in_shell_on_macos() {
    let c = cli_command(Platform::MacOs, "/opt/homebrew/bin/tailscale", &["status", "--json"]);
    assert_eq!(c.program, "/bin/sh");
    assert_eq!(c.args, vec!["-c", "'/opt/homebrew/bin/tailscale' 'status' '--json'"]);
    assert!(!c.hide_window);
    let w = cli_command(Platform::Windows, "tailscale", &["down"]);
    assert_eq!(w.program, "tailscale");
    assert_eq!(w.args, vec!["down"]);
    assert!(w.hide_window);
    let l = cli_command(Platform::Linux, "tailscale", &[]);
    assert!(l.args.is_empty() && !l.hide_window);
    assert_eq!(quoted_command_line("x", &[]), "'x'");
}

#[test]
fn path_lookup() {
    let w = path_lookup_command(Platform::Windows, "tailscale");
    assert_eq!((w.program.as_str(), w.hide_window), ("where", true));
    let m = path_lookup_command(Platform::MacOs, "tailscale");
    assert_eq!(m.program, "which");
    assert_eq!(m.args, vec!["tailscale"]);
    assert_eq!(check_bin_in_path(&exited(true, "/usr/bin/tailscale\n")), (true, "/usr/bin/tailscale".to_string()));
    assert_eq!(check_bin_in_path(&exited(false, "")), (false, String::new()));
    assert_eq!(check_bin_in_path(&RunOutcome::Failed("no which".into())), (false, String::new()));
}

#[test]
fn process_liveness() {
    let w = process_alive_command(Platform::Windows, 4242);
    assert_eq!(w.program, "tasklist");
    assert_eq!(w.args, vec!["/FI", "PID eq 4242", "/NH"]);
    let l = process_alive_command(Platform::Linux, 7);
    assert_eq!(l.args, vec!["-p", "7"]);
    assert!(is_process_alive(Platform::Windows, 4242, &exited(true, "ktctl.exe  4242 Console")));
    assert!(!is_process_alive(Platform::Windows, 4242, &exited(true, "INFO: No tasks are running")));
    assert!(is_process_alive(Platform::MacOs, 1, &exited(true, "")));
    assert!(!is_process_alive(Platform::MacOs, 1, &exited(false, "")));
    assert!(!is_process_alive(Platform::Linux, 1, &RunOutcome::Failed("x".into())));
}

#[test]
fn bundled_tools_come_first() {
    let mac = HostEnv::new(Platform::MacOs, None, None).with_sidecar_dir("/App.app/Contents/MacOS".into());
    let c = bin_candidates("kubectl", &mac);
    assert_eq!(c[0], "/App.app/Contents/MacOS/kubectl");
    assert_eq!(c[1], "/opt/homebrew/bin/kubectl");
    assert_eq!(c.len(), 4);
    let win = HostEnv::new(Platform::Windows, None, None).with_sidecar_dir("C:\\DevKit".into());
    assert_eq!(bin_candidates("ktctl", &win)[0], "C:\\DevKit\\ktctl.exe");
    // Tailscale is not bundled.
    assert_eq!(bin_candidates("tailscale", &mac).len(), 3);
    assert!(bin_candidates("kubectl", &HostEnv::new(Platform::Linux, None, None))[0] != "kubectl");
}
