use oneberry_devkit::command::{ExitInfo, RunOutcome};
use oneberry_devkit::health::{set_monitor_active, HealthAction, HealthEvent, HealthMonitor, MonitorActive};
use oneberry_devkit::platform::{HostEnv, Platform};
use oneberry_devkit::setup::{
    check_setup, check_setup_commands, config_path, deploy_kubeconfig, get_config,
    install_tailscale, AppConfig, DeployAction, DeployEvent, InstallAction, InstallEvent,
};

fn exited(success: bool, stderr: &str) -> RunOutcome {
    RunOutcome::Exited(ExitInfo { success, code: Some(0), stdout: String::new(), stderr: stderr.into() })
}

#[test]
fn default_config() {
    let c = AppConfig::default();
    assert_eq!(c.headscale_url, "https://vpn.oneberry.cc:31443");
    assert_eq!(c.namespace, "oneberry-dev");
    assert_eq!(c.shadow_node, "hmdev-node01");
    assert_eq!(c.shadow_image, "image.hm.metavarse.tech:9443/hongmei-dev/kt-connect-shadow:v0.3.7");
    assert_eq!(c.theme, "system");
    assert_eq!(get_config(None).unwrap().theme, "system");
    assert_eq!(get_config(Some(Err("bad json".into()))).err().unwrap(), "bad json");
    assert_eq!(config_path(Some("/home/u".into())), "/home/u/.oneberry/config.json");
    assert_eq!(config_path(None), "./.oneberry/config.json");
}

#[test]
fn setup_status() {
    let h = HostEnv::new(Platform::Linux, None, None);
    let (t, k, kt) = check_setup_commands(&h);
    assert_eq!(t.args, vec!["version"]);
    assert_eq!(k.args, vec!["version", "--client", "--short"]);
    assert_eq!(kt.args, vec!["--version"]);
    let s = check_setup(&exited(true, ""), &exited(false, ""), &RunOutcome::Failed("x".into()));
    assert!(s.tailscale_installed && !s.kubectl_available && !s.ktctl_available && !s.daemon_running);
}

#[test]
fn install_on_macos_waits_for_daemon() {
    let host = HostEnv::new(Platform::MacOs, None, None);
    let (mut t, a) = install_tailscale(Platform::MacOs, Some("/App/Resources".into()), "/src/src-tauri");
    assert!(matches!(&a, InstallAction::PathExists(p) if p == "/App/Resources/resources/tailscale-darwin.pkg"));
    assert!(matches!(t.step(&host, InstallEvent::Exists(false)), InstallAction::PathExists(p) if p == "/src/src-tauri/resources/tailscale-darwin.pkg"));
    match t.step(&host, InstallEvent::Exists(true)) {
        InstallAction::Run(c) => assert_eq!(
            c.args[1],
            "do shell script \"installer -pkg '/src/src-tauri/resources/tailscale-darwin.pkg' -target /\" with administrator privileges"
        ),
        _ => panic!(),
    }
    assert!(matches!(t.step(&host, InstallEvent::Ran(exited(true, ""))), InstallAction::Run(_)));
    let mut checks = 1;
    loop {
        match t.step(&host, InstallEvent::Ran(exited(false, ""))) {
            InstallAction::Sleep(1) => {}
            InstallAction::Done(Ok(m)) => {
                assert_eq!(m, "安装完成，请在「系统设置 → 隐私与安全性」中允许 Tailscale 网络扩展");
                break;
            }
            _ => panic!(),
        }
        assert!(matches!(t.step(&host, InstallEvent::Slept), InstallAction::Run(_)));
        checks += 1;
    }
    assert_eq!(checks, 15);
}

#[test]
fn install_outcomes() {
    let host = HostEnv::new(Platform::MacOs, None, None);
    let (mut t, _) = install_tailscale(Platform::MacOs, None, "/src");
    match t.step(&host, InstallEvent::Exists(false)) {
        InstallAction::Run(c) => assert_eq!((c.program.as_str(), c.args[0].as_str()), ("open", "https://pkgs.tailscale.com/stable/#macos")),
        _ => panic!(),
    }
    match t.step(&host, InstallEvent::Ran(exited(true, ""))) {
        InstallAction::Done(Err(e)) => assert_eq!(e, "未找到内嵌安装包，已为你打开下载页面: https://pkgs.tailscale.com/stable/#macos"),
        _ => panic!(),
    }

    let (mut t, _) = install_tailscale(Platform::MacOs, None, "/src");
    t.step(&host, InstallEvent::Exists(true));
    match t.step(&host, InstallEvent::Ran(exited(false, "User canceled."))) {
        InstallAction::Done(Err(e)) => assert_eq!(e, "用户取消了安装"),
        _ => panic!(),
    }

    let (mut t, _) = install_tailscale(Platform::MacOs, None, "/src");
    t.step(&host, InstallEvent::Exists(true));
    t.step(&host, InstallEvent::Ran(exited(true, "")));
    match t.step(&host, InstallEvent::Ran(exited(true, ""))) {
        InstallAction::Done(Ok(m)) => assert_eq!(m, "安装完成，守护进程已就绪"),
        _ => panic!(),
    }

    let win = HostEnv::new(Platform::Windows, None, None);
    let (mut t, a) = install_tailscale(Platform::Windows, None, "/src");
    assert!(matches!(&a, InstallAction::PathExists(p) if p == "/src/resources/tailscale-windows.msi"));
    assert!(matches!(t.step(&win, InstallEvent::Exists(false)), InstallAction::Run(c) if c.program == "cmd"));
    match t.step(&win, InstallEvent::Ran(exited(true, ""))) {
        InstallAction::Done(Ok(m)) => assert_eq!(m, "OPEN_BROWSER:请从浏览器下载安装 Tailscale，安装完成后点击「重试」"),
        _ => panic!(),
    }

    match install_tailscale(Platform::Linux, None, "/src").1 {
        InstallAction::Done(Err(e)) => assert_eq!(e, "请手动安装 Tailscale: https://tailscale.com/download"),
        _ => panic!(),
    }
}

#[test]
fn kubeconfig_is_never_overwritten() {
    let (mut d, a) = deploy_kubeconfig(Some("/home/u".into()), None, "/src");
    assert!(matches!(&a, DeployAction::PathExists(p) if p == "/home/u/.kube/config"));
    assert!(matches!(d.step(DeployEvent::Exists(true)), DeployAction::Done));

    let (mut d, _) = deploy_kubeconfig(Some("/home/u".into()), Some("/res".into()), "/src");
    assert!(matches!(d.step(DeployEvent::Exists(false)), DeployAction::PathExists(p) if p == "/res/resources/kubeconfig"));
    assert!(matches!(d.step(DeployEvent::Exists(true)), DeployAction::CreateDir(p) if p == "/home/u/.kube"));
    assert!(matches!(d.step(DeployEvent::Io(Ok(()))), DeployAction::Copy(f, t) if f == "/res/resources/kubeconfig" && t == "/home/u/.kube/config"));
    assert!(matches!(d.step(DeployEvent::Io(Ok(()))), DeployAction::Done));

    let (mut d, _) = deploy_kubeconfig(None, None, "/src");
    assert_eq!(d.kube_config, ".kube/config");
    d.step(DeployEvent::Exists(false));
    assert!(matches!(d.step(DeployEvent::Exists(false)), DeployAction::Done));
}

#[test]
fn health_monitor_rounds() {
    let (mut h, a) = HealthMonitor::new();
    assert!(matches!(a, HealthAction::ReadActive));
    assert!(matches!(h.step(HealthEvent::Active(false)), HealthAction::Sleep(5)));
    assert!(matches!(h.step(HealthEvent::Slept), HealthAction::ReadActive));
    assert!(matches!(h.step(HealthEvent::Active(true)), HealthAction::CheckVpn));
    assert!(matches!(h.step(HealthEvent::VpnChecked(Err("x".into()))), HealthAction::CheckCluster));
    assert!(matches!(h.step(HealthEvent::ClusterChecked(Err("bad json".into()))), HealthAction::Sleep(5)));
}

#[test]
fn monitor_flag_pauses_and_resumes() {
    let flag = MonitorActive::new(true);
    assert!(flag.is_active());
    set_monitor_active(false, &flag);
    assert!(!flag.is_active());
    set_monitor_active(true, &flag);
    assert!(flag.is_active());
}

#[test]
fn install_on_windows_runs_bundled_msi() {
    let win = HostEnv::new(Platform::Windows, None, None);
    let (mut t, a) = install_tailscale(Platform::Windows, Some("C:\\App".into()), "/src");
    assert!(matches!(&a, InstallAction::PathExists(p) if p == "C:\\App/resources/tailscale-windows.msi"));
    match t.step(&win, InstallEvent::Exists(true)) {
        InstallAction::Run(c) => {
            assert_eq!(c.program, "msiexec");
            assert_eq!(c.args, vec!["/i", "C:\\App/resources/tailscale-windows.msi", "/passive", "/norestart"]);
        }
        _ => panic!(),
    }
    let cancelled = RunOutcome::Exited(ExitInfo { success: false, code: Some(1602), stdout: String::new(), stderr: String::new() });
    match t.step(&win, InstallEvent::Ran(cancelled)) {
        InstallAction::Done(Err(e)) => assert_eq!(e, "用户取消了安装"),
        _ => panic!(),
    }
    let (mut t, _) = install_tailscale(Platform::Windows, None, "/src");
    t.step(&win, InstallEvent::Exists(true));
    assert!(matches!(t.step(&win, InstallEvent::Ran(exited(true, ""))), InstallAction::Run(_)));
    assert!(matches!(t.step(&win, InstallEvent::Ran(exited(true, ""))), InstallAction::Done(Ok(m)) if m == "安装完成，守护进程已就绪"));
}
