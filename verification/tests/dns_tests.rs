use oneberry_devkit::command::{ExitInfo, RunOutcome};
use oneberry_devkit::dns::{
    check_cluster_dns, ensure_cluster_dns, remove_cluster_dns, setup_cluster_dns, DnsAction,
    DnsEvent, DnsStage,
};
use oneberry_devkit::platform::Platform;

fn ran(success: bool, stdout: &str, stderr: &str) -> DnsEvent {
    DnsEvent::Ran(RunOutcome::Exited(ExitInfo {
        success,
        code: Some(if success { 0 } else { 1 }),
        stdout: stdout.into(),
        stderr: stderr.into(),
    }))
}

fn script_of(a: &DnsAction) -> String {
    match a {
        DnsAction::Run(c) => c.args.last().unwrap().clone(),
        _ => panic!("expected a command"),
    }
}

#[test]
fn linux_is_a_no_op() {
    assert!(matches!(ensure_cluster_dns(Platform::Linux).1, DnsAction::Finish(Ok(()))));
    assert!(matches!(remove_cluster_dns(Platform::Linux).1, DnsAction::Finish(Ok(()))));
    assert!(matches!(check_cluster_dns(Platform::Linux).1, DnsAction::Checked(Ok(false))));
}

#[test]
fn windows_ensure_is_idempotent() {
    let (mut t, a) = ensure_cluster_dns(Platform::Windows);
    match &a {
        DnsAction::Run(c) => {
            assert_eq!(c.program, "powershell");
            assert!(c.hide_window);
            assert_eq!(c.args[4], "(Get-DnsClientNrptRule | Where-Object { $_.Namespace -eq '.cluster.local' }).Count");
        }
        _ => panic!(),
    }
    assert!(matches!(t.step(ran(true, " 1\r\n", "")), DnsAction::Finish(Ok(()))));
    assert_eq!(t.stage, DnsStage::Finished);
}

#[test]
fn windows_ensure_elevates_when_direct_fails() {
    let (mut t, _) = ensure_cluster_dns(Platform::Windows);
    let a = t.step(ran(true, "0", ""));
    assert_eq!(script_of(&a), "Add-DnsClientNrptRule -Namespace '.cluster.local' -NameServers '10.96.0.10'");
    let a = t.step(ran(false, "", "Access denied"));
    assert_eq!(
        script_of(&a),
        "Start-Process powershell -Verb RunAs -ArgumentList '-NoProfile -ExecutionPolicy Bypass -Command \"Add-DnsClientNrptRule -Namespace '.cluster.local' -NameServers '10.96.0.10'\"' -Wait"
    );
    match t.step(ran(false, "", "The operation was canceled by the user.")) {
        DnsAction::Finish(Err(m)) => assert_eq!(m, "用户取消了管理员权限请求"),
        _ => panic!(),
    }
}

#[test]
fn windows_ensure_errors() {
    let (mut t, _) = ensure_cluster_dns(Platform::Windows);
    t.step(DnsEvent::Ran(RunOutcome::Failed("no powershell".into())));
    t.step(ran(false, "", ""));
    match t.step(ran(false, "", "boom")) {
        DnsAction::Finish(Err(m)) => assert_eq!(m, "配置 DNS 失败: boom"),
        _ => panic!(),
    }
    let (mut t, _) = ensure_cluster_dns(Platform::Windows);
    t.step(ran(true, "x", ""));
    t.step(ran(false, "", ""));
    match t.step(DnsEvent::Ran(RunOutcome::Failed("gone".into()))) {
        DnsAction::Finish(Err(m)) => assert_eq!(m, "执行 PowerShell 失败: gone"),
        _ => panic!(),
    }
}

#[test]
fn windows_remove_never_fails() {
    let (mut t, _) = remove_cluster_dns(Platform::Windows);
    assert!(matches!(t.step(ran(true, "0", "")), DnsAction::Finish(Ok(()))));
    let (mut t, _) = remove_cluster_dns(Platform::Windows);
    let a = t.step(DnsEvent::Ran(RunOutcome::Failed("?".into())));
    assert_eq!(
        script_of(&a),
        "Get-DnsClientNrptRule | Where-Object { $_.Namespace -eq '.cluster.local' } | Remove-DnsClientNrptRule -Force"
    );
    t.step(ran(false, "", "denied"));
    assert!(matches!(t.step(ran(false, "", "denied")), DnsAction::Finish(Ok(()))));
}

#[test]
fn windows_check() {
    let (mut t, _) = check_cluster_dns(Platform::Windows);
    assert!(matches!(t.step(ran(true, "2", "")), DnsAction::Checked(Ok(true))));
    let (mut t, _) = check_cluster_dns(Platform::Windows);
    match t.step(DnsEvent::Ran(RunOutcome::Failed("no ps".into()))) {
        DnsAction::Checked(Err(m)) => assert_eq!(m, "检查 DNS 配置失败: no ps"),
        _ => panic!(),
    }
}

#[test]
fn macos_ensure_and_check() {
    let (mut t, a) = ensure_cluster_dns(Platform::MacOs);
    assert!(matches!(&a, DnsAction::ReadFile(p) if p == "/etc/resolver/cluster.local"));
    assert!(matches!(t.step(DnsEvent::FileRead(Some(Ok("nameserver 10.96.0.10\n".into())))), DnsAction::Finish(Ok(()))));

    let (mut t, _) = ensure_cluster_dns(Platform::MacOs);
    let a = t.step(DnsEvent::FileRead(None));
    assert_eq!(
        script_of(&a),
        "do shell script \"mkdir -p /etc/resolver && echo 'nameserver 10.96.0.10' > /etc/resolver/cluster.local\" with administrator privileges"
    );
    match t.step(ran(false, "", "execution error: User canceled. (-128)")) {
        DnsAction::Finish(Err(m)) => assert_eq!(m, "用户取消了管理员权限请求"),
        _ => panic!(),
    }

    let (mut t, _) = check_cluster_dns(Platform::MacOs);
    assert!(matches!(t.step(DnsEvent::FileRead(Some(Ok("nameserver 1.1.1.1".into())))), DnsAction::Checked(Ok(false))));
    let (mut t, _) = check_cluster_dns(Platform::MacOs);
    assert!(matches!(t.step(DnsEvent::FileRead(Some(Err("denied".into())))), DnsAction::Checked(Err(_))));
}

#[test]
fn macos_remove() {
    let (mut t, a) = remove_cluster_dns(Platform::MacOs);
    assert!(matches!(a, DnsAction::PathExists(_)));
    assert!(matches!(t.step(DnsEvent::Exists(false)), DnsAction::Finish(Ok(()))));
    let (mut t, _) = remove_cluster_dns(Platform::MacOs);
    let a = t.step(DnsEvent::Exists(true));
    assert_eq!(script_of(&a), "do shell script \"rm -f /etc/resolver/cluster.local\" with administrator privileges");
    assert!(matches!(t.step(ran(false, "", "x")), DnsAction::Finish(Ok(()))));
}

#[test]
fn setup_reply() {
    assert_eq!(setup_cluster_dns(Ok(())).unwrap(), "集群 DNS 已配置");
    assert_eq!(setup_cluster_dns(Err("e".into())).err().unwrap(), "e");
}
