use oneberry_devkit::command::{ExitInfo, RunOutcome};
use oneberry_devkit::json::JsonValue;
use oneberry_devkit::platform::{HostEnv, Platform};
use oneberry_devkit::vpn::{
    check_vpn, connect_vpn, disconnect_vpn, open_auth_url, open_auth_url_reply, status_of_backend,
    vpn_status_from_report, vpn_status_from_run, ConnectAction, ConnectEvent, ConnectStage,
    DisconnectAction, DisconnectEvent, VpnCheckAction, VpnCheckEvent, VpnStatus,
};

fn obj(members: Vec<(&str, JsonValue)>) -> JsonValue {
    JsonValue::Object(members.into_iter().map(|(k, v)| (k.to_string(), v)).collect())
}

fn s(x: &str) -> JsonValue {
    JsonValue::String(x.into())
}

fn report(backend: &str, auth: Option<&str>) -> JsonValue {
    let mut m = vec![
        ("BackendState", s(backend)),
        (
            "Self",
            obj(vec![
                ("HostName", s("dev-mac")),
                ("TailscaleIPs", JsonValue::Array(vec![s("100.64.0.7"), s("fd7a::7")])),
            ]),
        ),
    ];
    if let Some(a) = auth {
        m.push(("AuthURL", s(a)));
    }
    obj(m)
}

fn exited(success: bool, code: Option<i32>, stdout: &str, stderr: &str) -> RunOutcome {
    RunOutcome::Exited(ExitInfo { success, code, stdout: stdout.into(), stderr: stderr.into() })
}

fn status(st: &str, auth: Option<&str>) -> VpnStatus {
    VpnStatus { status: st.into(), auth_url: auth.map(String::from), ip: None, hostname: None, debug_info: None }
}

#[test]
fn backend_states() {
    assert_eq!(status_of_backend("Running"), "connected");
    assert_eq!(status_of_backend("NeedsLogin"), "needs_login");
    assert_eq!(status_of_backend("NeedsMachineAuth"), "needs_auth");
    assert_eq!(status_of_backend("Stopped"), "disconnected");
    assert_eq!(status_of_backend("Starting"), "disconnected");
}

#[test]
fn report_gives_address_only_when_connected() {
    let r = vpn_status_from_report(&report("Running", None), "bin_path=x".into());
    assert_eq!(r.status, "connected");
    assert_eq!(r.ip.as_deref(), Some("100.64.0.7"));
    assert_eq!(r.hostname.as_deref(), Some("dev-mac"));
    assert_eq!(r.debug_info.as_deref(), Some("bin_path=x, backend=Running, verdict=connected"));

    let r = vpn_status_from_report(&report("NeedsLogin", Some("https://login")), "d".into());
    assert_eq!(r.status, "needs_login");
    assert!(r.ip.is_none() && r.hostname.is_none());
    assert_eq!(r.auth_url.as_deref(), Some("https://login"));

    let r = vpn_status_from_report(&obj(vec![]), "d".into());
    assert_eq!(r.debug_info.as_deref(), Some("d, backend=Unknown, verdict=disconnected"));
}

#[test]
fn failed_status_runs() {
    let unused: Result<JsonValue, String> = Ok(JsonValue::Null);
    let r = vpn_status_from_run(&RunOutcome::Failed("denied".into()), &unused, "b".into());
    assert_eq!(r.status, "not_installed");
    assert_eq!(r.debug_info.unwrap(), "b, cmd_err=denied, verdict=not_installed(exec_fail)");

    let r = vpn_status_from_run(&exited(false, Some(127), "", "sh: tailscale: command not found\n"), &unused, "b".into());
    assert_eq!(r.status, "not_installed");
    assert_eq!(
        r.debug_info.unwrap(),
        "b, exit=127, stderr=sh: tailscale: command not found, verdict=not_installed(broken_wrapper)"
    );

    let r = vpn_status_from_run(&exited(false, None, "", "daemon not running"), &unused, "b".into());
    assert_eq!(r.status, "disconnected");
    assert_eq!(r.debug_info.unwrap(), "b, exit=-1, stderr=daemon not running, verdict=disconnected(cmd_failed)");

    let r = vpn_status_from_run(
        &exited(false, Some(1), "", "/Applications/Tailscale.app/x: No such file or directory"),
        &unused,
        "b".into(),
    );
    assert_eq!(r.status, "not_installed");
}

#[test]
fn output_that_is_not_json() {
    let r = vpn_status_from_run(&exited(true, Some(0), " oops \n", ""), &Err("expected value".into()), "b".into());
    assert_eq!(r.status, "disconnected");
    assert_eq!(
        r.debug_info.unwrap(),
        "b, parse_err=expected value, stdout_len=7, stdout_preview=[oops], verdict=disconnected(bad_json)"
    );
    let long = "x".repeat(250);
    let r = vpn_status_from_run(&exited(true, Some(0), &long, ""), &Err("e".into()), "b".into());
    let expected = format!("b, parse_err=e, stdout_len=250, stdout_preview=[{}...], verdict=disconnected(bad_json)", "x".repeat(200));
    assert_eq!(r.debug_info.unwrap(), expected);
}

#[test]
fn check_vpn_looks_up_path_for_bare_name() {
    let host = HostEnv::new(Platform::Windows, None, None);
    let (mut c, a) = check_vpn(&host);
    assert_eq!(c.bin, "tailscale");
    assert!(matches!(&a, VpnCheckAction::Lookup(cmd) if cmd.program == "where"));
    match c.step(VpnCheckEvent::Ran(exited(false, Some(1), "", ""))) {
        VpnCheckAction::Finish(st) => {
            assert_eq!(st.status, "not_installed");
            assert_eq!(
                st.debug_info.unwrap(),
                "bin_path=tailscale, which_exists=false, which_path=, verdict=not_installed(binary_missing)"
            );
        }
        _ => panic!(),
    }

    let (mut c, _) = check_vpn(&host);
    match c.step(VpnCheckEvent::Ran(exited(true, Some(0), "C:\\ts\\tailscale.exe\r\n", ""))) {
        VpnCheckAction::Status(cmd) => {
            assert_eq!(cmd.program, "tailscale");
            assert_eq!(cmd.args, vec!["status", "--json"]);
        }
        _ => panic!(),
    }
    let out = "  {\"BackendState\": \"Running\", \"Self\": {\"HostName\": \"pc\", \"TailscaleIPs\": [\"100.64.0.5\"]}}\n";
    match c.step(VpnCheckEvent::Status(exited(true, Some(0), out, ""))) {
        VpnCheckAction::Finish(st) => {
            assert_eq!(st.status, "connected");
            assert_eq!(st.ip.as_deref(), Some("100.64.0.5"));
            assert_eq!(st.hostname.as_deref(), Some("pc"));
            assert_eq!(
                st.debug_info.unwrap(),
                "bin_path=tailscale, which_exists=true, which_path=C:\\ts\\tailscale.exe, backend=Running, verdict=connected"
            );
        }
        _ => panic!(),
    }
}

#[test]
fn connect_polls_three_times_then_gives_up() {
    let host = HostEnv::new(Platform::Linux, None, None);
    let (mut c, a) = connect_vpn(&host, None);
    match &a {
        ConnectAction::Spawn(cmd) => assert_eq!(
            cmd.args,
            vec!["up", "--login-server", "https://vpn.oneberry.cc:31443", "--accept-routes", "--reset"]
        ),
        _ => panic!(),
    }
    assert!(matches!(c.step(ConnectEvent::Spawned(Ok(()))), ConnectAction::Sleep(3)));
    let mut checks = 0;
    loop {
        match c.step(ConnectEvent::Slept) {
            ConnectAction::CheckVpn => checks += 1,
            _ => panic!(),
        }
        match c.step(ConnectEvent::Checked(status("disconnected", None))) {
            ConnectAction::Sleep(2) => continue,
            ConnectAction::Done(Ok(m)) => {
                assert_eq!(m, "VPN 连接请求已发送，正在等待认证...");
                break;
            }
            _ => panic!(),
        }
    }
    assert_eq!(checks, 3);
    assert_eq!(c.stage, ConnectStage::Finished);
}

#[test]
fn connect_outcomes() {
    let host = HostEnv::new(Platform::MacOs, None, None);
    let (mut c, _) = connect_vpn(&host, Some("https://hs.example".into()));
    match c.step(ConnectEvent::Spawned(Err("no binary".into()))) {
        ConnectAction::Done(Err(e)) => assert_eq!(e, "启动 Tailscale 失败: no binary"),
        _ => panic!(),
    }

    let (mut c, _) = connect_vpn(&host, None);
    c.step(ConnectEvent::Spawned(Ok(())));
    c.step(ConnectEvent::Slept);
    assert!(matches!(c.step(ConnectEvent::Checked(status("connected", None))), ConnectAction::EnsureDns));
    match c.step(ConnectEvent::DnsDone) {
        ConnectAction::Done(Ok(m)) => assert_eq!(m, "VPN 已连接"),
        _ => panic!(),
    }

    let (mut c, _) = connect_vpn(&host, None);
    c.step(ConnectEvent::Spawned(Ok(())));
    c.step(ConnectEvent::Slept);
    match c.step(ConnectEvent::Checked(status("disconnected", Some("https://auth/1")))) {
        ConnectAction::Done(Ok(m)) => assert_eq!(m, "AUTH_REQUIRED:https://auth/1"),
        _ => panic!(),
    }

    let (mut c, _) = connect_vpn(&host, None);
    c.step(ConnectEvent::Spawned(Ok(())));
    c.step(ConnectEvent::Slept);
    match c.step(ConnectEvent::Checked(status("needs_login", Some("")))) {
        ConnectAction::Done(Ok(m)) => assert_eq!(m, "AUTH_REQUIRED:"),
        _ => panic!(),
    }
}

#[test]
fn disconnect_removes_dns_first() {
    let host = HostEnv::new(Platform::Linux, None, None);
    let (mut d, a) = disconnect_vpn(&host);
    assert!(matches!(a, DisconnectAction::RemoveDns));
    match d.step(DisconnectEvent::DnsDone) {
        DisconnectAction::Spawn(c) => assert_eq!(c.args, vec!["down"]),
        _ => panic!(),
    }
    match d.step(DisconnectEvent::Spawned(Ok(()))) {
        DisconnectAction::Done(Ok(m)) => assert_eq!(m, "VPN 已断开"),
        _ => panic!(),
    }
    let (mut d, _) = disconnect_vpn(&host);
    d.step(DisconnectEvent::DnsDone);
    match d.step(DisconnectEvent::Spawned(Err("x".into()))) {
        DisconnectAction::Done(Err(m)) => assert_eq!(m, "断开失败: x"),
        _ => panic!(),
    }
}

#[test]
fn browser_commands() {
    let c = open_auth_url(Platform::Windows, "https://a");
    assert_eq!(c.program, "cmd");
    assert_eq!(c.args, vec!["/c", "start", "", "https://a"]);
    assert!(c.hide_window);
    assert_eq!(open_auth_url(Platform::MacOs, "u").program, "open");
    assert_eq!(open_auth_url(Platform::Linux, "u").program, "xdg-open");
    assert_eq!(open_auth_url_reply(Err("e".into())).err().unwrap(), "Failed to open browser: e");
    assert!(open_auth_url_reply(Ok(())).is_ok());
}

#[test]
fn status_output_that_is_not_json_is_described() {
    let host = HostEnv::new(Platform::Linux, None, None);
    let (mut c, _) = check_vpn(&host);
    c.step(VpnCheckEvent::Ran(exited(true, Some(0), "/usr/bin/tailscale\n", "")));
    match c.report_status(exited(true, Some(0), "not json", "")) {
        Some(VpnCheckAction::Finish(st)) => {
            assert_eq!(st.status, "disconnected");
            let d = st.debug_info.unwrap();
            assert!(d.contains(", parse_err=expected ident at line 1 column 2, stdout_len=8, stdout_preview=[not json], verdict=disconnected(bad_json)"), "{}", d);
        }
        _ => panic!(),
    }
    // 199 ASCII bytes and a two-byte character: the first 200 bytes end inside it.
    let (mut c, _) = check_vpn(&host);
    c.step(VpnCheckEvent::Ran(exited(true, Some(0), "/usr/bin/tailscale\n", "")));
    let long = format!("{}é", "x".repeat(199));
    assert!(c.report_status(exited(true, Some(0), &long, "")).is_none());
}
