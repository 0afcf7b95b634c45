use oneberry_devkit::command::{ExitInfo, RunOutcome};
use oneberry_devkit::platform::Platform;
use oneberry_devkit::session::{
    build_ktctl_command, kill_root_process, recover_service_command, recover_service_reply,
    session_log_line, stop_session, stop_steps, ManagedSession, SessionInfo, SessionManager, StopStep,
};

fn info(id: &str) -> SessionInfo {
    SessionInfo {
        id: id.into(),
        service: "api".into(),
        port: 8080,
        mode: "exchange".into(),
        started_at: "2024-01-01T00:00:00+00:00".into(),
        version_header: None,
        status: "running".into(),
    }
}

fn managed(id: &str, child: u32) -> ManagedSession<u32> {
    ManagedSession { info: info(id), child: Some(child), pid: None }
}

#[test]
fn manager_registers_lists_and_removes() {
    let mut m: SessionManager<u32> = SessionManager::new();
    assert!(m.list().is_empty());
    assert!(m.insert(managed("a", 1)).is_none());
    assert!(m.insert(managed("b", 2)).is_none());
    let ids: Vec<String> = m.list().into_iter().map(|i| i.id).collect();
    assert_eq!(ids, vec!["a", "b"]);

    // Same id: the earlier session is replaced and handed back.
    let replaced = m.insert(managed("a", 3)).unwrap();
    assert_eq!(replaced.child, Some(1));
    assert_eq!(m.list().len(), 2);

    let removed = m.remove("a").unwrap();
    assert_eq!(removed.child, Some(3));
    assert!(m.remove("a").is_none());
    assert_eq!(m.list().len(), 1);
}

#[test]
fn manager_updates_status() {
    let mut m: SessionManager<u32> = SessionManager::new();
    m.insert(managed("a", 1));
    m.update_status("a", "error");
    m.update_status("missing", "error");
    assert_eq!(m.list()[0].status, "error");
}

#[test]
fn kill_all_hands_back_everything_stopped() {
    let mut m: SessionManager<u32> = SessionManager::new();
    m.insert(managed("a", 1));
    m.insert(ManagedSession { info: info("b"), child: None, pid: Some(99) });
    let all = m.kill_all();
    assert_eq!(all.len(), 2);
    assert!(all.iter().all(|s| s.info.status == "stopped"));
    assert_eq!(all[1].pid, Some(99));
    assert!(m.list().is_empty());
}

#[test]
fn stop_session_replies() {
    let mut m: SessionManager<u32> = SessionManager::new();
    m.insert(managed("s1", 5));
    let r = stop_session(&mut m, "s1");
    assert_eq!(r.reply.unwrap(), "会话 s1 已停止");
    assert_eq!(r.stopped.unwrap().child, Some(5));
    let r = stop_session(&mut m, "s1");
    assert_eq!(r.reply.err().unwrap(), "会话 s1 不存在");
    assert!(r.stopped.is_none());
}

#[test]
fn root_process_is_killed_per_platform() {
    let c = kill_root_process(Platform::MacOs, 1234);
    assert_eq!(c.program, "osascript");
    assert_eq!(c.args, vec!["-e", "do shell script \"kill 1234\" with administrator privileges"]);
    let c = kill_root_process(Platform::Linux, 1234);
    assert_eq!(c.program, "kill");
    assert_eq!(c.args, vec!["1234"]);
}

#[test]
fn ktctl_command_per_platform() {
    let c = build_ktctl_command(Platform::MacOs, "/usr/local/bin/ktctl", &["exchange", "a\"b"]);
    assert_eq!(c.args[1], "do shell script \"/usr/local/bin/ktctl exchange a\\\"b\" with administrator privileges");
    let c = build_ktctl_command(Platform::Windows, "ktctl", &["mesh", "x"]);
    assert_eq!((c.program.as_str(), c.args.clone()), ("ktctl", vec!["mesh".to_string(), "x".to_string()]));
    let c = build_ktctl_command(Platform::Linux, "ktctl", &["mesh"]);
    assert_eq!(c.program, "sudo");
    assert_eq!(c.args, vec!["ktctl", "mesh"]);
}

#[test]
fn recover_command_and_reply() {
    let c = recover_service_command(Platform::Linux, "/usr/local/bin/ktctl", "api", None);
    assert_eq!(c.program, "sudo");
    assert_eq!(c.args, vec!["/usr/local/bin/ktctl", "recover", "api", "-n", "oneberry-dev"]);
    let c = recover_service_command(Platform::MacOs, "ktctl", "it's", Some("ns".into()));
    assert_eq!(
        c.args[1],
        "do shell script \"ktctl recover it'\\\\''s -n ns\" with administrator privileges"
    );
    let ok = RunOutcome::Exited(ExitInfo { success: false, code: Some(1), stdout: String::new(), stderr: "nothing".into() });
    assert_eq!(recover_service_reply(Platform::Linux, "api", &ok).unwrap(), "服务 api 的残留会话已清理");
    let cancel = RunOutcome::Exited(ExitInfo { success: false, code: Some(1), stdout: String::new(), stderr: "User canceled".into() });
    assert_eq!(recover_service_reply(Platform::MacOs, "api", &cancel).err().unwrap(), "用户取消了授权");
    assert_eq!(recover_service_reply(Platform::Linux, "api", &cancel).unwrap(), "服务 api 的残留会话已清理");
    assert_eq!(
        recover_service_reply(Platform::MacOs, "api", &RunOutcome::Failed("x".into())).err().unwrap(),
        "清理失败: x"
    );
}

#[test]
fn log_lines_strip_trailing_space_only_from_files() {
    let l = session_log_line("s1", "stdout", "ready  \n", true, "t".into());
    assert_eq!(l.session_id, "s1");
    assert_eq!(l.stream, "stdout");
    assert_eq!(l.line, "ready");
    assert_eq!(l.timestamp, "t");
    let k = session_log_line("s1", "stderr", "  warn \n", false, "t".into());
    assert_eq!(k.line, "  warn \n");
    assert_eq!(k.stream, "stderr");
}

#[test]
fn windows_sessions_are_stopped_with_taskkill() {
    let c = kill_root_process(Platform::Windows, 4321);
    assert_eq!(c.program, "taskkill");
    assert_eq!(c.args, vec!["/PID", "4321", "/T", "/F"]);
    assert!(c.hide_window);

    let steps = stop_steps(Platform::Windows, Some(4321), None);
    assert_eq!(steps.len(), 2);
    assert!(matches!(&steps[0], StopStep::Run(c) if c.program == "taskkill" && c.args[1] == "4321"));
    assert!(matches!(steps[1], StopStep::WaitChild));

    let steps = stop_steps(Platform::Linux, Some(10), None);
    assert!(matches!(steps[0], StopStep::KillChild));
    assert!(matches!(steps[1], StopStep::WaitChild));
    assert_eq!(steps.len(), 2);

    let steps = stop_steps(Platform::MacOs, None, Some(77));
    assert_eq!(steps.len(), 1);
    assert!(matches!(&steps[0], StopStep::Run(c) if c.program == "osascript"));
    assert!(stop_steps(Platform::MacOs, None, None).is_empty());
}
