use oneberry_devkit::command::{ExitInfo, RunOutcome};
use oneberry_devkit::launch::{
    launch_script, path_join, session_id, spawn_session, start_exchange, start_mesh,
    LaunchAction, LaunchEvent,
};
use oneberry_devkit::platform::{HostEnv, Platform};
use oneberry_devkit::session::SessionManager;

fn exited(success: bool, stderr: &str) -> RunOutcome {
    RunOutcome::Exited(ExitInfo { success, code: Some(if success { 0 } else { 1 }), stdout: String::new(), stderr: stderr.into() })
}

#[test]
fn exchange_plan() {
    let r = start_exchange("api", 8080, None, true, 1725029869, "now".into()).unwrap();
    assert_eq!(r.0.id, "exchange-api-1725029869");
    assert_eq!(r.0.mode, "exchange");
    assert_eq!(r.0.status, "starting");
    assert!(r.0.version_header.is_none());
    assert_eq!(r.1, vec!["exchange", "api", "--expose", "8080", "-n", "oneberry-dev"]);
    let e = start_exchange("api", 8080, Some("dev2".into()), false, 0, "now".into()).err().unwrap();
    assert_eq!(e, "本地端口 8080 无服务监听，请先启动本地服务");
}

#[test]
fn mesh_plan_has_version_header() {
    let r = start_mesh("web", 3000, Some("ns".into()), true, 1725029869, "now".into()).unwrap();
    assert_eq!(r.0.id, "mesh-web-1725029869");
    assert_eq!(r.0.version_header.as_deref(), Some("devkit-029869"));
    assert_eq!(r.1, vec!["mesh", "web", "--expose", "3000", "--versionMark", "devkit-029869", "-n", "ns"]);
    assert_eq!(session_id("mesh", "a", -5), "mesh-a--5");
}

#[test]
fn mesh_refused_when_nothing_listens() {
    let e = start_mesh("网关服务", 3000, None, false, 1, "now".into()).err().unwrap();
    assert_eq!(e, "本地端口 3000 无服务监听，请先启动本地服务");
}

#[test]
fn paths_join_like_unix_paths() {
    assert_eq!(path_join("/tmp/oneberry-devkit", "x.log"), "/tmp/oneberry-devkit/x.log");
    assert_eq!(path_join("/tmp/", "x.log"), "/tmp/x.log");
    assert_eq!(path_join("", "x.log"), "x.log");
    assert_eq!(path_join("/tmp", "/abs"), "/abs");
}

#[test]
fn start_script_quotes_arguments() {
    let s = launch_script("/usr/local/bin/ktctl", &vec!["exchange".into(), "o'k".into()], "/t/a.log", "/t/a.pid");
    assert_eq!(s, "#!/bin/bash\n'/usr/local/bin/ktctl' 'exchange' 'o'\\''k' > '/t/a.log' 2>&1 &\necho $! > '/t/a.pid'\n");
}

#[test]
fn linux_launch_registers_running_session() {
    let host = HostEnv::new(Platform::Linux, None, None);
    let (info, args) = start_exchange("api", 8080, None, true, 1700000000, "t".into()).unwrap();
    let (mut l, a) = spawn_session(&host, "/tmp/oneberry-devkit", info, args);
    match &a {
        LaunchAction::Spawn(c) => {
            assert_eq!(c.program, "sudo");
            assert_eq!(c.args[1..], ["exchange", "api", "--expose", "8080", "-n", "oneberry-dev"]);
        }
        _ => panic!(),
    }
    let mut m: SessionManager<u32> = SessionManager::new();
    match l.step(&mut m, LaunchEvent::Spawned(Ok(17))) {
        LaunchAction::Done(Ok(i)) => assert_eq!(i.status, "running"),
        _ => panic!(),
    }
    assert_eq!(m.list()[0].id, "exchange-api-1700000000");
    assert_eq!(m.remove("exchange-api-1700000000").unwrap().child, Some(17));
}

#[test]
fn failed_spawn_leaves_manager_alone() {
    let host = HostEnv::new(Platform::Windows, None, None);
    let (info, args) = start_exchange("api", 1, None, true, 1, "t".into()).unwrap();
    let (mut l, _) = spawn_session(&host, "/tmp", info, args);
    let mut m: SessionManager<u32> = SessionManager::new();
    match l.step(&mut m, LaunchEvent::Spawned(Err("not found".into()))) {
        LaunchAction::Done(Err(e)) => assert_eq!(e, "启动 ktctl 失败: not found"),
        _ => panic!(),
    }
    assert!(m.list().is_empty());
}

#[test]
fn macos_launch_goes_through_osascript() {
    let host = HostEnv::new(Platform::MacOs, None, None);
    let (info, args) = start_exchange("api", 8080, None, true, 1700000000, "t".into()).unwrap();
    let (mut l, a) = spawn_session(&host, "/tmp/d", info, args);
    assert!(matches!(&a, LaunchAction::CreateDir(d) if d == "/tmp/d"));
    let mut m: SessionManager<u32> = SessionManager::new();
    match l.step(&mut m, LaunchEvent::Io(Ok(()))) {
        LaunchAction::WriteFile(p, c) => {
            assert_eq!(p, "/tmp/d/exchange-api-1700000000.sh");
            assert!(c.contains("> '/tmp/d/exchange-api-1700000000.log' 2>&1 &"));
        }
        _ => panic!(),
    }
    match l.step(&mut m, LaunchEvent::Io(Ok(()))) {
        LaunchAction::Run(c) => assert_eq!(
            c.args[1],
            "do shell script \"/bin/bash '/tmp/d/exchange-api-1700000000.sh'\" with administrator privileges"
        ),
        _ => panic!(),
    }
    assert!(matches!(l.step(&mut m, LaunchEvent::Ran(exited(true, ""))), LaunchAction::RemoveFile(_)));
    assert!(matches!(l.step(&mut m, LaunchEvent::Io(Ok(()))), LaunchAction::ReadFile(p) if p == "/tmp/d/exchange-api-1700000000.pid"));
    match l.step(&mut m, LaunchEvent::Read(Ok(" 4321\n".into()))) {
        LaunchAction::FollowLog(p, pid) => {
            assert_eq!(p, "/tmp/d/exchange-api-1700000000.log");
            assert_eq!(pid, 4321);
        }
        _ => panic!(),
    }
    assert!(matches!(l.step(&mut m, LaunchEvent::Io(Ok(()))), LaunchAction::Done(Ok(_))));
    let s = m.remove("exchange-api-1700000000").unwrap();
    assert_eq!((s.pid, s.child), (Some(4321), None));
}

#[test]
fn macos_launch_errors() {
    let host = HostEnv::new(Platform::MacOs, None, None);
    let mut m: SessionManager<u32> = SessionManager::new();
    let (info, args) = start_exchange("api", 1, None, true, 1, "t".into()).unwrap();

    let (mut l, _) = spawn_session(&host, "/d", info.clone(), args.clone());
    match l.step(&mut m, LaunchEvent::Io(Err("read-only".into()))) {
        LaunchAction::Done(Err(e)) => assert_eq!(e, "无法创建日志目录: read-only"),
        _ => panic!(),
    }

    let (mut l, _) = spawn_session(&host, "/d", info.clone(), args.clone());
    l.step(&mut m, LaunchEvent::Io(Ok(())));
    l.step(&mut m, LaunchEvent::Io(Ok(())));
    l.step(&mut m, LaunchEvent::Ran(exited(false, "execution error: User canceled. (-128)")));
    match l.step(&mut m, LaunchEvent::Io(Ok(()))) {
        LaunchAction::Done(Err(e)) => assert_eq!(e, "用户取消了授权"),
        _ => panic!(),
    }

    let (mut l, _) = spawn_session(&host, "/d", info.clone(), args.clone());
    l.step(&mut m, LaunchEvent::Io(Ok(())));
    l.step(&mut m, LaunchEvent::Io(Ok(())));
    l.step(&mut m, LaunchEvent::Ran(exited(true, "")));
    l.step(&mut m, LaunchEvent::Io(Ok(())));
    match l.step(&mut m, LaunchEvent::Read(Ok("abc\n".into()))) {
        LaunchAction::Done(Err(e)) => assert_eq!(e, "无效的 PID: abc"),
        _ => panic!(),
    }
    assert!(m.list().is_empty());
}
