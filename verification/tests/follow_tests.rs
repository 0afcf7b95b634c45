use oneberry_devkit::command::{ExitInfo, RunOutcome};
use oneberry_devkit::follow::{FollowAction, FollowEvent, LineRead, LogFollow};
use oneberry_devkit::platform::Platform;

fn ran(success: bool) -> RunOutcome {
    RunOutcome::Exited(ExitInfo { success, code: Some(0), stdout: String::new(), stderr: String::new() })
}

#[test]
fn log_is_followed_until_the_process_ends() {
    let (mut f, a) = LogFollow::new(Platform::MacOs, "/tmp/oneberry-devkit/s1.log".into(), 42);
    assert!(matches!(a, FollowAction::CheckExists(ref p) if p == "/tmp/oneberry-devkit/s1.log"));
    assert!(matches!(f.step(FollowEvent::Exists(false)), FollowAction::Sleep(100)));
    assert!(matches!(f.step(FollowEvent::Slept), FollowAction::CheckExists(_)));
    assert!(matches!(f.step(FollowEvent::Exists(true)), FollowAction::Open(_)));
    assert!(matches!(f.step(FollowEvent::Opened(true)), FollowAction::ReadLine));
    assert!(matches!(f.step(FollowEvent::Read(LineRead::Line("ready \n".into()))), FollowAction::Publish(ref l) if l == "ready"));
    assert!(matches!(f.step(FollowEvent::Published), FollowAction::ReadLine));
    match f.step(FollowEvent::Read(LineRead::Eof)) {
        FollowAction::CheckAlive(c) => {
            assert_eq!(c.program, "ps");
            assert_eq!(c.args, vec!["-p", "42"]);
        }
        _ => panic!(),
    }
    assert!(matches!(f.step(FollowEvent::Ran(ran(true))), FollowAction::Sleep(300)));
    assert!(matches!(f.step(FollowEvent::Slept), FollowAction::ReadLine));
    f.step(FollowEvent::Read(LineRead::Eof));
    match f.step(FollowEvent::Ran(ran(false))) {
        FollowAction::End { log, pid_file } => {
            assert_eq!(log, "/tmp/oneberry-devkit/s1.log");
            assert_eq!(pid_file, "/tmp/oneberry-devkit/s1.pid");
        }
        _ => panic!(),
    }
}

#[test]
fn log_is_opened_after_fifty_looks_and_given_up_if_it_cannot_be() {
    let (mut f, _) = LogFollow::new(Platform::Linux, "x.log".into(), 7);
    let mut looks = 1;
    loop {
        assert!(matches!(f.step(FollowEvent::Exists(false)), FollowAction::Sleep(100)));
        match f.step(FollowEvent::Slept) {
            FollowAction::CheckExists(_) => looks += 1,
            FollowAction::Open(_) => break,
            _ => panic!(),
        }
    }
    assert_eq!(looks, 50);
    assert!(matches!(f.step(FollowEvent::Opened(false)), FollowAction::Stop));
}
