use vstd::prelude::*;

use crate::command::{CommandSpec, RunOutcome};
use crate::platform::Platform;
use crate::text::{concat2, contains_seq, decimal_seq, trim_end, trim_end_seq};
use crate::utils::{is_process_alive, process_alive_command};

verus! {

/// How many times the log file is looked for (100 ms apart) before it is opened all the same.
pub open spec fn file_tries() -> u32 {
    50
}

/// The command that asks whether process `pid` runs (as `process_alive_command` builds it).
pub open spec fn is_alive_check(c: CommandSpec, platform: Platform, pid: u32) -> bool {
    &&& platform == Platform::Windows ==> c@.program == "tasklist"@ && c@.args == seq![
        "/FI"@,
        "PID eq "@ + decimal_seq(pid as nat),
        "/NH"@,
    ] && c@.hide_window
    &&& platform != Platform::Windows ==> c@.program == "ps"@ && c@.args == seq![
        "-p"@,
        decimal_seq(pid as nat),
    ] && !c@.hide_window
}

/// Whether that command's run says that the process lives (as `is_process_alive` reads it).
pub open spec fn alive_spec(platform: Platform, pid: u32, o: RunOutcome) -> bool {
    match o {
        RunOutcome::Failed(_) => false,
        RunOutcome::Exited(e) => if platform == Platform::Windows {
            e.success && contains_seq(e.stdout@, decimal_seq(pid as nat))
        } else {
            e.success
        },
    }
}

/// The pid file beside a log file: the log's name with its `.log` extension changed to
/// `.pid` (`.pid` added where there is none).
pub open spec fn pid_file_spec(log: Seq<char>) -> Seq<char> {
    if log.len() >= 4 && log.subrange(log.len() - 4, log.len() as int) == ".log"@ {
        log.subrange(0, log.len() - 4) + ".pid"@
    } else {
        log + ".pid"@
    }
}

fn pid_file(log: &str) -> (r: String)
    ensures
        r@ == pid_file_spec(log@),
{
    proof {
        reveal_strlit(".log");
    }
    let chars = crate::text::chars_of(log);
    let n = chars.len();
    if n >= 4 && chars[n - 4] == '.' && chars[n - 3] == 'l' && chars[n - 2] == 'o' && chars[n - 1] == 'g' {
        let mut r = String::new();
        let mut i: usize = 0;
        while i < n - 4
            invariant
                n == log@.len(),
                chars@ == log@,
                n >= 4,
                i <= n - 4,
                r@ == log@.subrange(0, i as int),
            decreases n - 4 - i,
        {
            crate::text::push_char(&mut r, chars[i]);
            assert(log@.subrange(0, i + 1) == log@.subrange(0, i as int).push(log@[i as int]));
            i = i + 1;
        }
        assert(log@.subrange(log@.len() - 4, log@.len() as int) =~= ".log"@);
        crate::text::push_str(&mut r, ".pid");
        r
    } else {
        proof {
            if log@.len() >= 4 {
                let tail = log@.subrange(log@.len() - 4, log@.len() as int);
                if tail == ".log"@ {
                    assert(tail[0] == '.' && tail[1] == 'l' && tail[2] == 'o' && tail[3] == 'g');
                }
            }
        }
        concat2(log, ".pid")
    }
}

/// Where following a session's log stands.
#[derive(Clone, Copy, Debug, PartialEq, Eq, Structural)]
pub enum FollowStage {
    /// Waiting to learn whether the log file exists (look number `0`, from 0).
    AwaitExists(u32),
    /// Waiting 100 ms after look number `0`.
    AwaitWait(u32),
    /// Waiting for the log file to be opened.
    AwaitOpen,
    /// Waiting for the next line.
    AwaitLine,
    /// Waiting for a line to be published.
    AwaitPublish,
    /// Waiting to learn whether the process lives.
    AwaitAlive,
    /// Waiting 300 ms before reading on.
    AwaitPause,
    /// Done.
    Finished,
}

/// What the application is to do next while it follows a log.
pub enum FollowAction {
    /// Find out whether the file exists; answer `Exists`.
    CheckExists(String),
    /// Wait this many milliseconds; answer `Slept`.
    Sleep(u64),
    /// Open the file for reading; answer `Opened`.
    Open(String),
    /// Read the next line, line break included; answer `Read`.
    ReadLine,
    /// Publish this line of the session's standard output; answer `Published`.
    Publish(String),
    /// Run the command that asks whether the process lives; answer `Ran`.
    CheckAlive(CommandSpec),
    /// The process has ended: announce that the session ended, then delete the log file and
    /// the pid file. Nothing more to do.
    End { log: String, pid_file: String },
    /// The log could not be opened: nothing more to do.
    Stop,
}

/// What reading a line gave.
pub enum LineRead {
    Line(String),
    /// The end of the file as it is now.
    Eof,
    Failed,
}

/// What the application reports back.
pub enum FollowEvent {
    Exists(bool),
    Slept,
    Opened(bool),
    Read(LineRead),
    Published,
    Ran(RunOutcome),
}

/// Following the log file of a session whose process (id `pid`) was started with
/// administrator rights: its lines are published while the process lives.
pub struct LogFollow {
    pub platform: Platform,
    pub log_path: String,
    pub pid: u32,
    pub stage: FollowStage,
}

/// The kind of event a stage waits for.
pub open spec fn follow_expects(stage: FollowStage, event: FollowEvent) -> bool {
    match stage {
        FollowStage::AwaitExists(_) => event is Exists,
        FollowStage::AwaitWait(_) | FollowStage::AwaitPause => event is Slept,
        FollowStage::AwaitOpen => event is Opened,
        FollowStage::AwaitLine => event is Read,
        FollowStage::AwaitPublish => event is Published,
        FollowStage::AwaitAlive => event is Ran,
        FollowStage::Finished => false,
    }
}

impl LogFollow {
    /// Starts following the log file `log_path` of process `pid`: first the file is looked
    /// for.
    pub fn new(platform: Platform, log_path: String, pid: u32) -> (r: (LogFollow, FollowAction))
        ensures
            r.0.platform == platform,
            r.0.log_path == log_path,
            r.0.pid == pid,
            r.0.stage == FollowStage::AwaitExists(0),
            r.1 matches FollowAction::CheckExists(p) && p == log_path,
    {
        let p = log_path.clone();
        (LogFollow { platform, log_path, pid, stage: FollowStage::AwaitExists(0) }, FollowAction::CheckExists(p))
    }

    /// The file is looked for at most 50 times.
    pub open spec fn wf(&self) -> bool {
        match self.stage {
            FollowStage::AwaitExists(i) => i < file_tries(),
            FollowStage::AwaitWait(i) => i < file_tries(),
            _ => true,
        }
    }

    /// Takes the application's report of the last action and says what to do next. The log
    /// file is looked for up to 50 times, 100 ms apart, then opened; where it cannot be
    /// opened, nothing more is done. Each line read is published without its trailing white
    /// space; at the end of the file, the process is asked after, and while it lives reading
    /// goes on 300 ms later; once it has ended, or reading fails, the session's end is
    /// announced and the log and pid files are deleted.
    pub fn step(&mut self, event: FollowEvent) -> (a: FollowAction)
        requires
            old(self).wf(),
            follow_expects(old(self).stage, event),
        ensures
            final(self).wf(),
            final(self).platform == old(self).platform,
            final(self).log_path == old(self).log_path,
            final(self).pid == old(self).pid,
            (a is End || a is Stop) <==> final(self).stage == FollowStage::Finished,
            a matches FollowAction::End { log, pid_file } ==> log@ == old(self).log_path@ && pid_file@
                == pid_file_spec(old(self).log_path@),
            match old(self).stage {
                FollowStage::AwaitExists(i) => if event == FollowEvent::Exists(true) {
                    final(self).stage == FollowStage::AwaitOpen && (a matches FollowAction::Open(p) && p
                        == old(self).log_path)
                } else {
                    final(self).stage == FollowStage::AwaitWait(i) && a == FollowAction::Sleep(100)
                },
                FollowStage::AwaitWait(i) => if i + 1 < file_tries() {
                    final(self).stage == FollowStage::AwaitExists((i + 1) as u32) && (a matches FollowAction::CheckExists(
                        p,
                    ) && p == old(self).log_path)
                } else {
                    final(self).stage == FollowStage::AwaitOpen && (a matches FollowAction::Open(p) && p
                        == old(self).log_path)
                },
                FollowStage::AwaitOpen => if event == FollowEvent::Opened(true) {
                    final(self).stage == FollowStage::AwaitLine && a is ReadLine
                } else {
                    a is Stop
                },
                FollowStage::AwaitLine => match event {
                    FollowEvent::Read(LineRead::Line(l)) => final(self).stage == FollowStage::AwaitPublish
                        && (a matches FollowAction::Publish(p) && p@ == trim_end_seq(l@)),
                    FollowEvent::Read(LineRead::Eof) => final(self).stage == FollowStage::AwaitAlive
                        && (a matches FollowAction::CheckAlive(c) && is_alive_check(
                        c,
                        old(self).platform,
                        old(self).pid,
                    )),
                    _ => a is End,
                },
                FollowStage::AwaitPublish | FollowStage::AwaitPause => final(self).stage
                    == FollowStage::AwaitLine && a is ReadLine,
                FollowStage::AwaitAlive => match event {
                    FollowEvent::Ran(o) => if alive_spec(old(self).platform, old(self).pid, o) {
                        final(self).stage == FollowStage::AwaitPause && a == FollowAction::Sleep(300)
                    } else {
                        a is End
                    },
                    _ => true,
                },
                FollowStage::Finished => true,
            },
    {
        let stage = self.stage;
        self.stage = FollowStage::Finished;
        match stage {
            FollowStage::AwaitExists(i) => match event {
                FollowEvent::Exists(true) => {
                    self.stage = FollowStage::AwaitOpen;
                    FollowAction::Open(self.log_path.clone())
                },
                _ => {
                    self.stage = FollowStage::AwaitWait(i);
                    FollowAction::Sleep(100)
                },
            },
            FollowStage::AwaitWait(i) => {
                if i + 1 < 50 {
                    self.stage = FollowStage::AwaitExists(i + 1);
                    FollowAction::CheckExists(self.log_path.clone())
                } else {
                    self.stage = FollowStage::AwaitOpen;
                    FollowAction::Open(self.log_path.clone())
                }
            },
            FollowStage::AwaitOpen => match event {
                FollowEvent::Opened(true) => {
                    self.stage = FollowStage::AwaitLine;
                    FollowAction::ReadLine
                },
                _ => FollowAction::Stop,
            },
            FollowStage::AwaitLine => match event {
                FollowEvent::Read(LineRead::Line(l)) => {
                    self.stage = FollowStage::AwaitPublish;
                    FollowAction::Publish(trim_end(l.as_str()))
                },
                FollowEvent::Read(LineRead::Eof) => {
                    self.stage = FollowStage::AwaitAlive;
                    FollowAction::CheckAlive(process_alive_command(self.platform, self.pid))
                },
                _ => self.end(),
            },
            FollowStage::AwaitPublish | FollowStage::AwaitPause => {
                self.stage = FollowStage::AwaitLine;
                FollowAction::ReadLine
            },
            FollowStage::AwaitAlive => match event {
                FollowEvent::Ran(o) => {
                    if is_process_alive(self.platform, self.pid, &o) {
                        self.stage = FollowStage::AwaitPause;
                        FollowAction::Sleep(300)
                    } else {
                        self.end()
                    }
                },
                _ => self.end(),
            },
            FollowStage::Finished => FollowAction::Stop,
        }
    }

    fn end(&self) -> (a: FollowAction)
        ensures
            a matches FollowAction::End { log, pid_file } && log@ == self.log_path@ && pid_file@
                == pid_file_spec(self.log_path@),
    {
        FollowAction::End { log: self.log_path.clone(), pid_file: pid_file(self.log_path.as_str()) }
    }
}

} // verus!
