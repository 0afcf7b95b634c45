use vstd::prelude::*;
use vstd::string::StringSliceAdditionalSpecFns;
use vstd::utf8::{decode_utf8, encode_utf8, encode_utf8_decode_utf8, is_char_boundary};

use crate::command::{
    admin_script, admin_script_spec, command, osascript_command, prompt_cancelled,
    prompt_cancelled_spec, CommandSpec, RunOutcome,
};
use crate::platform::{HostEnv, Platform};
use crate::session::{
    namespace_or_default, sh_escape, ManagedSession, SessionInfo, SessionManager,
};
use crate::text::{
    concat2, concat3, decimal_seq, i64_to_string, int_decimal, join, join_seq, owned,
    parse_u32, parse_u32_seq, push_str, replace_char, string_or, string_views, trim, trim_seq,
    u64_to_string,
};
use crate::utils::{find_bin, resolve_bin_spec, bin_candidates_spec};

verus! {

/// The refusal to start a session for a local port on which nothing listens.
pub open spec fn port_refused_spec(port: u16) -> Seq<char> {
    "本地端口 "@ + decimal_seq(port as nat) + " 无服务监听，请先启动本地服务"@
}

/// The id of a session: its mode, the service, and the time (in seconds) it was asked for.
pub open spec fn session_id_spec(mode: Seq<char>, service: Seq<char>, timestamp: i64) -> Seq<char> {
    mode + "-"@ + service + "-"@ + int_decimal(timestamp as int)
}

/// The arguments of `ktctl` for a session of the given mode.
pub open spec fn ktctl_args_spec(mode: Seq<char>, service: Seq<char>, port: u16, ns: Seq<char>) -> Seq<Seq<char>> {
    seq![mode, service, "--expose"@, decimal_seq(port as nat), "-n"@, ns]
}

/// The arguments of `ktctl` for a mesh session: only requests that carry the version mark
/// `version` in their version header reach the local port.
pub open spec fn mesh_args_spec(service: Seq<char>, port: u16, version: Seq<char>, ns: Seq<char>) -> Seq<Seq<char>> {
    seq!["mesh"@, service, "--expose"@, decimal_seq(port as nat), "--versionMark"@, version, "-n"@, ns]
}

/// `mode-service-timestamp`.
pub fn session_id(mode: &str, service: &str, timestamp: i64) -> (r: String)
    ensures
        r@ == session_id_spec(mode@, service@, timestamp),
{
    let mut id = concat3(mode, "-", service);
    push_str(&mut id, "-");
    push_str(&mut id, i64_to_string(timestamp).as_str());
    id
}

fn ktctl_args(mode: &str, service: &str, port: u16, ns: &str) -> (v: Vec<String>)
    ensures
        string_views(v@) == ktctl_args_spec(mode@, service@, port, ns@),
{
    let mut v: Vec<String> = Vec::new();
    v.push(owned(mode));
    v.push(owned(service));
    v.push(owned("--expose"));
    v.push(u64_to_string(port as u64));
    v.push(owned("-n"));
    v.push(owned(ns));
    assert(string_views(v@) =~= ktctl_args_spec(mode@, service@, port, ns@));
    v
}

fn mesh_args(service: &str, port: u16, version: &str, ns: &str) -> (v: Vec<String>)
    ensures
        string_views(v@) == mesh_args_spec(service@, port, version@, ns@),
{
    let mut v: Vec<String> = Vec::new();
    v.push(owned("mesh"));
    v.push(owned(service));
    v.push(owned("--expose"));
    v.push(u64_to_string(port as u64));
    v.push(owned("--versionMark"));
    v.push(owned(version));
    v.push(owned("-n"));
    v.push(owned(ns));
    assert(string_views(v@) =~= mesh_args_spec(service@, port, version@, ns@));
    v
}

/// What starting an exchange session asks of `ktctl`: the session's description (status
/// `"starting"`, no version header) and the arguments; refused where nothing listens on the
/// local port. `timestamp` and `started_at` are the time of the request, in seconds and in
/// RFC 3339.
pub fn start_exchange(
    service: &str,
    port: u16,
    namespace: Option<String>,
    listening: bool,
    timestamp: i64,
    started_at: String,
) -> (r: Result<(SessionInfo, Vec<String>), String>)
    ensures
        !listening ==> (r matches Err(m) && m@ == port_refused_spec(port)),
        listening ==> (r matches Ok((info, args)) && {
            &&& info.id@ == session_id_spec("exchange"@, service@, timestamp)
            &&& info.service@ == service@
            &&& info.port == port
            &&& info.mode@ == "exchange"@
            &&& info.started_at == started_at
            &&& info.version_header is None
            &&& info.status@ == "starting"@
            &&& string_views(args@) == ktctl_args_spec(
                "exchange"@,
                service@,
                port,
                namespace_or_default(namespace),
            )
        }),
{
    if !listening {
        let mut m = owned("本地端口 ");
        push_str(&mut m, u64_to_string(port as u64).as_str());
        push_str(&mut m, " 无服务监听，请先启动本地服务");
        return Err(m);
    }
    let ns = string_or(namespace, "oneberry-dev");
    let info = SessionInfo {
        id: session_id("exchange", service, timestamp),
        service: owned(service),
        port,
        mode: owned("exchange"),
        started_at,
        version_header: None,
        status: owned("starting"),
    };
    Ok((info, ktctl_args("exchange", service, port, ns.as_str())))
}

/// The version header of a mesh session: `devkit-` and the last six bytes of its id.
pub open spec fn mesh_version_spec(id: Seq<char>) -> Seq<char> {
    let bytes = encode_utf8(id);
    "devkit-"@ + decode_utf8(bytes.subrange(bytes.len() - 6, bytes.len() as int))
}

/// The last six bytes of a mesh session's id fall on a character boundary (they do whenever
/// the timestamp has at least five digits), and the id's length fits in memory.
pub open spec fn mesh_id_splits(service: Seq<char>, timestamp: i64) -> bool {
    let bytes = encode_utf8(session_id_spec("mesh"@, service, timestamp));
    6 <= bytes.len() <= usize::MAX && is_char_boundary(bytes, bytes.len() - 6)
}

/// What starting a mesh session asks of `ktctl`, as `start_exchange` does, with a version
/// header made from the end of the session's id, handed to `ktctl` as the version mark.
pub fn start_mesh(
    service: &str,
    port: u16,
    namespace: Option<String>,
    listening: bool,
    timestamp: i64,
    started_at: String,
) -> (r: Result<(SessionInfo, Vec<String>), String>)
    requires
        listening ==> mesh_id_splits(service@, timestamp),
    ensures
        !listening ==> (r matches Err(m) && m@ == port_refused_spec(port)),
        listening ==> (r matches Ok((info, args)) && {
            &&& info.id@ == session_id_spec("mesh"@, service@, timestamp)
            &&& info.service@ == service@
            &&& info.port == port
            &&& info.mode@ == "mesh"@
            &&& info.started_at == started_at
            &&& info.version_header matches Some(v) && v@ == mesh_version_spec(info.id@)
            &&& info.status@ == "starting"@
            &&& string_views(args@) == mesh_args_spec(
                service@,
                port,
                mesh_version_spec(info.id@),
                namespace_or_default(namespace),
            )
        }),
{
    if !listening {
        let mut m = owned("本地端口 ");
        push_str(&mut m, u64_to_string(port as u64).as_str());
        push_str(&mut m, " 无服务监听，请先启动本地服务");
        return Err(m);
    }
    let ns = string_or(namespace, "oneberry-dev");
    let id = session_id("mesh", service, timestamp);
    let id_str = id.as_str();
    assert(id_str.spec_bytes() == encode_utf8(session_id_spec("mesh"@, service@, timestamp)));
    let n = id_str.len();
    let (_, tail) = id_str.split_at(n - 6);
    let version = concat2("devkit-", tail);
    proof {
        encode_utf8_decode_utf8(tail@);
        assert(encode_utf8(tail@) == tail.spec_bytes());
    }
    let args = mesh_args(service, port, version.as_str(), ns.as_str());
    let info = SessionInfo {
        id,
        service: owned(service),
        port,
        mode: owned("mesh"),
        started_at,
        version_header: Some(version),
        status: owned("starting"),
    };
    Ok((info, args))
}

/// `dir` joined with the relative or absolute file name `name`, as `Path::join` does on Unix.
pub open spec fn path_join_spec(dir: Seq<char>, name: Seq<char>) -> Seq<char> {
    if name.len() > 0 && name[0] == '/' {
        name
    } else if dir.len() == 0 {
        name
    } else if dir.last() == '/' {
        dir + name
    } else {
        dir + "/"@ + name
    }
}

/// `Path::new(dir).join(name)`.
pub fn path_join(dir: &str, name: &str) -> (r: String)
    ensures
        r@ == path_join_spec(dir@, name@),
{
    let d = crate::text::chars_of(dir);
    let n = crate::text::chars_of(name);
    if n.len() > 0 && n[0] == '/' {
        owned(name)
    } else if d.len() == 0 {
        owned(name)
    } else if d[d.len() - 1] == '/' {
        concat2(dir, name)
    } else {
        concat3(dir, "/", name)
    }
}

/// `s` as one single-quoted shell word (quotes inside escaped).
pub open spec fn sh_quote(s: Seq<char>) -> Seq<char> {
    "'"@ + sh_escape(s) + "'"@
}

/// The shell script that starts `ktctl` in the background with its output going to the
/// log file, and writes the new process's id to the pid file.
pub open spec fn launch_script_spec(
    bin: Seq<char>,
    args: Seq<Seq<char>>,
    log_path: Seq<char>,
    pid_path: Seq<char>,
) -> Seq<char> {
    "#!/bin/bash\n'"@ + sh_escape(bin) + "' "@ + join_seq(args.map_values(|a: Seq<char>| sh_quote(a)), " "@)
        + " > '"@ + log_path + "' 2>&1 &\necho $! > '"@ + pid_path + "'\n"@
}

/// The shell script that starts `ktctl` in the background.
pub fn launch_script(bin: &str, args: &Vec<String>, log_path: &str, pid_path: &str) -> (r: String)
    ensures
        r@ == launch_script_spec(bin@, string_views(args@), log_path@, pid_path@),
{
    let mut quoted: Vec<String> = Vec::new();
    let mut i: usize = 0;
    while i < args.len()
        invariant
            i <= args@.len(),
            quoted@.len() == i,
            forall|k: int| 0 <= k < i ==> (#[trigger] quoted@[k])@ == sh_quote(args@[k]@),
        decreases args@.len() - i,
    {
        let mut q = owned("'");
        push_str(&mut q, replace_char(args[i].as_str(), '\'', "'\\''").as_str());
        push_str(&mut q, "'");
        quoted.push(q);
        i = i + 1;
    }
    assert(string_views(quoted@) =~= string_views(args@).map_values(|a: Seq<char>| sh_quote(a)));
    let mut s = owned("#!/bin/bash\n'");
    push_str(&mut s, replace_char(bin, '\'', "'\\''").as_str());
    push_str(&mut s, "' ");
    push_str(&mut s, join(&quoted, " ").as_str());
    push_str(&mut s, " > '");
    push_str(&mut s, log_path);
    push_str(&mut s, "' 2>&1 &\necho $! > '");
    push_str(&mut s, pid_path);
    push_str(&mut s, "'\n");
    s
}

/// Where starting a session stands.
pub enum LaunchStage {
    /// Waiting for the log directory to be created.
    AwaitDir,
    /// Waiting for the start script to be written.
    AwaitScript,
    /// Waiting for `osascript` to run the start script.
    AwaitOsascript,
    /// Waiting for the start script to be deleted; how `osascript` ended.
    AwaitCleanup { success: bool, stderr: String },
    /// Waiting for the pid file to be read.
    AwaitPid,
    /// Waiting for the log of process `0` to be followed.
    AwaitFollow(u32),
    /// Waiting for `ktctl` to be spawned.
    AwaitSpawn,
    /// The request has been answered.
    Finished,
}

/// What the application is to do next while a session starts.
pub enum LaunchAction {
    /// Create the directory and its parents; answer `Io`.
    CreateDir(String),
    /// Write the file (path, content); answer `Io`.
    WriteFile(String, String),
    /// Run the command to its end; answer `Ran`.
    Run(CommandSpec),
    /// Delete the file, whatever comes of it; answer `Io`.
    RemoveFile(String),
    /// Read the file; answer `Read`.
    ReadFile(String),
    /// Start publishing the lines of the log file (path) while process `pid` lives, then
    /// delete the log and pid files; answer `Io`.
    FollowLog(String, u32),
    /// Start the command with its output piped, publishing each line; answer `Spawned`.
    Spawn(CommandSpec),
    /// The request is answered.
    Done(Result<SessionInfo, String>),
}

/// What the application reports back.
pub enum LaunchEvent<C> {
    /// A file-system operation, or starting to follow a log, ended.
    Io(Result<(), String>),
    /// A command ran.
    Ran(RunOutcome),
    /// A file was read.
    Read(Result<String, String>),
    /// A process was spawned: its handle, or the error.
    Spawned(Result<C, String>),
}

/// A session being started.
pub struct SessionLaunch {
    pub platform: Platform,
    pub ktctl_bin: String,
    pub log_dir: String,
    pub info: SessionInfo,
    pub args: Vec<String>,
    pub stage: LaunchStage,
}

/// The kind of event a stage waits for.
pub open spec fn expects<C>(stage: LaunchStage, event: LaunchEvent<C>) -> bool {
    match stage {
        LaunchStage::AwaitDir | LaunchStage::AwaitScript | LaunchStage::AwaitCleanup { .. }
        | LaunchStage::AwaitFollow(_) => event is Io,
        LaunchStage::AwaitOsascript => event is Ran,
        LaunchStage::AwaitPid => event is Read,
        LaunchStage::AwaitSpawn => event is Spawned,
        LaunchStage::Finished => false,
    }
}

/// `info` as registered once its process runs: the same, with status `"running"`.
pub open spec fn running_copy(stored: SessionInfo, info: SessionInfo) -> bool {
    stored == (SessionInfo { status: stored.status, ..info }) && stored.status@ == "running"@
}

/// The command that runs the start script with administrator rights.
pub open spec fn script_run_spec(script_path: Seq<char>) -> Seq<char> {
    admin_script_spec("/bin/bash '"@ + script_path + "'"@)
}

impl SessionLaunch {
    /// The session's log file.
    pub open spec fn log_path(&self) -> Seq<char> {
        path_join_spec(self.log_dir@, self.info.id@ + ".log"@)
    }

    /// The file the session's process id is written to.
    pub open spec fn pid_path(&self) -> Seq<char> {
        path_join_spec(self.log_dir@, self.info.id@ + ".pid"@)
    }

    /// The start script.
    pub open spec fn script_path(&self) -> Seq<char> {
        path_join_spec(self.log_dir@, self.info.id@ + ".sh"@)
    }

    fn file(&self, ext: &str) -> (r: String)
        ensures
            r@ == path_join_spec(self.log_dir@, self.info.id@ + ext@),
    {
        path_join(self.log_dir.as_str(), concat2(self.info.id.as_str(), ext).as_str())
    }
}

/// Starts the process of a session described by `info`, `ktctl` getting `args`. On macOS
/// `ktctl` needs administrator rights and there is no terminal: a script that starts it in the
/// background is written under `log_dir` and run through `osascript`, which shows the
/// system's password dialog, and the process's log file is followed; elsewhere `ktctl` is
/// spawned (through `sudo` on Linux) with its output piped.
pub fn spawn_session(host: &HostEnv, log_dir: &str, info: SessionInfo, args: Vec<String>) -> (r: (
    SessionLaunch,
    LaunchAction,
))
    ensures
        r.0.platform == host.platform,
        exists|present: Seq<bool>|
            r.0.ktctl_bin@ == resolve_bin_spec(
                "ktctl"@,
                bin_candidates_spec("ktctl"@, *host),
                present,
            ),
        r.0.log_dir@ == log_dir@,
        r.0.info == info,
        r.0.args == args,
        host.platform == Platform::MacOs ==> r.0.stage is AwaitDir && (r.1 matches LaunchAction::CreateDir(d) && d@ == log_dir@),
        host.platform != Platform::MacOs ==> r.0.stage is AwaitSpawn && (r.1 matches LaunchAction::Spawn(c) && !c@.hide_window && if host.platform == Platform::Windows {
            c@.program == r.0.ktctl_bin@ && c@.args == string_views(args@)
        } else {
            c@.program == "sudo"@ && c@.args == seq![r.0.ktctl_bin@] + string_views(args@)
        }),
{
    let ktctl_bin = find_bin("ktctl", host);
    match host.platform {
        Platform::MacOs => {
            let launch = SessionLaunch {
                platform: host.platform,
                ktctl_bin,
                log_dir: owned(log_dir),
                info,
                args,
                stage: LaunchStage::AwaitDir,
            };
            (launch, LaunchAction::CreateDir(owned(log_dir)))
        },
        _ => {
            let cmd = spawn_command(host.platform, ktctl_bin.as_str(), &args);
            let launch = SessionLaunch {
                platform: host.platform,
                ktctl_bin,
                log_dir: owned(log_dir),
                info,
                args,
                stage: LaunchStage::AwaitSpawn,
            };
            (launch, LaunchAction::Spawn(cmd))
        },
    }
}

fn spawn_command(platform: Platform, bin: &str, args: &Vec<String>) -> (c: CommandSpec)
    ensures
        !c@.hide_window,
        platform == Platform::Windows ==> c@.program == bin@ && c@.args == string_views(args@),
        platform != Platform::Windows ==> c@.program == "sudo"@ && c@.args == seq![bin@]
            + string_views(args@),
{
    let mut v: Vec<String> = Vec::new();
    if platform != Platform::Windows {
        v.push(owned(bin));
    }
    let start = v.len();
    let mut i: usize = 0;
    while i < args.len()
        invariant
            i <= args@.len(),
            start == (if platform != Platform::Windows { 1int } else { 0int }),
            v@.len() == start + i,
            platform != Platform::Windows ==> v@[0]@ == bin@,
            forall|j: int| start <= j < start + i ==> (#[trigger] v@[j])@ == args@[j - start]@,
        decreases args@.len() - i,
    {
        v.push(args[i].clone());
        i = i + 1;
    }
    if platform != Platform::Windows {
        assert(string_views(v@) =~= seq![bin@] + string_views(args@));
        CommandSpec { program: owned("sudo"), args: v, hide_window: false }
    } else {
        assert(string_views(v@) =~= string_views(args@));
        CommandSpec { program: owned(bin), args: v, hide_window: false }
    }
}

/// The request ended with the error `msg`.
pub open spec fn failed_with(a: LaunchAction, msg: Seq<char>) -> bool {
    a matches LaunchAction::Done(Err(m)) && m@ == msg
}

impl SessionLaunch {
    /// Takes the application's report of the last action and says what to do next. A session
    /// is registered in `manager` only when the start succeeds, with status `"running"` and the
    /// means to stop its process (the child handle, or on macOS the process id); on every
    /// error the manager is left as it was.
    pub fn step<C>(&mut self, manager: &mut SessionManager<C>, event: LaunchEvent<C>) -> (a: LaunchAction)
        requires
            old(manager).wf(),
            expects(old(self).stage, event),
        ensures
            final(manager).wf(),
            final(self).platform == old(self).platform,
            final(self).ktctl_bin == old(self).ktctl_bin,
            final(self).log_dir == old(self).log_dir,
            final(self).info == old(self).info,
            final(self).args == old(self).args,
            !(a is Done) ==> final(manager)@ == old(manager)@,
            (a matches LaunchAction::Done(Err(_))) ==> final(manager)@ == old(manager)@,
            a is Done <==> final(self).stage is Finished,
            match old(self).stage {
                LaunchStage::AwaitDir => match event {
                    LaunchEvent::Io(Err(e)) => failed_with(a, "无法创建日志目录: "@ + e@),
                    _ => final(self).stage is AwaitScript && (a matches LaunchAction::WriteFile(p, c)
                        && p@ == old(self).script_path() && c@ == launch_script_spec(
                        old(self).ktctl_bin@,
                        string_views(old(self).args@),
                        old(self).log_path(),
                        old(self).pid_path(),
                    )),
                },
                LaunchStage::AwaitScript => match event {
                    LaunchEvent::Io(Err(e)) => failed_with(a, "无法写入启动脚本: "@ + e@),
                    _ => final(self).stage is AwaitOsascript && (a matches LaunchAction::Run(c)
                        && c@.program == "osascript"@ && c@.args == seq![
                        "-e"@,
                        script_run_spec(old(self).script_path()),
                    ] && !c@.hide_window),
                },
                LaunchStage::AwaitOsascript => match event {
                    LaunchEvent::Ran(RunOutcome::Failed(e)) => failed_with(a, "需要管理员权限: "@ + e@),
                    LaunchEvent::Ran(RunOutcome::Exited(x)) => (final(self).stage matches LaunchStage::AwaitCleanup { success, stderr }
                        && success == x.success && stderr == x.stderr) && (a matches LaunchAction::RemoveFile(p)
                        && p@ == old(self).script_path()),
                    _ => true,
                },
                LaunchStage::AwaitCleanup { success, stderr } => if !success {
                    if prompt_cancelled_spec(stderr@) {
                        failed_with(a, "用户取消了授权"@)
                    } else {
                        failed_with(a, "启动 ktctl 失败: "@ + stderr@)
                    }
                } else {
                    final(self).stage is AwaitPid && (a matches LaunchAction::ReadFile(p) && p@ == old(self).pid_path())
                },
                LaunchStage::AwaitPid => match event {
                    LaunchEvent::Read(Err(e)) => failed_with(a, "无法读取进程 PID: "@ + e@),
                    LaunchEvent::Read(Ok(text)) => match parse_u32_seq(trim_seq(text@)) {
                        None => failed_with(a, "无效的 PID: "@ + trim_seq(text@)),
                        Some(pid) => final(self).stage == LaunchStage::AwaitFollow(pid) && (a matches LaunchAction::FollowLog(p, q)
                            && p@ == old(self).log_path() && q == pid),
                    },
                    _ => true,
                },
                LaunchStage::AwaitFollow(pid) => (a matches LaunchAction::Done(Ok(stored)) && running_copy(stored, old(self).info)
                    && final(manager).sessions_by_id() == old(manager).sessions_by_id().insert(
                        old(self).info.id@,
                        ManagedSession { info: stored, child: None, pid: Some(pid) },
                    )),
                LaunchStage::AwaitSpawn => match event {
                    LaunchEvent::Spawned(Err(e)) => failed_with(a, "启动 ktctl 失败: "@ + e@),
                    LaunchEvent::Spawned(Ok(child)) => (a matches LaunchAction::Done(Ok(stored))
                        && running_copy(stored, old(self).info)
                        && final(manager).sessions_by_id() == old(manager).sessions_by_id().insert(
                            old(self).info.id@,
                            ManagedSession { info: stored, child: Some(child), pid: None },
                        )),
                    _ => true,
                },
                LaunchStage::Finished => true,
            },
    {
        let mut stage = LaunchStage::Finished;
        std::mem::swap(&mut stage, &mut self.stage);
        match stage {
            LaunchStage::AwaitDir => match event {
                LaunchEvent::Io(Err(e)) => LaunchAction::Done(Err(concat2("无法创建日志目录: ", e.as_str()))),
                _ => {
                    let log_path = self.file(".log");
                    let pid_path = self.file(".pid");
                    let script = launch_script(self.ktctl_bin.as_str(), &self.args, log_path.as_str(), pid_path.as_str());
                    self.stage = LaunchStage::AwaitScript;
                    LaunchAction::WriteFile(self.file(".sh"), script)
                },
            },
            LaunchStage::AwaitScript => match event {
                LaunchEvent::Io(Err(e)) => LaunchAction::Done(Err(concat2("无法写入启动脚本: ", e.as_str()))),
                _ => {
                    let script_path = self.file(".sh");
                    let cmd = concat3("/bin/bash '", script_path.as_str(), "'");
                    self.stage = LaunchStage::AwaitOsascript;
                    LaunchAction::Run(osascript_command(admin_script(cmd.as_str())))
                },
            },
            LaunchStage::AwaitOsascript => match event {
                LaunchEvent::Ran(RunOutcome::Failed(e)) => LaunchAction::Done(Err(concat2("需要管理员权限: ", e.as_str()))),
                LaunchEvent::Ran(RunOutcome::Exited(x)) => {
                    self.stage = LaunchStage::AwaitCleanup { success: x.success, stderr: x.stderr };
                    LaunchAction::RemoveFile(self.file(".sh"))
                },
                _ => LaunchAction::Done(Err(owned("unexpected report"))),
            },
            LaunchStage::AwaitCleanup { success, stderr } => {
                if !success {
                    if prompt_cancelled(stderr.as_str()) {
                        LaunchAction::Done(Err(owned("用户取消了授权")))
                    } else {
                        LaunchAction::Done(Err(concat2("启动 ktctl 失败: ", stderr.as_str())))
                    }
                } else {
                    self.stage = LaunchStage::AwaitPid;
                    LaunchAction::ReadFile(self.file(".pid"))
                }
            },
            LaunchStage::AwaitPid => match event {
                LaunchEvent::Read(Err(e)) => LaunchAction::Done(Err(concat2("无法读取进程 PID: ", e.as_str()))),
                LaunchEvent::Read(Ok(text)) => {
                    let t = trim(text.as_str());
                    match parse_u32(t.as_str()) {
                        None => LaunchAction::Done(Err(concat2("无效的 PID: ", t.as_str()))),
                        Some(pid) => {
                            self.stage = LaunchStage::AwaitFollow(pid);
                            LaunchAction::FollowLog(self.file(".log"), pid)
                        },
                    }
                },
                _ => LaunchAction::Done(Err(owned("unexpected report"))),
            },
            LaunchStage::AwaitFollow(pid) => {
                let mut stored = self.info.duplicate();
                stored.status = owned("running");
                let entry = ManagedSession { info: stored.duplicate(), child: None, pid: Some(pid) };
                let _replaced = manager.insert(entry);
                LaunchAction::Done(Ok(stored))
            },
            LaunchStage::AwaitSpawn => match event {
                LaunchEvent::Spawned(Err(e)) => LaunchAction::Done(Err(concat2("启动 ktctl 失败: ", e.as_str()))),
                LaunchEvent::Spawned(Ok(child)) => {
                    let mut stored = self.info.duplicate();
                    stored.status = owned("running");
                    let entry = ManagedSession { info: stored.duplicate(), child: Some(child), pid: None };
                    let _replaced = manager.insert(entry);
                    LaunchAction::Done(Ok(stored))
                },
                _ => LaunchAction::Done(Err(owned("unexpected report"))),
            },
            LaunchStage::Finished => LaunchAction::Done(Err(owned("unexpected report"))),
        }
    }
}

} // verus!
