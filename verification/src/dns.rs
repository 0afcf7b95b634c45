use vstd::prelude::*;

use crate::command::{
    admin_script, admin_script_spec, osascript_command, prompt_cancelled, prompt_cancelled_spec,
    CommandSpec, RunOutcome,
};
use crate::platform::Platform;
use crate::text::{
    concat2, concat3, contains_seq, contains_str, owned, parse_i32, parse_i32_seq, string_views,
    trim, trim_seq,
};

verus! {

/// What is asked of the cluster DNS set-up.
#[derive(Clone, Copy, Debug, PartialEq, Eq, Structural)]
pub enum DnsOp {
    /// Make `*.cluster.local` resolve through the cluster's DNS server.
    Ensure,
    /// Undo that.
    Remove,
    /// Say whether it is in place.
    Check,
}

/// Where a DNS request stands.
#[derive(Clone, Copy, Debug, PartialEq, Eq, Structural)]
pub enum DnsStage {
    /// Windows: waiting for the count of name resolution policy rules for the domain.
    WinCheck,
    /// Windows: waiting for the change made without elevation.
    WinDirect,
    /// Windows: waiting for the change made through an elevated PowerShell.
    WinElevated,
    /// macOS: waiting for the resolver file to be read.
    MacRead,
    /// macOS: waiting for the resolver file to be written with administrator rights.
    MacWrite,
    /// macOS: waiting to learn whether the resolver file exists.
    MacExists,
    /// macOS: waiting for the resolver file to be deleted with administrator rights.
    MacRemove,
    /// The request has been answered.
    Finished,
}

/// What the application is to do next.
pub enum DnsAction {
    /// Run the command to its end; answer `Ran`.
    Run(CommandSpec),
    /// Read the file; answer `FileRead` (`None` where the file does not exist).
    ReadFile(String),
    /// Find out whether the path exists; answer `Exists`.
    PathExists(String),
    /// The request (`Ensure` or `Remove`) is answered.
    Finish(Result<(), String>),
    /// The request `Check` is answered.
    Checked(Result<bool, String>),
}

/// What the application reports back.
pub enum DnsEvent {
    Ran(RunOutcome),
    FileRead(Option<Result<String, String>>),
    Exists(bool),
}

/// A DNS request being carried out.
pub struct DnsTask {
    pub platform: Platform,
    pub op: DnsOp,
    pub stage: DnsStage,
}

/// The macOS resolver file for the domain.
pub open spec fn resolver_file() -> Seq<char> {
    "/etc/resolver/cluster.local"@
}

/// The address of the cluster's DNS server.
pub open spec fn kube_dns_ip() -> Seq<char> {
    "10.96.0.10"@
}

/// PowerShell: the number of name resolution policy rules for `.cluster.local`.
pub open spec fn nrpt_count_script() -> Seq<char> {
    "(Get-DnsClientNrptRule | Where-Object { $_.Namespace -eq '.cluster.local' }).Count"@
}

/// PowerShell: the rule sending `.cluster.local` queries to the cluster's DNS server.
pub open spec fn nrpt_add_script() -> Seq<char> {
    "Add-DnsClientNrptRule -Namespace '.cluster.local' -NameServers '10.96.0.10'"@
}

/// PowerShell: removing the rules for `.cluster.local`.
pub open spec fn nrpt_remove_script() -> Seq<char> {
    "Get-DnsClientNrptRule | Where-Object { $_.Namespace -eq '.cluster.local' } | Remove-DnsClientNrptRule -Force"@
}

/// PowerShell: `script` run by an elevated PowerShell (the user is asked to allow it).
pub open spec fn elevated_spec(script: Seq<char>) -> Seq<char> {
    "Start-Process powershell -Verb RunAs -ArgumentList '-NoProfile -ExecutionPolicy Bypass -Command \""@
        + script + "\"' -Wait"@
}

/// Shell: writing the macOS resolver file.
pub open spec fn resolver_write_script() -> Seq<char> {
    "mkdir -p /etc/resolver && echo 'nameserver 10.96.0.10' > /etc/resolver/cluster.local"@
}

/// Shell: deleting the macOS resolver file.
pub open spec fn resolver_remove_script() -> Seq<char> {
    "rm -f /etc/resolver/cluster.local"@
}

/// `c` runs `script` in PowerShell, without profile or execution policy, without a window.
pub open spec fn is_powershell(c: CommandSpec, script: Seq<char>) -> bool {
    &&& c@.program == "powershell"@
    &&& c@.args == seq!["-NoProfile"@, "-ExecutionPolicy"@, "Bypass"@, "-Command"@, script]
    &&& c@.hide_window
}

/// `c` runs the shell command `cmd` through `osascript` with administrator rights.
pub open spec fn is_admin_osascript(c: CommandSpec, cmd: Seq<char>) -> bool {
    &&& c@.program == "osascript"@
    &&& c@.args == seq!["-e"@, admin_script_spec(cmd)]
    &&& !c@.hide_window
}

/// What the rule count says: whether a rule is in place (the output, trimmed, read as an
/// integer, 0 where it is none), or `None` where PowerShell could not be started.
pub open spec fn rule_count_says(o: RunOutcome) -> Option<bool> {
    match o {
        RunOutcome::Failed(_) => None,
        RunOutcome::Exited(x) => Some(
            match parse_i32_seq(trim_seq(x.stdout@)) {
                Some(n) => n > 0,
                None => false,
            },
        ),
    }
}

fn powershell(script: &str) -> (c: CommandSpec)
    ensures
        is_powershell(c, script@),
{
    let mut v: Vec<String> = Vec::new();
    v.push(owned("-NoProfile"));
    v.push(owned("-ExecutionPolicy"));
    v.push(owned("Bypass"));
    v.push(owned("-Command"));
    v.push(owned(script));
    assert(string_views(v@) =~= seq![
        "-NoProfile"@,
        "-ExecutionPolicy"@,
        "Bypass"@,
        "-Command"@,
        script@,
    ]);
    CommandSpec { program: owned("powershell"), args: v, hide_window: true }
}

fn elevated(script: &str) -> (r: String)
    ensures
        r@ == elevated_spec(script@),
{
    concat3(
        "Start-Process powershell -Verb RunAs -ArgumentList '-NoProfile -ExecutionPolicy Bypass -Command \"",
        script,
        "\"' -Wait",
    )
}

fn rule_count(o: &RunOutcome) -> (r: Option<bool>)
    ensures
        r == rule_count_says(*o),
{
    match o {
        RunOutcome::Failed(_) => None,
        RunOutcome::Exited(x) => {
            let t = trim(x.stdout.as_str());
            match parse_i32(t.as_str()) {
                Some(n) => Some(n > 0),
                None => Some(false),
            }
        },
    }
}

/// The first step of a request: on Windows the rule count, on macOS a look at the resolver
/// file; on Linux nothing is done (the user configures DNS) and the request is answered at
/// once: done, or not in place.
pub open spec fn first_step(platform: Platform, op: DnsOp, stage: DnsStage, a: DnsAction) -> bool {
    match platform {
        Platform::Windows => stage == DnsStage::WinCheck && (a matches DnsAction::Run(c)
            && is_powershell(c, nrpt_count_script())),
        Platform::MacOs => if op == DnsOp::Remove {
            stage == DnsStage::MacExists && (a matches DnsAction::PathExists(p) && p@
                == resolver_file())
        } else {
            stage == DnsStage::MacRead && (a matches DnsAction::ReadFile(p) && p@
                == resolver_file())
        },
        Platform::Linux => stage == DnsStage::Finished && if op == DnsOp::Check {
            a matches DnsAction::Checked(Ok(false))
        } else {
            a matches DnsAction::Finish(Ok(()))
        },
    }
}

fn start(platform: Platform, op: DnsOp) -> (r: (DnsTask, DnsAction))
    ensures
        r.0.platform == platform,
        r.0.op == op,
        r.0.wf(),
        first_step(platform, op, r.0.stage, r.1),
{
    match platform {
        Platform::Windows => (
            DnsTask { platform, op, stage: DnsStage::WinCheck },
            DnsAction::Run(powershell("(Get-DnsClientNrptRule | Where-Object { $_.Namespace -eq '.cluster.local' }).Count")),
        ),
        Platform::MacOs => {
            if op == DnsOp::Remove {
                (
                    DnsTask { platform, op, stage: DnsStage::MacExists },
                    DnsAction::PathExists(owned("/etc/resolver/cluster.local")),
                )
            } else {
                (
                    DnsTask { platform, op, stage: DnsStage::MacRead },
                    DnsAction::ReadFile(owned("/etc/resolver/cluster.local")),
                )
            }
        },
        Platform::Linux => {
            let a = if op == DnsOp::Check {
                DnsAction::Checked(Ok(false))
            } else {
                DnsAction::Finish(Ok(()))
            };
            (DnsTask { platform, op, stage: DnsStage::Finished }, a)
        },
    }
}

/// Makes `*.svc.cluster.local` names resolve through the cluster's DNS server: on Windows a
/// name resolution policy rule, on macOS the file `/etc/resolver/cluster.local`; on Linux
/// nothing. Nothing is changed where the set-up is already in place, so this can be asked
/// any number of times.
pub fn ensure_cluster_dns(platform: Platform) -> (r: (DnsTask, DnsAction))
    ensures
        r.0.platform == platform,
        r.0.op == DnsOp::Ensure,
        r.0.wf(),
        first_step(platform, DnsOp::Ensure, r.0.stage, r.1),
{
    start(platform, DnsOp::Ensure)
}

/// Removes the cluster DNS set-up (when the VPN goes down, the cluster's DNS server can no
/// longer be reached). This never fails.
pub fn remove_cluster_dns(platform: Platform) -> (r: (DnsTask, DnsAction))
    ensures
        r.0.platform == platform,
        r.0.op == DnsOp::Remove,
        r.0.wf(),
        first_step(platform, DnsOp::Remove, r.0.stage, r.1),
{
    start(platform, DnsOp::Remove)
}

/// Finds out whether the cluster DNS set-up is in place (never on Linux).
pub fn check_cluster_dns(platform: Platform) -> (r: (DnsTask, DnsAction))
    ensures
        r.0.platform == platform,
        r.0.op == DnsOp::Check,
        r.0.wf(),
        first_step(platform, DnsOp::Check, r.0.stage, r.1),
{
    start(platform, DnsOp::Check)
}

/// The reply to a request to set the cluster DNS up, from the outcome of
/// `ensure_cluster_dns`.
pub fn setup_cluster_dns(outcome: Result<(), String>) -> (r: Result<String, String>)
    ensures
        match outcome {
            Ok(()) => (r matches Ok(m) && m@ == "集群 DNS 已配置"@),
            Err(e) => (r matches Err(m) && m@ == e@),
        },
{
    match outcome {
        Ok(()) => Ok(owned("集群 DNS 已配置")),
        Err(e) => Err(e),
    }
}

/// The kind of event a stage waits for.
pub open spec fn dns_expects(stage: DnsStage, event: DnsEvent) -> bool {
    match stage {
        DnsStage::WinCheck | DnsStage::WinDirect | DnsStage::WinElevated | DnsStage::MacWrite
        | DnsStage::MacRemove => event is Ran,
        DnsStage::MacRead => event is FileRead,
        DnsStage::MacExists => event is Exists,
        DnsStage::Finished => false,
    }
}

/// How setting the rule up through the elevated PowerShell ended.
pub open spec fn elevated_ensure_result(o: RunOutcome) -> Result<(), Seq<char>> {
    match o {
        RunOutcome::Failed(e) => Err("执行 PowerShell 失败: "@ + e@),
        RunOutcome::Exited(x) => if x.success {
            Ok(())
        } else if contains_seq(x.stderr@, "canceled"@) || contains_seq(x.stderr@, "拒绝"@) {
            Err("用户取消了管理员权限请求"@)
        } else {
            Err("配置 DNS 失败: "@ + x.stderr@)
        },
    }
}

/// How writing the macOS resolver file ended.
pub open spec fn resolver_write_result(o: RunOutcome) -> Result<(), Seq<char>> {
    match o {
        RunOutcome::Failed(e) => Err("执行 osascript 失败: "@ + e@),
        RunOutcome::Exited(x) => if x.success {
            Ok(())
        } else if prompt_cancelled_spec(x.stderr@) {
            Err("用户取消了管理员权限请求"@)
        } else {
            Err("配置 DNS 失败: "@ + x.stderr@)
        },
    }
}

/// The answer `a` finishes with `r` (errors by their text).
pub open spec fn finishes_with(a: DnsAction, r: Result<(), Seq<char>>) -> bool {
    match r {
        Ok(()) => a matches DnsAction::Finish(Ok(())),
        Err(m) => (a matches DnsAction::Finish(Err(e)) && e@ == m),
    }
}

impl DnsTask {
    /// The stage is one that the request passes through.
    pub open spec fn wf(&self) -> bool {
        match self.op {
            DnsOp::Check => self.stage == DnsStage::WinCheck || self.stage == DnsStage::MacRead
                || self.stage == DnsStage::Finished,
            DnsOp::Ensure => !(self.stage == DnsStage::MacExists || self.stage
                == DnsStage::MacRemove),
            DnsOp::Remove => !(self.stage == DnsStage::MacRead || self.stage == DnsStage::MacWrite),
        }
    }

    /// Takes the application's report of the last action and says what to do next.
    pub fn step(&mut self, event: DnsEvent) -> (a: DnsAction)
        requires
            old(self).wf(),
            dns_expects(old(self).stage, event),
        ensures
            final(self).wf(),
            final(self).platform == old(self).platform,
            final(self).op == old(self).op,
            (a is Finish || a is Checked) <==> final(self).stage == DnsStage::Finished,
            old(self).op == DnsOp::Check ==> !(a is Finish),
            old(self).op != DnsOp::Check ==> !(a is Checked),
            // Removing never fails.
            old(self).op == DnsOp::Remove ==> !(a matches DnsAction::Finish(Err(_))),
            match old(self).stage {
                DnsStage::WinCheck => match event {
                    DnsEvent::Ran(o) => match old(self).op {
                        DnsOp::Check => match o {
                            RunOutcome::Failed(e) => (a matches DnsAction::Checked(Err(m)) && m@
                                == "检查 DNS 配置失败: "@ + e@),
                            RunOutcome::Exited(_) => a == DnsAction::Checked(Ok(rule_count_says(o)->0)),
                        },
                        DnsOp::Ensure => if rule_count_says(o) == Some(true) {
                            finishes_with(a, Ok(()))
                        } else {
                            final(self).stage == DnsStage::WinDirect && (a matches DnsAction::Run(c)
                                && is_powershell(c, nrpt_add_script()))
                        },
                        DnsOp::Remove => if rule_count_says(o) == Some(false) {
                            finishes_with(a, Ok(()))
                        } else {
                            final(self).stage == DnsStage::WinDirect && (a matches DnsAction::Run(c)
                                && is_powershell(c, nrpt_remove_script()))
                        },
                    },
                    _ => true,
                },
                DnsStage::WinDirect => match event {
                    DnsEvent::Ran(o) => if o matches RunOutcome::Exited(x) && x.success {
                        finishes_with(a, Ok(()))
                    } else {
                        final(self).stage == DnsStage::WinElevated && (a matches DnsAction::Run(c)
                            && is_powershell(
                            c,
                            elevated_spec(
                                if old(self).op == DnsOp::Ensure {
                                    nrpt_add_script()
                                } else {
                                    nrpt_remove_script()
                                },
                            ),
                        ))
                    },
                    _ => true,
                },
                DnsStage::WinElevated => match event {
                    DnsEvent::Ran(o) => if old(self).op == DnsOp::Ensure {
                        finishes_with(a, elevated_ensure_result(o))
                    } else {
                        finishes_with(a, Ok(()))
                    },
                    _ => true,
                },
                DnsStage::MacRead => match event {
                    DnsEvent::FileRead(content) => if old(self).op == DnsOp::Check {
                        match content {
                            None => a == DnsAction::Checked(Ok(false)),
                            Some(Err(e)) => (a matches DnsAction::Checked(Err(m)) && m@ == e@),
                            Some(Ok(text)) => a == DnsAction::Checked(
                                Ok(contains_seq(text@, kube_dns_ip())),
                            ),
                        }
                    } else if content matches Some(Ok(text)) && contains_seq(text@, kube_dns_ip()) {
                        finishes_with(a, Ok(()))
                    } else {
                        final(self).stage == DnsStage::MacWrite && (a matches DnsAction::Run(c)
                            && is_admin_osascript(c, resolver_write_script()))
                    },
                    _ => true,
                },
                DnsStage::MacWrite => match event {
                    DnsEvent::Ran(o) => finishes_with(a, resolver_write_result(o)),
                    _ => true,
                },
                DnsStage::MacExists => match event {
                    DnsEvent::Exists(false) => finishes_with(a, Ok(())),
                    DnsEvent::Exists(true) => final(self).stage == DnsStage::MacRemove && (a matches DnsAction::Run(c)
                        && is_admin_osascript(c, resolver_remove_script())),
                    _ => true,
                },
                DnsStage::MacRemove => finishes_with(a, Ok(())),
                DnsStage::Finished => true,
            },
    {
        let stage = self.stage;
        self.stage = DnsStage::Finished;
        match stage {
            DnsStage::WinCheck => match event {
                DnsEvent::Ran(o) => {
                    let count = rule_count(&o);
                    match self.op {
                        DnsOp::Check => match o {
                            RunOutcome::Failed(e) => DnsAction::Checked(Err(concat2("检查 DNS 配置失败: ", e.as_str()))),
                            RunOutcome::Exited(_) => DnsAction::Checked(Ok(count == Some(true))),
                        },
                        DnsOp::Ensure => {
                            if count == Some(true) {
                                DnsAction::Finish(Ok(()))
                            } else {
                                self.stage = DnsStage::WinDirect;
                                DnsAction::Run(powershell("Add-DnsClientNrptRule -Namespace '.cluster.local' -NameServers '10.96.0.10'"))
                            }
                        },
                        DnsOp::Remove => {
                            if count == Some(false) {
                                DnsAction::Finish(Ok(()))
                            } else {
                                self.stage = DnsStage::WinDirect;
                                DnsAction::Run(powershell("Get-DnsClientNrptRule | Where-Object { $_.Namespace -eq '.cluster.local' } | Remove-DnsClientNrptRule -Force"))
                            }
                        },
                    }
                },
                _ => DnsAction::Finish(Ok(())),
            },
            DnsStage::WinDirect => match event {
                DnsEvent::Ran(o) => {
                    let ok = match &o {
                        RunOutcome::Exited(x) => x.success,
                        RunOutcome::Failed(_) => false,
                    };
                    if ok {
                        DnsAction::Finish(Ok(()))
                    } else {
                        self.stage = DnsStage::WinElevated;
                        let script = if self.op == DnsOp::Ensure {
                            elevated("Add-DnsClientNrptRule -Namespace '.cluster.local' -NameServers '10.96.0.10'")
                        } else {
                            elevated("Get-DnsClientNrptRule | Where-Object { $_.Namespace -eq '.cluster.local' } | Remove-DnsClientNrptRule -Force")
                        };
                        DnsAction::Run(powershell(script.as_str()))
                    }
                },
                _ => DnsAction::Finish(Ok(())),
            },
            DnsStage::WinElevated => match event {
                DnsEvent::Ran(o) => {
                    if self.op == DnsOp::Ensure {
                        match o {
                            RunOutcome::Failed(e) => DnsAction::Finish(Err(concat2("执行 PowerShell 失败: ", e.as_str()))),
                            RunOutcome::Exited(x) => {
                                if x.success {
                                    DnsAction::Finish(Ok(()))
                                } else if contains_str(x.stderr.as_str(), "canceled") || contains_str(x.stderr.as_str(), "拒绝") {
                                    DnsAction::Finish(Err(owned("用户取消了管理员权限请求")))
                                } else {
                                    DnsAction::Finish(Err(concat2("配置 DNS 失败: ", x.stderr.as_str())))
                                }
                            },
                        }
                    } else {
                        DnsAction::Finish(Ok(()))
                    }
                },
                _ => DnsAction::Finish(Ok(())),
            },
            DnsStage::MacRead => match event {
                DnsEvent::FileRead(content) => {
                    if self.op == DnsOp::Check {
                        match content {
                            None => DnsAction::Checked(Ok(false)),
                            Some(Err(e)) => DnsAction::Checked(Err(e)),
                            Some(Ok(text)) => DnsAction::Checked(Ok(contains_str(text.as_str(), "10.96.0.10"))),
                        }
                    } else {
                        let configured = match &content {
                            Some(Ok(text)) => contains_str(text.as_str(), "10.96.0.10"),
                            _ => false,
                        };
                        if configured {
                            DnsAction::Finish(Ok(()))
                        } else {
                            self.stage = DnsStage::MacWrite;
                            DnsAction::Run(osascript_command(admin_script("mkdir -p /etc/resolver && echo 'nameserver 10.96.0.10' > /etc/resolver/cluster.local")))
                        }
                    }
                },
                _ => DnsAction::Finish(Ok(())),
            },
            DnsStage::MacWrite => match event {
                DnsEvent::Ran(RunOutcome::Failed(e)) => DnsAction::Finish(Err(concat2("执行 osascript 失败: ", e.as_str()))),
                DnsEvent::Ran(RunOutcome::Exited(x)) => {
                    if x.success {
                        DnsAction::Finish(Ok(()))
                    } else if prompt_cancelled(x.stderr.as_str()) {
                        DnsAction::Finish(Err(owned("用户取消了管理员权限请求")))
                    } else {
                        DnsAction::Finish(Err(concat2("配置 DNS 失败: ", x.stderr.as_str())))
                    }
                },
                _ => DnsAction::Finish(Ok(())),
            },
            DnsStage::MacExists => match event {
                DnsEvent::Exists(true) => {
                    self.stage = DnsStage::MacRemove;
                    DnsAction::Run(osascript_command(admin_script("rm -f /etc/resolver/cluster.local")))
                },
                _ => DnsAction::Finish(Ok(())),
            },
            DnsStage::MacRemove => DnsAction::Finish(Ok(())),
            DnsStage::Finished => DnsAction::Finish(Ok(())),
        }
    }
}

} // verus!
