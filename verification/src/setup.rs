use vstd::prelude::*;

use crate::command::{
    admin_script, admin_script_spec, command, osascript_command, prompt_cancelled,
    prompt_cancelled_spec, succeeded, CommandSpec, RunOutcome,
};
use crate::launch::{path_join, path_join_spec};
use crate::platform::{HostEnv, Platform};
use crate::text::{concat2, concat3, owned, str_views, string_views};
use crate::utils::{
    cli_command, cli_command_spec, download_url_spec, find_bin, resolve_bin_spec,
    bin_candidates_spec, installer_name_spec, tailscale_download_url, tailscale_installer_name,
};

verus! {

/// Which tools are there.
pub struct SetupStatus {
    pub tailscale_installed: bool,
    pub kubectl_available: bool,
    pub ktctl_available: bool,
    pub daemon_running: bool,
}

/// The user's settings.
#[derive(Debug)]
pub struct AppConfig {
    pub headscale_url: String,
    pub namespace: String,
    pub shadow_node: String,
    pub shadow_image: String,
    pub theme: String,
}

impl AppConfig {
    /// The settings a new user starts with.
    pub open spec fn is_default(&self) -> bool {
        &&& self.headscale_url@ == "https://vpn.oneberry.cc:31443"@
        &&& self.namespace@ == "oneberry-dev"@
        &&& self.shadow_node@ == "hmdev-node01"@
        &&& self.shadow_image@ == "image.hm.metavarse.tech:9443/hongmei-dev/kt-connect-shadow:v0.3.7"@
        &&& self.theme@ == "system"@
    }

    /// A copy of the settings.
    pub fn duplicate(&self) -> (r: AppConfig)
        ensures
            r == *self,
    {
        AppConfig {
            headscale_url: self.headscale_url.clone(),
            namespace: self.namespace.clone(),
            shadow_node: self.shadow_node.clone(),
            shadow_image: self.shadow_image.clone(),
            theme: self.theme.clone(),
        }
    }
}

impl Default for AppConfig {
    fn default() -> (r: AppConfig)
        ensures
            r.is_default(),
    {
        AppConfig {
            headscale_url: owned("https://vpn.oneberry.cc:31443"),
            namespace: owned("oneberry-dev"),
            shadow_node: owned("hmdev-node01"),
            shadow_image: owned("image.hm.metavarse.tech:9443/hongmei-dev/kt-connect-shadow:v0.3.7"),
            theme: owned("system"),
        }
    }
}

/// The settings file: `.oneberry/config.json` in the home directory (the current directory
/// where there is no home directory).
pub open spec fn config_path_spec(home: Option<String>) -> Seq<char> {
    let h = match home {
        Some(h) => h@,
        None => "."@,
    };
    path_join_spec(path_join_spec(h, ".oneberry"@), "config.json"@)
}

/// The settings file.
pub fn config_path(home: Option<String>) -> (r: String)
    ensures
        r@ == config_path_spec(home),
{
    let ghost want = config_path_spec(home);
    let h = crate::text::string_or(home, ".");
    let dir = path_join(h.as_str(), ".oneberry");
    let r = path_join(dir.as_str(), "config.json");
    assert(r@ == want);
    r
}

/// The settings: those read from the settings file, or the default ones where there is no
/// such file (`None`); an error where the file could not be read or parsed.
pub fn get_config(loaded: Option<Result<AppConfig, String>>) -> (r: Result<AppConfig, String>)
    ensures
        match loaded {
            None => (r matches Ok(c) && c.is_default()),
            Some(x) => r == x,
        },
{
    match loaded {
        None => Ok(AppConfig::default()),
        Some(x) => x,
    }
}

/// The three commands that find out which tools work: `tailscale version` (run as the
/// command-line tools are on the platform), `kubectl version --client --short` and
/// `ktctl --version`.
pub fn check_setup_commands(host: &HostEnv) -> (r: (CommandSpec, CommandSpec, CommandSpec))
    ensures
        exists|p: Seq<bool>|
            (r.0@.program, r.0@.args, r.0@.hide_window) == cli_command_spec(
                host.platform,
                resolve_bin_spec(
                    "tailscale"@,
                    bin_candidates_spec("tailscale"@, *host),
                    p,
                ),
                seq!["version"@],
            ),
        exists|p: Seq<bool>|
            r.1@.program == resolve_bin_spec(
                "kubectl"@,
                bin_candidates_spec("kubectl"@, *host),
                p,
            ),
        r.1@.args == seq!["version"@, "--client"@, "--short"@],
        !r.1@.hide_window,
        exists|p: Seq<bool>|
            r.2@.program == resolve_bin_spec(
                "ktctl"@,
                bin_candidates_spec("ktctl"@, *host),
                p,
            ),
        r.2@.args == seq!["--version"@],
        !r.2@.hide_window,
{
    let ts = find_bin("tailscale", host);
    let version: &[&str] = &["version"];
    assert(str_views(version@) =~= seq!["version"@]);
    let t = cli_command(host.platform, ts.as_str(), version);
    let kubectl = find_bin("kubectl", host);
    let k = command(kubectl.as_str(), &["version", "--client", "--short"], false);
    let ktctl = find_bin("ktctl", host);
    let kt = command(ktctl.as_str(), &["--version"], false);
    (t, k, kt)
}

/// Which tools work, from the runs of the three commands of `check_setup_commands`: each
/// that ran and succeeded. Whether the daemon runs is not found out.
pub fn check_setup(tailscale: &RunOutcome, kubectl: &RunOutcome, ktctl: &RunOutcome) -> (r: SetupStatus)
    ensures
        r.tailscale_installed == succeeded(*tailscale),
        r.kubectl_available == succeeded(*kubectl),
        r.ktctl_available == succeeded(*ktctl),
        !r.daemon_running,
{
    SetupStatus {
        tailscale_installed: ran_ok(tailscale),
        kubectl_available: ran_ok(kubectl),
        ktctl_available: ran_ok(ktctl),
        daemon_running: false,
    }
}

/// Whether the command ran and succeeded.
pub fn ran_ok(o: &RunOutcome) -> (r: bool)
    ensures
        r == succeeded(*o),
{
    match o {
        RunOutcome::Exited(x) => x.success,
        RunOutcome::Failed(_) => false,
    }
}

/// Where the bundled Tailscale installer for the platform (`tailscale_installer_name`) may
/// be: under the application's resources (where their directory is known), then under the
/// source tree (development builds).
pub open spec fn installer_candidates(platform: Platform, resource_dir: Option<String>, manifest_dir: Seq<char>) -> Seq<Seq<char>> {
    let file = installer_name_spec(platform);
    let dev = path_join_spec(path_join_spec(manifest_dir, "resources"@), file);
    match resource_dir {
        Some(rd) => seq![path_join_spec(path_join_spec(rd@, "resources"@), file), dev],
        None => seq![dev],
    }
}

/// The command that installs the bundled package at `pkg`: on macOS `installer` through
/// `osascript` with administrator rights (one password dialog), on Windows `msiexec` showing
/// its progress only (Windows asks for elevation itself).
pub open spec fn is_installer_command(c: CommandSpec, platform: Platform, pkg: Seq<char>) -> bool {
    if platform == Platform::Windows {
        c@.program == "msiexec"@ && c@.args == seq!["/i"@, pkg, "/passive"@, "/norestart"@] && !c@.hide_window
    } else {
        c@.program == "osascript"@ && c@.args == seq!["-e"@, admin_script_spec(installer_line(pkg))]
            && !c@.hide_window
    }
}

/// The installer's failure says that the user refused: the password dialog dismissed on macOS,
/// exit code 1602 (cancelled by the user) from `msiexec` on Windows.
pub open spec fn install_cancelled(platform: Platform, code: Option<i32>, stderr: Seq<char>) -> bool {
    if platform == Platform::Windows {
        code == Some(1602i32)
    } else {
        prompt_cancelled_spec(stderr)
    }
}

/// The reply where the daemon did not answer within the time given to it.
pub open spec fn daemon_late_reply(platform: Platform) -> Seq<char> {
    if platform == Platform::Windows {
        "安装完成，Tailscale 服务尚未就绪，请稍后点击「重试」"@
    } else {
        "安装完成，请在「系统设置 → 隐私与安全性」中允许 Tailscale 网络扩展"@
    }
}

fn installer_command(platform: Platform, pkg: &str) -> (c: CommandSpec)
    ensures
        is_installer_command(c, platform, pkg@),
{
    if platform == Platform::Windows {
        let args: &[&str] = &["/i", pkg, "/passive", "/norestart"];
        assert(str_views(args@) =~= seq!["/i"@, pkg@, "/passive"@, "/norestart"@]);
        command("msiexec", args, false)
    } else {
        let line = concat3("installer -pkg '", pkg, "' -target /");
        osascript_command(admin_script(line.as_str()))
    }
}

/// Where installing Tailscale stands.
#[derive(Clone, Copy, Debug, PartialEq, Eq, Structural)]
pub enum InstallStage {
    /// Waiting to learn whether installer candidate `0` exists.
    AwaitCandidate(usize),
    /// Waiting for the installer to run.
    AwaitInstaller,
    /// Waiting for status check number `0` of the daemon (counting from 0).
    AwaitDaemon(u32),
    /// Waiting before status check number `0 + 1`.
    AwaitSleep(u32),
    /// Waiting for the download page to be opened.
    AwaitBrowser,
    /// The request has been answered.
    Finished,
}

/// What the application is to do next while Tailscale is installed.
pub enum InstallAction {
    /// Find out whether the path exists; answer `Exists`.
    PathExists(String),
    /// Run the command to its end; answer `Ran`.
    Run(CommandSpec),
    /// Wait this many seconds; answer `Slept`.
    Sleep(u64),
    /// The request is answered.
    Done(Result<String, String>),
}

/// What the application reports back.
pub enum InstallEvent {
    Exists(bool),
    Ran(RunOutcome),
    Slept,
}

/// Installing Tailscale.
pub struct InstallTask {
    pub platform: Platform,
    pub candidates: Vec<String>,
    pub stage: InstallStage,
}

/// The shell command that installs the package at `pkg`.
pub open spec fn installer_line(pkg: Seq<char>) -> Seq<char> {
    "installer -pkg '"@ + pkg + "' -target /"@
}

/// The reply on Windows, where the user installs Tailscale from the browser.
pub open spec fn windows_install_reply() -> Seq<char> {
    "OPEN_BROWSER:请从浏览器下载安装 Tailscale，安装完成后点击「重试」"@
}

/// The command that opens the download page: `open <url>` on macOS, `cmd /c start <url>` on
/// Windows.
pub open spec fn is_browser_command(c: CommandSpec, platform: Platform) -> bool {
    &&& platform == Platform::Windows ==> c@.program == "cmd"@ && c@.args == seq![
        "/c"@,
        "start"@,
        download_url_spec(platform),
    ]
    &&& platform != Platform::Windows ==> c@.program == "open"@ && c@.args == seq![download_url_spec(platform)]
    &&& !c@.hide_window
}

/// The command that opens the download page.
pub fn browser_command(platform: Platform) -> (c: CommandSpec)
    ensures
        is_browser_command(c, platform),
{
    let url = tailscale_download_url(platform);
    match platform {
        Platform::Windows => {
            let args: &[&str] = &["/c", "start", url];
            assert(str_views(args@) =~= seq!["/c"@, "start"@, url@]);
            command("cmd", args, false)
        },
        _ => {
            let args: &[&str] = &[url];
            assert(str_views(args@) =~= seq![url@]);
            command("open", args, false)
        },
    }
}

/// Starts installing Tailscale. On macOS and Windows the bundled package (`.pkg`, `.msi`) is
/// looked for among the application's resources and installed, after which the daemon is
/// given up to 15 seconds to answer; where no package is bundled the download page is
/// opened. On Linux the user is told to install it.
pub fn install_tailscale(platform: Platform, resource_dir: Option<String>, manifest_dir: &str) -> (r: (InstallTask, InstallAction))
    ensures
        r.0.platform == platform,
        r.0.wf(),
        string_views(r.0.candidates@) == installer_candidates(platform, resource_dir, manifest_dir@),
        platform != Platform::Linux ==> r.0.stage == InstallStage::AwaitCandidate(0) && (r.1 matches InstallAction::PathExists(p)
            && p@ == installer_candidates(platform, resource_dir, manifest_dir@)[0]),
        platform == Platform::Linux ==> r.0.stage == InstallStage::Finished && (r.1 matches InstallAction::Done(Err(m))
            && m@ == "请手动安装 Tailscale: "@ + download_url_spec(platform)),
{
    let ghost want = installer_candidates(platform, resource_dir, manifest_dir@);
    let file = tailscale_installer_name(platform);
    let mut candidates: Vec<String> = Vec::new();
    match resource_dir {
        Some(rd) => {
            let res = path_join(rd.as_str(), "resources");
            candidates.push(path_join(res.as_str(), file));
        },
        None => {},
    }
    let dev = path_join(manifest_dir, "resources");
    candidates.push(path_join(dev.as_str(), file));
    assert(string_views(candidates@) =~= want);
    match platform {
        Platform::Linux => (
            InstallTask { platform, candidates, stage: InstallStage::Finished },
            InstallAction::Done(Err(concat2("请手动安装 Tailscale: ", tailscale_download_url(platform)))),
        ),
        _ => {
            let first = candidates[0].clone();
            (InstallTask { platform, candidates, stage: InstallStage::AwaitCandidate(0) }, InstallAction::PathExists(first))
        },
    }
}

/// The kind of event a stage waits for.
pub open spec fn install_expects(stage: InstallStage, event: InstallEvent) -> bool {
    match stage {
        InstallStage::AwaitCandidate(_) => event is Exists,
        InstallStage::AwaitInstaller | InstallStage::AwaitDaemon(_) | InstallStage::AwaitBrowser => event is Ran,
        InstallStage::AwaitSleep(_) => event is Slept,
        InstallStage::Finished => false,
    }
}

/// The command that asks the daemon for its status.
pub open spec fn is_daemon_check(c: CommandSpec, host: HostEnv) -> bool {
    exists|p: Seq<bool>|
        (c@.program, c@.args, c@.hide_window) == cli_command_spec(
            host.platform,
            resolve_bin_spec(
                "tailscale"@,
                bin_candidates_spec("tailscale"@, host),
                p,
            ),
            seq!["status"@, "--json"@],
        )
}

fn daemon_check(host: &HostEnv) -> (c: CommandSpec)
    ensures
        is_daemon_check(c, *host),
{
    let bin = find_bin("tailscale", host);
    let args: &[&str] = &["status", "--json"];
    assert(str_views(args@) =~= seq!["status"@, "--json"@]);
    cli_command(host.platform, bin.as_str(), args)
}

impl InstallTask {
    /// A candidate being checked (on macOS) is one of the candidates; the daemon is checked
    /// 15 times at most.
    pub open spec fn wf(&self) -> bool {
        match self.stage {
            InstallStage::AwaitCandidate(i) => i < self.candidates@.len() && self.platform
                != Platform::Linux,
            InstallStage::AwaitInstaller | InstallStage::AwaitBrowser => self.platform != Platform::Linux,
            InstallStage::AwaitDaemon(i) => i <= 14,
            InstallStage::AwaitSleep(i) => i < 14,
            _ => true,
        }
    }

    /// Takes the application's report of the last action and says what to do next.
    pub fn step(&mut self, host: &HostEnv, event: InstallEvent) -> (a: InstallAction)
        requires
            old(self).wf(),
            install_expects(old(self).stage, event),
            host.platform == old(self).platform,
        ensures
            final(self).wf(),
            final(self).platform == old(self).platform,
            final(self).candidates == old(self).candidates,
            a is Done <==> final(self).stage == InstallStage::Finished,
            match old(self).stage {
                InstallStage::AwaitCandidate(i) => match event {
                    InstallEvent::Exists(true) => final(self).stage == InstallStage::AwaitInstaller && (a matches InstallAction::Run(c)
                        && is_installer_command(c, old(self).platform, old(self).candidates@[i as int]@)),
                    InstallEvent::Exists(false) => if i + 1 < old(self).candidates@.len() {
                        final(self).stage == InstallStage::AwaitCandidate((i + 1) as usize) && (a matches InstallAction::PathExists(p)
                            && p@ == old(self).candidates@[i + 1]@)
                    } else {
                        final(self).stage == InstallStage::AwaitBrowser && (a matches InstallAction::Run(c)
                            && is_browser_command(c, old(self).platform))
                    },
                    _ => true,
                },
                InstallStage::AwaitBrowser => if old(self).platform == Platform::Windows {
                    (a matches InstallAction::Done(Ok(m)) && m@ == windows_install_reply())
                } else {
                    (a matches InstallAction::Done(Err(m)) && m@ == "未找到内嵌安装包，已为你打开下载页面: "@
                        + download_url_spec(old(self).platform))
                },
                InstallStage::AwaitInstaller => match event {
                    InstallEvent::Ran(RunOutcome::Failed(e)) => (a matches InstallAction::Done(Err(m)) && m@ == "启动安装器失败: "@ + e@),
                    InstallEvent::Ran(RunOutcome::Exited(x)) => if !x.success {
                        if install_cancelled(old(self).platform, x.code, x.stderr@) {
                            (a matches InstallAction::Done(Err(m)) && m@ == "用户取消了安装"@)
                        } else {
                            (a matches InstallAction::Done(Err(m)) && m@ == "安装失败: "@ + x.stderr@)
                        }
                    } else {
                        final(self).stage == InstallStage::AwaitDaemon(0) && (a matches InstallAction::Run(c) && is_daemon_check(c, *host))
                    },
                    _ => true,
                },
                InstallStage::AwaitDaemon(i) => match event {
                    InstallEvent::Ran(o) => if succeeded(o) {
                        (a matches InstallAction::Done(Ok(m)) && m@ == "安装完成，守护进程已就绪"@)
                    } else if i < 14 {
                        final(self).stage == InstallStage::AwaitSleep(i) && a == InstallAction::Sleep(1)
                    } else {
                        (a matches InstallAction::Done(Ok(m)) && m@ == daemon_late_reply(old(self).platform))
                    },
                    _ => true,
                },
                InstallStage::AwaitSleep(i) => final(self).stage == InstallStage::AwaitDaemon((i + 1) as u32) && (a matches InstallAction::Run(c)
                    && is_daemon_check(c, *host)),
                InstallStage::Finished => true,
            },
    {
        let stage = self.stage;
        self.stage = InstallStage::Finished;
        match stage {
            InstallStage::AwaitCandidate(i) => match event {
                InstallEvent::Exists(true) => {
                    self.stage = InstallStage::AwaitInstaller;
                    InstallAction::Run(installer_command(self.platform, self.candidates[i].as_str()))
                },
                _ => {
                    let n = self.candidates.len();
                    if i + 1 < n {
                        self.stage = InstallStage::AwaitCandidate(i + 1);
                        InstallAction::PathExists(self.candidates[i + 1].clone())
                    } else {
                        self.stage = InstallStage::AwaitBrowser;
                        InstallAction::Run(browser_command(self.platform))
                    }
                },
            },
            InstallStage::AwaitBrowser => {
                if self.platform == Platform::Windows {
                    InstallAction::Done(Ok(owned("OPEN_BROWSER:请从浏览器下载安装 Tailscale，安装完成后点击「重试」")))
                } else {
                    InstallAction::Done(Err(concat2("未找到内嵌安装包，已为你打开下载页面: ", tailscale_download_url(self.platform))))
                }
            },
            InstallStage::AwaitInstaller => match event {
                InstallEvent::Ran(RunOutcome::Failed(e)) => InstallAction::Done(Err(concat2("启动安装器失败: ", e.as_str()))),
                InstallEvent::Ran(RunOutcome::Exited(x)) => {
                    if !x.success {
                        let cancelled = if self.platform == Platform::Windows {
                            match x.code {
                                Some(c) => c == 1602,
                                None => false,
                            }
                        } else {
                            prompt_cancelled(x.stderr.as_str())
                        };
                        if cancelled {
                            InstallAction::Done(Err(owned("用户取消了安装")))
                        } else {
                            InstallAction::Done(Err(concat2("安装失败: ", x.stderr.as_str())))
                        }
                    } else {
                        self.stage = InstallStage::AwaitDaemon(0);
                        InstallAction::Run(daemon_check(host))
                    }
                },
                _ => InstallAction::Done(Err(owned("安装失败: "))),
            },
            InstallStage::AwaitDaemon(i) => match event {
                InstallEvent::Ran(o) => {
                    if ran_ok(&o) {
                        InstallAction::Done(Ok(owned("安装完成，守护进程已就绪")))
                    } else if i < 14 {
                        self.stage = InstallStage::AwaitSleep(i);
                        InstallAction::Sleep(1)
                    } else {
                        if self.platform == Platform::Windows {
                            InstallAction::Done(Ok(owned("安装完成，Tailscale 服务尚未就绪，请稍后点击「重试」")))
                        } else {
                            InstallAction::Done(Ok(owned("安装完成，请在「系统设置 → 隐私与安全性」中允许 Tailscale 网络扩展")))
                        }
                    }
                },
                _ => InstallAction::Done(Ok(owned("安装完成，守护进程已就绪"))),
            },
            InstallStage::AwaitSleep(i) => {
                self.stage = InstallStage::AwaitDaemon(i + 1);
                InstallAction::Run(daemon_check(host))
            },
            InstallStage::Finished => InstallAction::Done(Ok(owned("安装完成，守护进程已就绪"))),
        }
    }
}

/// The home directory, as given (empty where there is none).
pub open spec fn home_or_empty(home: Option<String>) -> Seq<char> {
    match home {
        Some(h) => h@,
        None => ""@,
    }
}

/// Where the bundled kubeconfig may be: under the application's resources (where their
/// directory is known), then under the source tree (development builds).
pub open spec fn kubeconfig_candidates(resource_dir: Option<String>, manifest_dir: Seq<char>) -> Seq<Seq<char>> {
    let dev = path_join_spec(path_join_spec(manifest_dir, "resources"@), "kubeconfig"@);
    match resource_dir {
        Some(rd) => seq![path_join_spec(path_join_spec(rd@, "resources"@), "kubeconfig"@), dev],
        None => seq![dev],
    }
}

/// Where installing the bundled kubeconfig stands.
#[derive(Clone, Copy, Debug, PartialEq, Eq, Structural)]
pub enum DeployStage {
    /// Waiting to learn whether `~/.kube/config` exists.
    AwaitConfig,
    /// Waiting to learn whether candidate `0` exists.
    AwaitCandidate(usize),
    /// Waiting for `~/.kube` to be created, before candidate `0` is copied.
    AwaitDir(usize),
    /// Waiting for the copy.
    AwaitCopy,
    /// Done.
    Finished,
}

/// What the application is to do next while the bundled kubeconfig is installed.
pub enum DeployAction {
    /// Find out whether the path exists; answer `Exists`.
    PathExists(String),
    /// Create the directory and its parents, whatever comes of it; answer `Io`.
    CreateDir(String),
    /// Copy the file (from, to) and log how it went; answer `Io`.
    Copy(String, String),
    /// Nothing more to do.
    Done,
}

/// What the application reports back.
pub enum DeployEvent {
    Exists(bool),
    Io(Result<(), String>),
}

/// Installing the bundled kubeconfig as `~/.kube/config`, so that `kubectl` works on a new
/// machine; an existing one is never replaced.
pub struct KubeconfigDeploy {
    pub kube_dir: String,
    pub kube_config: String,
    pub candidates: Vec<String>,
    pub stage: DeployStage,
}

/// Starts installing the bundled kubeconfig.
pub fn deploy_kubeconfig(home: Option<String>, resource_dir: Option<String>, manifest_dir: &str) -> (r: (KubeconfigDeploy, DeployAction))
    ensures
        r.0.kube_dir@ == path_join_spec(home_or_empty(home), ".kube"@),
        r.0.kube_config@ == path_join_spec(r.0.kube_dir@, "config"@),
        string_views(r.0.candidates@) == kubeconfig_candidates(resource_dir, manifest_dir@),
        r.0.stage == DeployStage::AwaitConfig,
        r.1 matches DeployAction::PathExists(p) && p@ == r.0.kube_config@,
{
    let ghost want = kubeconfig_candidates(resource_dir, manifest_dir@);
    let ghost hv = home_or_empty(home);
    let h = crate::text::string_or(home, "");
    assert(h@ == hv);
    let kube_dir = path_join(h.as_str(), ".kube");
    let kube_config = path_join(kube_dir.as_str(), "config");
    let mut candidates: Vec<String> = Vec::new();
    match resource_dir {
        Some(rd) => {
            let res = path_join(rd.as_str(), "resources");
            candidates.push(path_join(res.as_str(), "kubeconfig"));
        },
        None => {},
    }
    let dev = path_join(manifest_dir, "resources");
    candidates.push(path_join(dev.as_str(), "kubeconfig"));
    assert(string_views(candidates@) =~= want);
    let first = kube_config.clone();
    (KubeconfigDeploy { kube_dir, kube_config, candidates, stage: DeployStage::AwaitConfig }, DeployAction::PathExists(first))
}

impl KubeconfigDeploy {
    /// A candidate named by the stage is one of the candidates.
    pub open spec fn wf(&self) -> bool {
        match self.stage {
            DeployStage::AwaitCandidate(i) => i < self.candidates@.len(),
            DeployStage::AwaitDir(i) => i < self.candidates@.len(),
            _ => true,
        }
    }

    /// Takes the application's report of the last action and says what to do next.
    pub fn step(&mut self, event: DeployEvent) -> (a: DeployAction)
        requires
            old(self).wf(),
            old(self).candidates@.len() > 0,
            old(self).stage != DeployStage::Finished,
            (old(self).stage is AwaitConfig || old(self).stage is AwaitCandidate) <==> event is Exists,
        ensures
            final(self).wf(),
            final(self).kube_dir == old(self).kube_dir,
            final(self).kube_config == old(self).kube_config,
            final(self).candidates == old(self).candidates,
            a is Done <==> final(self).stage == DeployStage::Finished,
            match old(self).stage {
                DeployStage::AwaitConfig => if event == DeployEvent::Exists(true) {
                    a is Done
                } else {
                    final(self).stage == DeployStage::AwaitCandidate(0) && (a matches DeployAction::PathExists(p)
                        && p@ == old(self).candidates@[0]@)
                },
                DeployStage::AwaitCandidate(i) => if event == DeployEvent::Exists(true) {
                    final(self).stage == DeployStage::AwaitDir(i) && (a matches DeployAction::CreateDir(d)
                        && d@ == old(self).kube_dir@)
                } else if i + 1 < old(self).candidates@.len() {
                    final(self).stage == DeployStage::AwaitCandidate((i + 1) as usize) && (a matches DeployAction::PathExists(p)
                        && p@ == old(self).candidates@[i + 1]@)
                } else {
                    a is Done
                },
                DeployStage::AwaitDir(i) => final(self).stage == DeployStage::AwaitCopy && (a matches DeployAction::Copy(from, to)
                    && from@ == old(self).candidates@[i as int]@ && to@ == old(self).kube_config@),
                DeployStage::AwaitCopy => a is Done,
                DeployStage::Finished => true,
            },
    {
        let stage = self.stage;
        self.stage = DeployStage::Finished;
        match stage {
            DeployStage::AwaitConfig => match event {
                DeployEvent::Exists(true) => DeployAction::Done,
                _ => {
                    self.stage = DeployStage::AwaitCandidate(0);
                    DeployAction::PathExists(self.candidates[0].clone())
                },
            },
            DeployStage::AwaitCandidate(i) => match event {
                DeployEvent::Exists(true) => {
                    self.stage = DeployStage::AwaitDir(i);
                    DeployAction::CreateDir(self.kube_dir.clone())
                },
                _ => {
                    let n = self.candidates.len();
                    if i + 1 < n {
                        self.stage = DeployStage::AwaitCandidate(i + 1);
                        DeployAction::PathExists(self.candidates[i + 1].clone())
                    } else {
                        DeployAction::Done
                    }
                },
            },
            DeployStage::AwaitDir(i) => {
                self.stage = DeployStage::AwaitCopy;
                DeployAction::Copy(self.candidates[i].clone(), self.kube_config.clone())
            },
            _ => DeployAction::Done,
        }
    }
}

} // verus!
