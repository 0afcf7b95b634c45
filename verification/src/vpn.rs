use vstd::prelude::*;
use vstd::string::StringSliceAdditionalSpecFns;
use vstd::utf8::{decode_utf8, encode_utf8, encode_utf8_decode_utf8, is_char_boundary};

use crate::command::{CommandSpec, RunOutcome};
use crate::json::{
    array_of, as_array, as_str, field, field2, json_of_bytes, lemma_path_one, parse_json,
    parsed_view, path_spec, str_of, JsonValue,
};
use crate::platform::{HostEnv, Platform};
use crate::text::{
    bool_text, bool_to_string, concat2, contains_seq, contains_str, decimal_seq, i64_to_string,
    int_decimal, opt_view, owned, push_str, str_eq, string_views, trim, trim_seq, u64_to_string,
};
use crate::utils::{
    check_bin_in_path, cli_command, cli_command_spec, find_bin, path_lookup_command,
    resolve_bin_spec, bin_candidates_spec,
};

verus! {

/// The state of the VPN.
pub struct VpnStatus {
    /// `"connected"`, `"disconnected"`, `"not_installed"`, `"needs_login"` or `"needs_auth"`.
    pub status: String,
    pub auth_url: Option<String>,
    pub ip: Option<String>,
    pub hostname: Option<String>,
    /// How the state was found out.
    pub debug_info: Option<String>,
}

/// The content of a VPN state.
pub struct VpnView {
    pub status: Seq<char>,
    pub auth_url: Option<Seq<char>>,
    pub ip: Option<Seq<char>>,
    pub hostname: Option<Seq<char>>,
    pub debug_info: Option<Seq<char>>,
}

impl View for VpnStatus {
    type V = VpnView;

    open spec fn view(&self) -> VpnView {
        VpnView {
            status: self.status@,
            auth_url: opt_view(self.auth_url),
            ip: opt_view(self.ip),
            hostname: opt_view(self.hostname),
            debug_info: opt_view(self.debug_info),
        }
    }
}

/// A VPN state with only a status and how it was found out.
pub open spec fn plain_status(status: Seq<char>, debug: Seq<char>) -> VpnView {
    VpnView { status, auth_url: None, ip: None, hostname: None, debug_info: Some(debug) }
}

fn plain(status: &str, debug: String) -> (r: VpnStatus)
    ensures
        r@ == plain_status(status@, debug@),
{
    VpnStatus { status: owned(status), auth_url: None, ip: None, hostname: None, debug_info: Some(debug) }
}

/// The status that Tailscale's backend state stands for.
pub open spec fn backend_status(backend: Seq<char>) -> Seq<char> {
    if backend == "Running"@ {
        "connected"@
    } else if backend == "NeedsLogin"@ {
        "needs_login"@
    } else if backend == "NeedsMachineAuth"@ {
        "needs_auth"@
    } else {
        "disconnected"@
    }
}

/// The status that Tailscale's backend state stands for.
pub fn status_of_backend(backend: &str) -> (r: &'static str)
    ensures
        r@ == backend_status(backend@),
{
    if str_eq(backend, "Running") {
        "connected"
    } else if str_eq(backend, "NeedsLogin") {
        "needs_login"
    } else if str_eq(backend, "NeedsMachineAuth") {
        "needs_auth"
    } else {
        "disconnected"
    }
}

/// Tailscale's backend state in its status report (`"Unknown"` where there is none).
pub open spec fn backend_of(json: JsonValue) -> Seq<char> {
    match str_of(path_spec(json, seq!["BackendState"@])) {
        Some(b) => b,
        None => "Unknown"@,
    }
}

/// The first of this machine's Tailscale addresses in the status report.
pub open spec fn first_ip_of(json: JsonValue) -> Option<Seq<char>> {
    match array_of(path_spec(json, seq!["Self"@, "TailscaleIPs"@])) {
        Some(ips) => if ips.len() > 0 {
            str_of(Some(ips[0]))
        } else {
            None
        },
        None => None,
    }
}

/// The VPN state that a status report gives; `debug` is how it was found out so far.
pub open spec fn status_from_report(json: JsonValue, debug: Seq<char>) -> VpnView {
    let backend = backend_of(json);
    let status = backend_status(backend);
    let connected = status == "connected"@;
    VpnView {
        status,
        auth_url: str_of(path_spec(json, seq!["AuthURL"@])),
        ip: if connected { first_ip_of(json) } else { None },
        hostname: if connected {
            str_of(path_spec(json, seq!["Self"@, "HostName"@]))
        } else {
            None
        },
        debug_info: Some(debug + ", backend="@ + backend + ", verdict="@ + status),
    }
}

/// The VPN state from a status report.
pub fn vpn_status_from_report(json: &JsonValue, debug: String) -> (r: VpnStatus)
    ensures
        r@ == status_from_report(*json, debug@),
{
    proof {
        lemma_path_one(*json, "BackendState"@);
        lemma_path_one(*json, "AuthURL"@);
    }
    let backend = match as_str(field(json, "BackendState")) {
        Some(b) => b.clone(),
        None => owned("Unknown"),
    };
    let status = status_of_backend(backend.as_str());
    let connected = str_eq(status, "connected");
    let auth_url = match as_str(field(json, "AuthURL")) {
        Some(u) => Some(u.clone()),
        None => None,
    };
    let ip = if connected {
        match as_array(field2(json, "Self", "TailscaleIPs")) {
            Some(ips) => if ips.len() > 0 {
                match as_str(Some(&ips[0])) {
                    Some(s) => Some(s.clone()),
                    None => None,
                }
            } else {
                None
            },
            None => None,
        }
    } else {
        None
    };
    let hostname = if connected {
        match as_str(field2(json, "Self", "HostName")) {
            Some(h) => Some(h.clone()),
            None => None,
        }
    } else {
        None
    };
    let mut d = debug;
    push_str(&mut d, ", backend=");
    push_str(&mut d, backend.as_str());
    push_str(&mut d, ", verdict=");
    push_str(&mut d, status);
    VpnStatus { status: owned(status), auth_url, ip, hostname, debug_info: Some(d) }
}

/// The error output of a failed `tailscale status` says that the binary is a wrapper
/// script left behind by an uninstalled Tailscale.app.
pub open spec fn broken_install(code: i32, stderr: Seq<char>) -> bool {
    code == 127 || contains_seq(stderr, "command not found"@) || (contains_seq(
        stderr,
        "No such file or directory"@,
    ) && contains_seq(stderr, "Tailscale.app"@))
}

/// A preview of output that is not JSON: its first 200 bytes and `...` where it is longer,
/// else the whole output, trimmed.
pub open spec fn preview_spec(stdout: Seq<char>) -> Seq<char> {
    let bytes = encode_utf8(stdout);
    if bytes.len() > 200 {
        decode_utf8(bytes.subrange(0, 200)) + "..."@
    } else {
        trim_seq(stdout)
    }
}

/// The first 200 bytes of output longer than that end on a character boundary (or the
/// preview would cut a character in two), and the output's length fits in memory.
pub open spec fn preview_splits(stdout: Seq<char>) -> bool {
    let bytes = encode_utf8(stdout);
    &&& bytes.len() <= usize::MAX
    &&& bytes.len() > 200 ==> is_char_boundary(bytes, 200)
}

/// The VPN state from the run of `tailscale status --json`, where `parsed` is the JSON
/// reading of its trimmed standard output (consulted only where the run succeeded); `debug`
/// is how the state was found out so far.
pub open spec fn status_from_run(o: RunOutcome, parsed: Result<JsonValue, Seq<char>>, debug: Seq<char>) -> VpnView {
    match o {
        RunOutcome::Failed(e) => plain_status(
            "not_installed"@,
            debug + ", cmd_err="@ + e@ + ", verdict=not_installed(exec_fail)"@,
        ),
        RunOutcome::Exited(x) => if !x.success {
            let code: i32 = match x.code {
                Some(c) => c,
                None => -1i32,
            };
            let d = debug + ", exit="@ + int_decimal(code as int) + ", stderr="@ + trim_seq(x.stderr@);
            if broken_install(code, x.stderr@) {
                plain_status("not_installed"@, d + ", verdict=not_installed(broken_wrapper)"@)
            } else {
                plain_status("disconnected"@, d + ", verdict=disconnected(cmd_failed)"@)
            }
        } else {
            match parsed {
                Err(e) => plain_status(
                    "disconnected"@,
                    debug + ", parse_err="@ + e + ", stdout_len="@ + decimal_seq(
                        (encode_utf8(x.stdout@).len() as usize) as nat,
                    ) + ", stdout_preview=["@ + preview_spec(x.stdout@) + "], verdict=disconnected(bad_json)"@,
                ),
                Ok(json) => status_from_report(json, debug),
            }
        },
    }
}

fn output_preview(stdout: &String) -> (r: String)
    requires
        preview_splits(stdout@),
    ensures
        r@ == preview_spec(stdout@),
{
    let s = stdout.as_str();
    if s.len() > 200 {
        let (head, _) = s.split_at(200);
        let r = concat2(head, "...");
        proof {
            encode_utf8_decode_utf8(head@);
            assert(encode_utf8(head@) == head.spec_bytes());
        }
        r
    } else {
        trim(s)
    }
}

/// The run succeeded but its output is not JSON: the state's description then shows the
/// output's beginning.
pub open spec fn needs_preview(o: RunOutcome, parsed: Result<JsonValue, Seq<char>>) -> bool {
    (o matches RunOutcome::Exited(x) && x.success) && parsed is Err
}

/// The VPN state from the run of `tailscale status --json`.
pub fn vpn_status_from_run(o: &RunOutcome, parsed: &Result<JsonValue, String>, debug: String) -> (r: VpnStatus)
    requires
        needs_preview(*o, parsed_view(*parsed)) ==> preview_splits(o->Exited_0.stdout@),
    ensures
        r@ == status_from_run(*o, parsed_view(*parsed), debug@),
{
    match o {
        RunOutcome::Failed(e) => {
            let mut d = debug;
            push_str(&mut d, ", cmd_err=");
            push_str(&mut d, e.as_str());
            push_str(&mut d, ", verdict=not_installed(exec_fail)");
            let r = plain("not_installed", d);
            assert(r@ == status_from_run(*o, parsed_view(*parsed), debug@));
            r
        },
        RunOutcome::Exited(x) => {
            if !x.success {
                let code: i32 = match x.code {
                    Some(c) => c,
                    None => -1,
                };
                let mut d = debug;
                push_str(&mut d, ", exit=");
                push_str(&mut d, i64_to_string(code as i64).as_str());
                push_str(&mut d, ", stderr=");
                push_str(&mut d, trim(x.stderr.as_str()).as_str());
                let stderr = x.stderr.as_str();
                let broken = code == 127 || contains_str(stderr, "command not found") || (
                contains_str(stderr, "No such file or directory") && contains_str(
                    stderr,
                    "Tailscale.app",
                ));
                let r = if broken {
                    push_str(&mut d, ", verdict=not_installed(broken_wrapper)");
                    plain("not_installed", d)
                } else {
                    push_str(&mut d, ", verdict=disconnected(cmd_failed)");
                    plain("disconnected", d)
                };
                assert(r@ == status_from_run(*o, parsed_view(*parsed), debug@));
                r
            } else {
                match parsed {
                    Err(e) => {
                        let preview = output_preview(&x.stdout);
                        let mut d = debug;
                        push_str(&mut d, ", parse_err=");
                        push_str(&mut d, e.as_str());
                        push_str(&mut d, ", stdout_len=");
                        push_str(&mut d, u64_to_string(x.stdout.as_str().len() as u64).as_str());
                        push_str(&mut d, ", stdout_preview=[");
                        push_str(&mut d, preview.as_str());
                        push_str(&mut d, "], verdict=disconnected(bad_json)");
                        let r = plain("disconnected", d);
                        assert(r@ == status_from_run(*o, parsed_view(*parsed), debug@));
                        r
                    },
                    Ok(json) => {
                        let r = vpn_status_from_report(json, debug);
                        assert(r@ == status_from_run(*o, parsed_view(*parsed), debug@));
                        r
                    },
                }
            }
        },
    }
}

/// What `tailscale status --json` printed, read as JSON: its trimmed standard output, where
/// the run succeeded (the output is not read otherwise).
pub open spec fn status_json_spec(o: RunOutcome) -> Result<JsonValue, Seq<char>> {
    match o {
        RunOutcome::Exited(x) => if x.success {
            json_of_bytes(encode_utf8(trim_seq(x.stdout@)))
        } else {
            Err(Seq::empty())
        },
        RunOutcome::Failed(_) => Err(Seq::empty()),
    }
}

/// Reads the trimmed output of a successful `tailscale status --json` as JSON.
pub fn status_json(o: &RunOutcome) -> (r: Result<JsonValue, String>)
    ensures
        parsed_view(r) == status_json_spec(*o),
{
    match o {
        RunOutcome::Exited(x) => if x.success {
            let t = trim(x.stdout.as_str());
            let bytes = t.as_str().as_bytes();
            proof {
                encode_utf8_decode_utf8(t@);
            }
            assert(bytes@ == encode_utf8(t@));
            parse_json(bytes)
        } else {
            Err(String::new())
        },
        RunOutcome::Failed(_) => Err(String::new()),
    }
}

/// The report of a status run can be described: where the run succeeded but its output is
/// not JSON, the output's first 200 bytes end on a character boundary.
pub open spec fn status_describable(o: RunOutcome) -> bool {
    needs_preview(o, status_json_spec(o)) ==> preview_splits(o->Exited_0.stdout@)
}

/// Where finding out the VPN state stands.
#[derive(Clone, Copy, Debug, PartialEq, Eq, Structural)]
pub enum VpnCheckStage {
    /// Waiting for the `PATH` lookup of `tailscale`.
    AwaitLookup,
    /// Waiting to learn whether the binary exists.
    AwaitExists,
    /// Waiting for `tailscale status --json`.
    AwaitStatus,
    /// The state is known.
    Finished,
}

/// What the application is to do next while the VPN state is found out.
pub enum VpnCheckAction {
    /// Run the `PATH` lookup; answer `Ran`.
    Lookup(CommandSpec),
    /// Find out whether the path exists; answer `Exists`.
    PathExists(String),
    /// Run the status command, then read its trimmed standard output as JSON where it
    /// succeeded; answer `Status`.
    Status(CommandSpec),
    /// The VPN state.
    Finish(VpnStatus),
}

/// What the application reports back.
pub enum VpnCheckEvent {
    Ran(RunOutcome),
    Exists(bool),
    Status(RunOutcome),
}

/// Finding out the VPN state.
pub struct VpnCheck {
    pub platform: Platform,
    /// The Tailscale binary.
    pub bin: String,
    /// How the state has been found out so far.
    pub debug: String,
    pub stage: VpnCheckStage,
}

/// The command that asks Tailscale for its state.
pub open spec fn is_status_command(c: CommandSpec, platform: Platform, bin: Seq<char>) -> bool {
    (c@.program, c@.args, c@.hide_window) == cli_command_spec(platform, bin, seq!["status"@, "--json"@])
}

/// Finds out the state of the VPN. First whether the Tailscale binary is there (looked up
/// in `PATH` where no install location has it), then what `tailscale status --json` says.
pub fn check_vpn(host: &HostEnv) -> (r: (VpnCheck, VpnCheckAction))
    ensures
        r.0.platform == host.platform,
        exists|present: Seq<bool>|
            r.0.bin@ == resolve_bin_spec(
                "tailscale"@,
                bin_candidates_spec("tailscale"@, *host),
                present,
            ),
        r.0.debug@ == "bin_path="@ + r.0.bin@,
        r.0.bin@ == "tailscale"@ ==> r.0.stage == VpnCheckStage::AwaitLookup && (r.1 matches VpnCheckAction::Lookup(c)
            && c@.program == (if host.platform == Platform::Windows { "where"@ } else { "which"@ })
            && c@.args == seq!["tailscale"@]),
        r.0.bin@ != "tailscale"@ ==> r.0.stage == VpnCheckStage::AwaitExists && (r.1 matches VpnCheckAction::PathExists(p)
            && p@ == r.0.bin@),
{
    let bin = find_bin("tailscale", host);
    let debug = concat2("bin_path=", bin.as_str());
    if str_eq(bin.as_str(), "tailscale") {
        let c = path_lookup_command(host.platform, "tailscale");
        (VpnCheck { platform: host.platform, bin, debug, stage: VpnCheckStage::AwaitLookup }, VpnCheckAction::Lookup(c))
    } else {
        let p = bin.clone();
        (VpnCheck { platform: host.platform, bin, debug, stage: VpnCheckStage::AwaitExists }, VpnCheckAction::PathExists(p))
    }
}

/// The kind of event a stage waits for, and what a status report must satisfy.
pub open spec fn check_expects(stage: VpnCheckStage, event: VpnCheckEvent) -> bool {
    match stage {
        VpnCheckStage::AwaitLookup => event is Ran,
        VpnCheckStage::AwaitExists => event is Exists,
        VpnCheckStage::AwaitStatus => (event matches VpnCheckEvent::Status(o) && status_describable(o)),
        VpnCheckStage::Finished => false,
    }
}

impl VpnCheck {
    /// After learning whether the binary is there: ask for the status, or report Tailscale
    /// as not installed.
    fn after_presence(&mut self, present: bool) -> (a: VpnCheckAction)
        ensures
            final(self).platform == old(self).platform,
            final(self).bin == old(self).bin,
            final(self).debug == old(self).debug,
            present ==> final(self).stage == VpnCheckStage::AwaitStatus && (a matches VpnCheckAction::Status(c)
                && is_status_command(c, old(self).platform, old(self).bin@)),
            !present ==> final(self).stage == VpnCheckStage::Finished && (a matches VpnCheckAction::Finish(st)
                && st@ == plain_status(
                "not_installed"@,
                old(self).debug@ + ", verdict=not_installed(binary_missing)"@,
            )),
    {
        if present {
            self.stage = VpnCheckStage::AwaitStatus;
            let args: &[&str] = &["status", "--json"];
            assert(crate::text::str_views(args@) =~= seq!["status"@, "--json"@]);
            VpnCheckAction::Status(cli_command(self.platform, self.bin.as_str(), args))
        } else {
            self.stage = VpnCheckStage::Finished;
            let d = concat2(self.debug.as_str(), ", verdict=not_installed(binary_missing)");
            VpnCheckAction::Finish(plain("not_installed", d))
        }
    }

    /// Takes the application's report of the last action and says what to do next.
    pub fn step(&mut self, event: VpnCheckEvent) -> (a: VpnCheckAction)
        requires
            check_expects(old(self).stage, event),
        ensures
            final(self).platform == old(self).platform,
            final(self).bin == old(self).bin,
            a is Finish <==> final(self).stage == VpnCheckStage::Finished,
            match event {
                VpnCheckEvent::Ran(o) => {
                    let exists = o matches RunOutcome::Exited(x) && x.success;
                    let path = match o {
                        RunOutcome::Exited(x) => trim_seq(x.stdout@),
                        RunOutcome::Failed(_) => Seq::empty(),
                    };
                    let d = old(self).debug@ + ", which_exists="@ + bool_text(exists) + ", which_path="@ + path;
                    final(self).debug@ == d && if exists {
                        final(self).stage == VpnCheckStage::AwaitStatus && (a matches VpnCheckAction::Status(c)
                            && is_status_command(c, old(self).platform, old(self).bin@))
                    } else {
                        a matches VpnCheckAction::Finish(st) && st@ == plain_status(
                            "not_installed"@,
                            d + ", verdict=not_installed(binary_missing)"@,
                        )
                    }
                },
                VpnCheckEvent::Exists(b) => {
                    let d = old(self).debug@ + ", path_exists="@ + bool_text(b);
                    final(self).debug@ == d && if b {
                        final(self).stage == VpnCheckStage::AwaitStatus && (a matches VpnCheckAction::Status(c)
                            && is_status_command(c, old(self).platform, old(self).bin@))
                    } else {
                        a matches VpnCheckAction::Finish(st) && st@ == plain_status(
                            "not_installed"@,
                            d + ", verdict=not_installed(binary_missing)"@,
                        )
                    }
                },
                VpnCheckEvent::Status(o) => (a matches VpnCheckAction::Finish(st) && st@
                    == status_from_run(o, status_json_spec(o), old(self).debug@)),
            },
    {
        match event {
            VpnCheckEvent::Ran(o) => {
                let (exists, path) = check_bin_in_path(&o);
                push_str(&mut self.debug, ", which_exists=");
                push_str(&mut self.debug, bool_to_string(exists).as_str());
                push_str(&mut self.debug, ", which_path=");
                push_str(&mut self.debug, path.as_str());
                self.after_presence(exists)
            },
            VpnCheckEvent::Exists(b) => {
                push_str(&mut self.debug, ", path_exists=");
                push_str(&mut self.debug, bool_to_string(b).as_str());
                self.after_presence(b)
            },
            VpnCheckEvent::Status(o) => {
                let parsed = status_json(&o);
                self.stage = VpnCheckStage::Finished;
                let st = vpn_status_from_run(&o, &parsed, self.debug.clone());
                VpnCheckAction::Finish(st)
            },
        }
    }

    /// Hands the status run to `step` where its report can be described; `None`, the check
    /// left as it was, where it cannot (the run succeeded, its output is not JSON, and the
    /// output's first 200 bytes end inside a character).
    pub fn report_status(&mut self, o: RunOutcome) -> (r: Option<VpnCheckAction>)
        requires
            old(self).stage == VpnCheckStage::AwaitStatus,
        ensures
            !status_describable(o) ==> r is None && *final(self) == *old(self),
            status_describable(o) ==> final(self).stage == VpnCheckStage::Finished && (r matches Some(
                VpnCheckAction::Finish(st),
            ) && st@ == status_from_run(o, status_json_spec(o), old(self).debug@)),
    {
        let parsed = status_json(&o);
        let describable = match &o {
            RunOutcome::Exited(x) => if x.success && parsed.is_err() {
                let s = x.stdout.as_str();
                let n = s.as_bytes().len();
                proof {
                    encode_utf8_decode_utf8(s@);
                }
                assert(s.spec_bytes() == encode_utf8(x.stdout@));
                n <= 200 || s.is_char_boundary(200)
            } else {
                true
            },
            RunOutcome::Failed(_) => true,
        };
        if describable {
            Some(self.step(VpnCheckEvent::Status(o)))
        } else {
            None
        }
    }
}

/// The command that opens `url` in the default browser: `cmd /c start "" <url>` on Windows
/// (without a console window), `open` on macOS, `xdg-open` on Linux.
pub fn open_auth_url(platform: Platform, url: &str) -> (c: CommandSpec)
    ensures
        platform == Platform::Windows ==> c@.program == "cmd"@ && c@.args == seq![
            "/c"@,
            "start"@,
            ""@,
            url@,
        ] && c@.hide_window,
        platform == Platform::MacOs ==> c@.program == "open"@ && c@.args == seq![url@]
            && !c@.hide_window,
        platform == Platform::Linux ==> c@.program == "xdg-open"@ && c@.args == seq![url@]
            && !c@.hide_window,
{
    let mut v: Vec<String> = Vec::new();
    match platform {
        Platform::Windows => {
            v.push(owned("/c"));
            v.push(owned("start"));
            v.push(owned(""));
            v.push(owned(url));
            assert(string_views(v@) =~= seq!["/c"@, "start"@, ""@, url@]);
            CommandSpec { program: owned("cmd"), args: v, hide_window: true }
        },
        Platform::MacOs => {
            v.push(owned(url));
            assert(string_views(v@) =~= seq![url@]);
            CommandSpec { program: owned("open"), args: v, hide_window: false }
        },
        Platform::Linux => {
            v.push(owned(url));
            assert(string_views(v@) =~= seq![url@]);
            CommandSpec { program: owned("xdg-open"), args: v, hide_window: false }
        },
    }
}

/// The reply to a request to open a URL, from the outcome of starting the browser.
pub fn open_auth_url_reply(spawned: Result<(), String>) -> (r: Result<(), String>)
    ensures
        match spawned {
            Ok(()) => r is Ok,
            Err(e) => (r matches Err(m) && m@ == "Failed to open browser: "@ + e@),
        },
{
    match spawned {
        Ok(()) => Ok(()),
        Err(e) => Err(concat2("Failed to open browser: ", e.as_str())),
    }
}

/// The control server used where none is given.
pub open spec fn default_login_server() -> Seq<char> {
    "https://vpn.oneberry.cc:31443"@
}

/// The control server to log in to: the one given, else the default one.
pub open spec fn login_server(url: Option<String>) -> Seq<char> {
    match url {
        Some(u) => u@,
        None => default_login_server(),
    }
}

/// Where connecting the VPN stands.
#[derive(Clone, Copy, Debug, PartialEq, Eq, Structural)]
pub enum ConnectStage {
    /// Waiting for `tailscale up` to be started.
    AwaitUp,
    /// Waiting before status check number `0` (counting from 0).
    Sleeping(u32),
    /// Waiting for the result of status check number `0`.
    AwaitStatus(u32),
    /// Waiting for the cluster DNS to be set up.
    AwaitDns,
    /// The request has been answered.
    Finished,
}

/// What the application is to do next while the VPN connects.
pub enum ConnectAction {
    /// Start the command and leave it running (it waits for the user to log in); answer
    /// `Spawned`.
    Spawn(CommandSpec),
    /// Wait this many seconds; answer `Slept`.
    Sleep(u64),
    /// Find out the VPN state (`check_vpn`); answer `Checked`.
    CheckVpn,
    /// Set the cluster DNS up (`ensure_cluster_dns`), whatever comes of it; answer `DnsDone`.
    EnsureDns,
    /// The request is answered.
    Done(Result<String, String>),
}

/// What the application reports back.
pub enum ConnectEvent {
    Spawned(Result<(), String>),
    Slept,
    Checked(VpnStatus),
    DnsDone,
}

/// Connecting the VPN.
pub struct VpnConnect {
    /// The Tailscale binary.
    pub bin: String,
    pub stage: ConnectStage,
}

/// Starts connecting the VPN to the control server `headscale_url` (the default one where
/// none is given): `tailscale up --login-server <url> --accept-routes --reset`, left running.
pub fn connect_vpn(host: &HostEnv, headscale_url: Option<String>) -> (r: (VpnConnect, ConnectAction))
    ensures
        r.0.stage == ConnectStage::AwaitUp,
        exists|present: Seq<bool>|
            r.0.bin@ == resolve_bin_spec(
                "tailscale"@,
                bin_candidates_spec("tailscale"@, *host),
                present,
            ),
        r.1 matches ConnectAction::Spawn(c) && (c@.program, c@.args, c@.hide_window)
            == cli_command_spec(
            host.platform,
            r.0.bin@,
            seq![
                "up"@,
                "--login-server"@,
                login_server(headscale_url),
                "--accept-routes"@,
                "--reset"@,
            ],
        ),
{
    let url = match &headscale_url {
        Some(u) => u.clone(),
        None => owned("https://vpn.oneberry.cc:31443"),
    };
    assert(url@ == login_server(headscale_url));
    let bin = find_bin("tailscale", host);
    let args: &[&str] = &["up", "--login-server", url.as_str(), "--accept-routes", "--reset"];
    assert(crate::text::str_views(args@) =~= seq!["up"@, "--login-server"@, url@, "--accept-routes"@, "--reset"@]);
    let c = cli_command(host.platform, bin.as_str(), args);
    (VpnConnect { bin, stage: ConnectStage::AwaitUp }, ConnectAction::Spawn(c))
}

/// The kind of event a stage waits for.
pub open spec fn connect_expects(stage: ConnectStage, event: ConnectEvent) -> bool {
    match stage {
        ConnectStage::AwaitUp => event is Spawned,
        ConnectStage::Sleeping(_) => event is Slept,
        ConnectStage::AwaitStatus(_) => event is Checked,
        ConnectStage::AwaitDns => event is DnsDone,
        ConnectStage::Finished => false,
    }
}

/// The URL held, or the empty string.
pub open spec fn url_or_empty(url: Option<String>) -> Seq<char> {
    match url {
        Some(u) => u@,
        None => ""@,
    }
}

/// The reply where a login is needed, with the login URL where there is one.
pub open spec fn auth_required(url: Seq<char>) -> Seq<char> {
    "AUTH_REQUIRED:"@ + url
}

impl VpnConnect {
    /// At most three status checks are made.
    pub open spec fn wf(&self) -> bool {
        match self.stage {
            ConnectStage::Sleeping(i) => i <= 2,
            ConnectStage::AwaitStatus(i) => i <= 2,
            _ => true,
        }
    }

    /// Takes the application's report of the last action and says what to do next. The
    /// status is checked after 3 seconds, then after 2 more each time, three times at most;
    /// the cluster DNS is set up only once the VPN is connected.
    pub fn step(&mut self, event: ConnectEvent) -> (a: ConnectAction)
        requires
            old(self).wf(),
            connect_expects(old(self).stage, event),
        ensures
            final(self).wf(),
            final(self).bin == old(self).bin,
            a is Done <==> final(self).stage == ConnectStage::Finished,
            a is EnsureDns ==> final(self).stage == ConnectStage::AwaitDns,
            match old(self).stage {
                ConnectStage::AwaitUp => match event {
                    ConnectEvent::Spawned(Err(e)) => (a matches ConnectAction::Done(Err(m)) && m@ == "启动 Tailscale 失败: "@ + e@),
                    _ => final(self).stage == ConnectStage::Sleeping(0) && a == ConnectAction::Sleep(3),
                },
                ConnectStage::Sleeping(i) => final(self).stage == ConnectStage::AwaitStatus(i) && a is CheckVpn,
                ConnectStage::AwaitStatus(i) => match event {
                    ConnectEvent::Checked(st) => if st.status@ == "connected"@ {
                        a is EnsureDns
                    } else if st.auth_url matches Some(u) && u@.len() > 0 {
                        (a matches ConnectAction::Done(Ok(m)) && m@ == auth_required(st.auth_url->0@))
                    } else if st.status@ == "needs_login"@ || st.status@ == "needs_auth"@ {
                        (a matches ConnectAction::Done(Ok(m)) && m@ == auth_required(url_or_empty(st.auth_url)))
                    } else if i < 2 {
                        final(self).stage == ConnectStage::Sleeping((i + 1) as u32) && a == ConnectAction::Sleep(2)
                    } else {
                        (a matches ConnectAction::Done(Ok(m)) && m@ == "VPN 连接请求已发送，正在等待认证..."@)
                    },
                    _ => true,
                },
                ConnectStage::AwaitDns => (a matches ConnectAction::Done(Ok(m)) && m@ == "VPN 已连接"@),
                ConnectStage::Finished => true,
            },
    {
        let stage = self.stage;
        self.stage = ConnectStage::Finished;
        match stage {
            ConnectStage::AwaitUp => match event {
                ConnectEvent::Spawned(Err(e)) => ConnectAction::Done(Err(concat2("启动 Tailscale 失败: ", e.as_str()))),
                _ => {
                    self.stage = ConnectStage::Sleeping(0);
                    ConnectAction::Sleep(3)
                },
            },
            ConnectStage::Sleeping(i) => {
                self.stage = ConnectStage::AwaitStatus(i);
                ConnectAction::CheckVpn
            },
            ConnectStage::AwaitStatus(i) => match event {
                ConnectEvent::Checked(st) => {
                    if str_eq(st.status.as_str(), "connected") {
                        self.stage = ConnectStage::AwaitDns;
                        return ConnectAction::EnsureDns;
                    }
                    match &st.auth_url {
                        Some(u) => {
                            if crate::text::chars_of(u.as_str()).len() > 0 {
                                return ConnectAction::Done(Ok(concat2("AUTH_REQUIRED:", u.as_str())));
                            }
                        },
                        None => {},
                    }
                    if str_eq(st.status.as_str(), "needs_login") || str_eq(st.status.as_str(), "needs_auth") {
                        let u = crate::text::string_or(st.auth_url, "");
                        return ConnectAction::Done(Ok(concat2("AUTH_REQUIRED:", u.as_str())));
                    }
                    if i < 2 {
                        self.stage = ConnectStage::Sleeping(i + 1);
                        ConnectAction::Sleep(2)
                    } else {
                        ConnectAction::Done(Ok(owned("VPN 连接请求已发送，正在等待认证...")))
                    }
                },
                _ => ConnectAction::Done(Ok(owned("VPN 连接请求已发送，正在等待认证..."))),
            },
            ConnectStage::AwaitDns => ConnectAction::Done(Ok(owned("VPN 已连接"))),
            ConnectStage::Finished => ConnectAction::Done(Ok(owned("VPN 已连接"))),
        }
    }
}

/// Where disconnecting the VPN stands.
#[derive(Clone, Copy, Debug, PartialEq, Eq, Structural)]
pub enum DisconnectStage {
    /// Waiting for the cluster DNS set-up to be removed.
    AwaitDns,
    /// Waiting for `tailscale down` to be started.
    AwaitDown,
    /// The request has been answered.
    Finished,
}

/// What the application is to do next while the VPN disconnects.
pub enum DisconnectAction {
    /// Remove the cluster DNS set-up (`remove_cluster_dns`); answer `DnsDone`.
    RemoveDns,
    /// Start the command and leave it running; answer `Spawned`.
    Spawn(CommandSpec),
    /// The request is answered.
    Done(Result<String, String>),
}

/// What the application reports back.
pub enum DisconnectEvent {
    DnsDone,
    Spawned(Result<(), String>),
}

/// Disconnecting the VPN.
pub struct VpnDisconnect {
    pub platform: Platform,
    pub bin: String,
    pub stage: DisconnectStage,
}

/// Starts disconnecting the VPN: first the cluster DNS set-up is removed (the cluster's DNS
/// server cannot be reached once the VPN is down), then `tailscale down` is started and left
/// running (it can take half a minute, the disconnection itself is at once).
pub fn disconnect_vpn(host: &HostEnv) -> (r: (VpnDisconnect, DisconnectAction))
    ensures
        r.0.platform == host.platform,
        exists|present: Seq<bool>|
            r.0.bin@ == resolve_bin_spec(
                "tailscale"@,
                bin_candidates_spec("tailscale"@, *host),
                present,
            ),
        r.0.stage == DisconnectStage::AwaitDns,
        r.1 is RemoveDns,
{
    let bin = find_bin("tailscale", host);
    (VpnDisconnect { platform: host.platform, bin, stage: DisconnectStage::AwaitDns }, DisconnectAction::RemoveDns)
}

impl VpnDisconnect {
    /// Takes the application's report of the last action and says what to do next.
    pub fn step(&mut self, event: DisconnectEvent) -> (a: DisconnectAction)
        requires
            old(self).stage == DisconnectStage::AwaitDns ==> event is DnsDone,
            old(self).stage == DisconnectStage::AwaitDown ==> event is Spawned,
            old(self).stage != DisconnectStage::Finished,
        ensures
            final(self).platform == old(self).platform,
            final(self).bin == old(self).bin,
            old(self).stage == DisconnectStage::AwaitDns ==> final(self).stage == DisconnectStage::AwaitDown
                && (a matches DisconnectAction::Spawn(c) && (c@.program, c@.args, c@.hide_window)
                == cli_command_spec(old(self).platform, old(self).bin@, seq!["down"@])),
            old(self).stage == DisconnectStage::AwaitDown ==> final(self).stage == DisconnectStage::Finished
                && match event {
                DisconnectEvent::Spawned(Err(e)) => (a matches DisconnectAction::Done(Err(m)) && m@ == "断开失败: "@ + e@),
                _ => (a matches DisconnectAction::Done(Ok(m)) && m@ == "VPN 已断开"@),
            },
    {
        match self.stage {
            DisconnectStage::AwaitDns => {
                self.stage = DisconnectStage::AwaitDown;
                let args: &[&str] = &["down"];
                assert(crate::text::str_views(args@) =~= seq!["down"@]);
                DisconnectAction::Spawn(cli_command(self.platform, self.bin.as_str(), args))
            },
            _ => {
                self.stage = DisconnectStage::Finished;
                match event {
                    DisconnectEvent::Spawned(Err(e)) => DisconnectAction::Done(Err(concat2("断开失败: ", e.as_str()))),
                    _ => DisconnectAction::Done(Ok(owned("VPN 已断开"))),
                }
            },
        }
    }
}

} // verus!
