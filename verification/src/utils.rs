use vstd::prelude::*;

use crate::command::{command, strings_of, CommandSpec, RunOutcome};
use crate::platform::{HostEnv, Platform};
use crate::text::{
    concat2, contains_seq, contains_str, decimal_seq, push_char, push_str, str_eq, str_views,
    string_views, trim, trim_seq, u64_to_string,
};

verus! {

/// The places where each tool is commonly installed, in the order they are tried.
pub open spec fn system_paths_spec(
    name: Seq<char>,
    platform: Platform,
    program_files: Seq<char>,
    local_app_data: Seq<char>,
) -> Seq<Seq<char>> {
    match platform {
        Platform::MacOs => if name == "tailscale"@ {
            seq![
                "/Applications/Tailscale.app/Contents/MacOS/tailscale"@,
                "/opt/homebrew/bin/tailscale"@,
                "/usr/local/bin/tailscale"@,
            ]
        } else if name == "kubectl"@ {
            seq!["/opt/homebrew/bin/kubectl"@, "/usr/local/bin/kubectl"@, "/usr/bin/kubectl"@]
        } else if name == "ktctl"@ {
            seq!["/opt/homebrew/bin/ktctl"@, "/usr/local/bin/ktctl"@]
        } else {
            seq![]
        },
        Platform::Windows => if name == "tailscale"@ {
            seq![
                program_files + "\\Tailscale\\tailscale.exe"@,
                program_files + "\\Tailscale IPN\\tailscale.exe"@,
                local_app_data + "\\Tailscale\\tailscale.exe"@,
                local_app_data + "\\Tailscale IPN\\tailscale.exe"@,
                "C:\\Program Files\\Tailscale\\tailscale.exe"@,
            ]
        } else if name == "kubectl"@ {
            seq![
                program_files + "\\kubectl\\kubectl.exe"@,
                local_app_data + "\\kubectl.exe"@,
                "C:\\kubectl\\kubectl.exe"@,
            ]
        } else if name == "ktctl"@ {
            seq![program_files + "\\ktctl\\ktctl.exe"@, local_app_data + "\\ktctl.exe"@]
        } else {
            seq![]
        },
        Platform::Linux => if name == "tailscale"@ {
            seq!["/usr/bin/tailscale"@, "/usr/local/bin/tailscale"@]
        } else if name == "kubectl"@ {
            seq!["/usr/local/bin/kubectl"@, "/usr/bin/kubectl"@]
        } else if name == "ktctl"@ {
            seq!["/usr/local/bin/ktctl"@]
        } else {
            seq![]
        },
    }
}

/// `s` ends with `suffix`.
pub open spec fn ends_with(s: Seq<char>, suffix: Seq<char>) -> bool {
    suffix.len() <= s.len() && s.subrange(s.len() - suffix.len(), s.len() as int) == suffix
}

/// `s` begins with `prefix`.
pub open spec fn starts_with(s: Seq<char>, prefix: Seq<char>) -> bool {
    prefix.len() <= s.len() && s.subrange(0, prefix.len() as int) == prefix
}

/// The tools the application looks for at known install locations.
pub open spec fn known_tool(name: Seq<char>) -> bool {
    name == "tailscale"@ || name == "kubectl"@ || name == "ktctl"@
}

/// The last component of the tool's binary path on the platform: `/<tool>` on macOS and
/// Linux, `\<tool>.exe` on Windows.
pub open spec fn tool_file(platform: Platform, name: Seq<char>) -> Seq<char> {
    if platform == Platform::Windows {
        "\\"@ + name + ".exe"@
    } else {
        "/"@ + name
    }
}

proof fn lemma_ends(prefix: Seq<char>, suffix: Seq<char>)
    ensures
        ends_with(prefix + suffix, suffix),
        starts_with(prefix + suffix, prefix),
{
    assert((prefix + suffix).subrange(prefix.len() as int, (prefix + suffix).len() as int) =~= suffix);
    assert((prefix + suffix).subrange(0, prefix.len() as int) =~= prefix);
}

/// Where each tool is looked for, whatever the host: every location is the tool's own binary
/// (`/<tool>`, or `\<tool>.exe` on Windows); a tool with no known location is looked for on
/// `PATH` only. On macOS each tool is looked for where Homebrew installs it on Apple silicon
/// (`/opt/homebrew/bin`) and then where it goes on Intel Macs and by hand (`/usr/local/bin`),
/// Tailscale first of all as the CLI inside the Mac app; on Linux in `/usr/local/bin`; on
/// Windows under Program Files and under the user's local application data.
pub proof fn law_install_locations(name: Seq<char>, platform: Platform, program_files: Seq<char>, local_app_data: Seq<char>)
    ensures
        ({
            let paths = system_paths_spec(name, platform, program_files, local_app_data);
            &&& !known_tool(name) ==> paths.len() == 0
            &&& forall|i: int| 0 <= i < paths.len() ==> ends_with(#[trigger] paths[i], tool_file(platform, name))
            &&& known_tool(name) && platform == Platform::MacOs ==> exists|i: int, j: int|
                0 <= i < j < paths.len() && #[trigger] paths[i] == "/opt/homebrew/bin"@ + tool_file(platform, name)
                    && #[trigger] paths[j] == "/usr/local/bin"@ + tool_file(platform, name)
            &&& name == "tailscale"@ && platform == Platform::MacOs ==> paths[0]
                == "/Applications/Tailscale.app/Contents/MacOS"@ + tool_file(platform, name)
            &&& known_tool(name) && platform == Platform::Linux ==> exists|i: int|
                0 <= i < paths.len() && #[trigger] paths[i] == "/usr/local/bin"@ + tool_file(platform, name)
            &&& known_tool(name) && platform == Platform::Windows ==> (exists|i: int|
                0 <= i < paths.len() && starts_with(#[trigger] paths[i], program_files)) && (exists|i: int|
                0 <= i < paths.len() && starts_with(#[trigger] paths[i], local_app_data))
        }),
{
    reveal_strlit("tailscale");
    reveal_strlit("kubectl");
    reveal_strlit("ktctl");
    reveal_strlit("/");
    reveal_strlit("\\");
    reveal_strlit(".exe");
    reveal_strlit("/opt/homebrew/bin");
    reveal_strlit("/usr/local/bin");
    reveal_strlit("/usr/bin");
    reveal_strlit("/Applications/Tailscale.app/Contents/MacOS");
    reveal_strlit("/Applications/Tailscale.app/Contents/MacOS/tailscale");
    reveal_strlit("/opt/homebrew/bin/tailscale");
    reveal_strlit("/usr/local/bin/tailscale");
    reveal_strlit("/opt/homebrew/bin/kubectl");
    reveal_strlit("/usr/local/bin/kubectl");
    reveal_strlit("/usr/bin/kubectl");
    reveal_strlit("/opt/homebrew/bin/ktctl");
    reveal_strlit("/usr/local/bin/ktctl");
    reveal_strlit("/usr/bin/tailscale");
    reveal_strlit("\\Tailscale\\tailscale.exe");
    reveal_strlit("\\Tailscale IPN\\tailscale.exe");
    reveal_strlit("C:\\Program Files\\Tailscale\\tailscale.exe");
    reveal_strlit("\\kubectl\\kubectl.exe");
    reveal_strlit("\\kubectl.exe");
    reveal_strlit("C:\\kubectl\\kubectl.exe");
    reveal_strlit("\\ktctl\\ktctl.exe");
    reveal_strlit("\\ktctl.exe");
    let paths = system_paths_spec(name, platform, program_files, local_app_data);
    let f = tool_file(platform, name);
    if known_tool(name) {
        let dirs: Seq<Seq<char>> = match platform {
            Platform::MacOs => if name == "tailscale"@ {
                seq!["/Applications/Tailscale.app/Contents/MacOS"@, "/opt/homebrew/bin"@, "/usr/local/bin"@]
            } else if name == "kubectl"@ {
                seq!["/opt/homebrew/bin"@, "/usr/local/bin"@, "/usr/bin"@]
            } else {
                seq!["/opt/homebrew/bin"@, "/usr/local/bin"@]
            },
            Platform::Linux => if name == "tailscale"@ {
                seq!["/usr/bin"@, "/usr/local/bin"@]
            } else if name == "kubectl"@ {
                seq!["/usr/local/bin"@, "/usr/bin"@]
            } else {
                seq!["/usr/local/bin"@]
            },
            Platform::Windows => if name == "tailscale"@ {
                seq![
                    program_files + "\\Tailscale"@,
                    program_files + "\\Tailscale IPN"@,
                    local_app_data + "\\Tailscale"@,
                    local_app_data + "\\Tailscale IPN"@,
                    "C:\\Program Files\\Tailscale"@,
                ]
            } else if name == "kubectl"@ {
                seq![program_files + "\\kubectl"@, local_app_data, "C:\\kubectl"@]
            } else {
                seq![program_files + "\\ktctl"@, local_app_data]
            },
        };
        reveal_strlit("\\Tailscale");
        reveal_strlit("\\Tailscale IPN");
        reveal_strlit("C:\\Program Files\\Tailscale");
        reveal_strlit("\\kubectl");
        reveal_strlit("C:\\kubectl");
        reveal_strlit("\\ktctl");
        assert(paths.len() == dirs.len());
        assert forall|i: int| 0 <= i < paths.len() implies paths[i] == dirs[i] + f by {
            assert(paths[i] =~= dirs[i] + f);
        }
        assert forall|i: int| 0 <= i < paths.len() implies ends_with(#[trigger] paths[i], f) by {
            lemma_ends(dirs[i], f);
        }
        if platform == Platform::Windows {
            let k: int = if name == "tailscale"@ { 2 } else { 1 };
            lemma_ends(program_files, paths[0].subrange(program_files.len() as int, paths[0].len() as int));
            assert(paths[0] =~= program_files + paths[0].subrange(program_files.len() as int, paths[0].len() as int));
            lemma_ends(local_app_data, paths[k].subrange(local_app_data.len() as int, paths[k].len() as int));
            assert(paths[k] =~= local_app_data + paths[k].subrange(local_app_data.len() as int, paths[k].len() as int));
        }
        if platform == Platform::MacOs {
            let i: int = if name == "tailscale"@ { 1 } else { 0 };
            assert(paths[i] == "/opt/homebrew/bin"@ + f);
            assert(paths[i + 1] == "/usr/local/bin"@ + f);
        }
        if platform == Platform::Linux {
            let i: int = if name == "tailscale"@ { 1 } else { 0 };
            assert(paths[i] == "/usr/local/bin"@ + f);
        }
    }
}

/// The install locations of the tool `name` on the host, in the order they are tried.
pub fn system_paths(name: &str, host: &HostEnv) -> (paths: Vec<String>)
    ensures
        string_views(paths@) == system_paths_spec(
            name@,
            host.platform,
            host.program_files@,
            host.local_app_data@,
        ),
{
    let pf = host.program_files.as_str();
    let lad = host.local_app_data.as_str();
    match host.platform {
        Platform::MacOs => {
            if str_eq(name, "tailscale") {
                strings_of(
                    &[
                        "/Applications/Tailscale.app/Contents/MacOS/tailscale",
                        "/opt/homebrew/bin/tailscale",
                        "/usr/local/bin/tailscale",
                    ],
                )
            } else if str_eq(name, "kubectl") {
                strings_of(
                    &["/opt/homebrew/bin/kubectl", "/usr/local/bin/kubectl", "/usr/bin/kubectl"],
                )
            } else if str_eq(name, "ktctl") {
                strings_of(&["/opt/homebrew/bin/ktctl", "/usr/local/bin/ktctl"])
            } else {
                Vec::new()
            }
        },
        Platform::Windows => {
            let mut v: Vec<String> = Vec::new();
            if str_eq(name, "tailscale") {
                v.push(concat2(pf, "\\Tailscale\\tailscale.exe"));
                v.push(concat2(pf, "\\Tailscale IPN\\tailscale.exe"));
                v.push(concat2(lad, "\\Tailscale\\tailscale.exe"));
                v.push(concat2(lad, "\\Tailscale IPN\\tailscale.exe"));
                v.push("C:\\Program Files\\Tailscale\\tailscale.exe".to_owned());
            } else if str_eq(name, "kubectl") {
                v.push(concat2(pf, "\\kubectl\\kubectl.exe"));
                v.push(concat2(lad, "\\kubectl.exe"));
                v.push("C:\\kubectl\\kubectl.exe".to_owned());
            } else if str_eq(name, "ktctl") {
                v.push(concat2(pf, "\\ktctl\\ktctl.exe"));
                v.push(concat2(lad, "\\ktctl.exe"));
            }
            let ghost expected = system_paths_spec(
                name@,
                host.platform,
                host.program_files@,
                host.local_app_data@,
            );
            assert(string_views(v@) =~= expected);
            v
        },
        Platform::Linux => {
            if str_eq(name, "tailscale") {
                strings_of(&["/usr/bin/tailscale", "/usr/local/bin/tailscale"])
            } else if str_eq(name, "kubectl") {
                strings_of(&["/usr/local/bin/kubectl", "/usr/bin/kubectl"])
            } else if str_eq(name, "ktctl") {
                strings_of(&["/usr/local/bin/ktctl"])
            } else {
                Vec::new()
            }
        },
    }
}


/// `file` in the directory `dir`, with the platform's path separator.
pub open spec fn in_dir_spec(platform: Platform, dir: Seq<char>, file: Seq<char>) -> Seq<char> {
    let sep = if platform == Platform::Windows { '\\' } else { '/' };
    if dir.len() == 0 {
        file
    } else if dir.last() == sep {
        dir + file
    } else {
        dir + seq![sep] + file
    }
}

/// The bundled copy of the tool `name`, for the tools the application bundles (`kubectl` and
/// `ktctl`) where the directory of bundled tools is known: the file of that name (`.exe` on
/// Windows) in that directory.
pub open spec fn sidecar_paths_spec(name: Seq<char>, platform: Platform, sidecar_dir: Option<String>) -> Seq<Seq<char>> {
    match sidecar_dir {
        Some(d) => if name == "kubectl"@ || name == "ktctl"@ {
            seq![in_dir_spec(platform, d@, if platform == Platform::Windows { name + ".exe"@ } else { name })]
        } else {
            seq![]
        },
        None => seq![],
    }
}

/// Where the binary of the tool `name` is looked for, in order: the bundled copy, then the
/// common install locations.
pub open spec fn bin_candidates_spec(name: Seq<char>, host: HostEnv) -> Seq<Seq<char>> {
    sidecar_paths_spec(name, host.platform, host.sidecar_dir) + system_paths_spec(
        name,
        host.platform,
        host.program_files@,
        host.local_app_data@,
    )
}

/// Where the binary of the tool `name` is looked for on the host, in order.
pub fn bin_candidates(name: &str, host: &HostEnv) -> (v: Vec<String>)
    ensures
        string_views(v@) == bin_candidates_spec(name@, *host),
{
    let mut v: Vec<String> = Vec::new();
    match &host.sidecar_dir {
        Some(d) => {
            if str_eq(name, "kubectl") || str_eq(name, "ktctl") {
                let file = if host.platform == Platform::Windows { concat2(name, ".exe") } else { name.to_owned() };
                v.push(in_dir(host.platform, d.as_str(), file.as_str()));
            }
        },
        None => {},
    }
    let system = system_paths(name, host);
    let ghost first = v@;
    let mut i: usize = 0;
    while i < system.len()
        invariant
            i <= system@.len(),
            v@.len() == first.len() + i,
            forall|k: int| 0 <= k < first.len() ==> v@[k] == first[k],
            forall|k: int| 0 <= k < i ==> #[trigger] v@[first.len() + k] == system@[k],
        decreases system@.len() - i,
    {
        v.push(system[i].clone());
        i = i + 1;
    }
    assert forall|k: int| 0 <= k < v@.len() implies #[trigger] string_views(v@)[k] == (string_views(first)
        + string_views(system@))[k] by {
        if k >= first.len() {
            assert(v@[first.len() + (k - first.len())] == system@[k - first.len()]);
        }
    }
    assert(string_views(v@) =~= string_views(first) + string_views(system@));
    v
}

/// `file` in the directory `dir`.
fn in_dir(platform: Platform, dir: &str, file: &str) -> (r: String)
    ensures
        r@ == in_dir_spec(platform, dir@, file@),
{
    let sep = if platform == Platform::Windows { '\\' } else { '/' };
    let d = crate::text::chars_of(dir);
    if d.len() == 0 {
        file.to_owned()
    } else if d[d.len() - 1] == sep {
        concat2(dir, file)
    } else {
        let mut r = dir.to_owned();
        push_char(&mut r, sep);
        push_str(&mut r, file);
        r
    }
}

/// The binary to run for a tool: the first candidate whose presence is reported `true`,
/// the candidates taken in order; the bare name (to be looked up in `PATH`) where none is.
/// A candidate without a report counts as absent.
pub open spec fn resolve_bin_spec(
    name: Seq<char>,
    candidates: Seq<Seq<char>>,
    present: Seq<bool>,
) -> Seq<char>
    decreases candidates.len(),
{
    if candidates.len() == 0 || present.len() == 0 {
        name
    } else if present[0] {
        candidates[0]
    } else {
        resolve_bin_spec(name, candidates.drop_first(), present.drop_first())
    }
}

/// The first install location reported present is the one used.
pub proof fn law_first_present_wins(
    name: Seq<char>,
    candidates: Seq<Seq<char>>,
    present: Seq<bool>,
    i: int,
)
    requires
        0 <= i < candidates.len(),
        i < present.len(),
        present[i],
        forall|j: int| 0 <= j < i ==> !present[j],
    ensures
        resolve_bin_spec(name, candidates, present) == candidates[i],
    decreases i,
{
    if i > 0 {
        assert(!present[0]);
        let c = candidates.drop_first();
        let p = present.drop_first();
        assert forall|j: int| 0 <= j < i - 1 implies !p[j] by {
            assert(p[j] == present[j + 1]);
        }
        law_first_present_wins(name, c, p, i - 1);
    }
}

/// Where no install location is reported present, the bare name is used (and looked up in
/// `PATH`).
pub proof fn law_none_present_falls_back(name: Seq<char>, candidates: Seq<Seq<char>>, present: Seq<bool>)
    requires
        forall|j: int| 0 <= j < candidates.len() && j < present.len() ==> !present[j],
    ensures
        resolve_bin_spec(name, candidates, present) == name,
    decreases candidates.len(),
{
    if candidates.len() > 0 && present.len() > 0 {
        let c = candidates.drop_first();
        let p = present.drop_first();
        assert forall|j: int| 0 <= j < c.len() && j < p.len() implies !p[j] by {
            assert(p[j] == present[j + 1]);
        }
        law_none_present_falls_back(name, c, p);
    }
}

/// The binary used is always one of the install locations or the bare name.
pub proof fn law_resolved_is_known(name: Seq<char>, candidates: Seq<Seq<char>>, present: Seq<bool>)
    ensures
        resolve_bin_spec(name, candidates, present) == name || exists|i: int|
            0 <= i < candidates.len() && candidates[i] == resolve_bin_spec(name, candidates, present),
    decreases candidates.len(),
{
    if candidates.len() > 0 && present.len() > 0 && !present[0] {
        let c = candidates.drop_first();
        let p = present.drop_first();
        law_resolved_is_known(name, c, p);
        let r = resolve_bin_spec(name, c, p);
        if r != name {
            let i = choose|i: int| 0 <= i < c.len() && c[i] == r;
            assert(candidates[i + 1] == c[i]);
        }
    } else if candidates.len() > 0 && present.len() > 0 {
        assert(candidates[0] == resolve_bin_spec(name, candidates, present));
    }
}

/// Chooses the binary for `name` among `candidates`, given which of them exist.
pub fn resolve_bin(name: &str, candidates: &Vec<String>, present: &Vec<bool>) -> (r: String)
    ensures
        r@ == resolve_bin_spec(name@, string_views(candidates@), present@),
{
    let ghost cs = string_views(candidates@);
    assert(cs.skip(0) =~= cs);
    assert(present@.skip(0) =~= present@);
    let mut i: usize = 0;
    while i < candidates.len() && i < present.len()
        invariant
            i <= candidates@.len(),
            i <= present@.len(),
            cs == string_views(candidates@),
            resolve_bin_spec(name@, cs, present@) == resolve_bin_spec(
                name@,
                cs.skip(i as int),
                present@.skip(i as int),
            ),
        decreases candidates@.len() - i,
    {
        if present[i] {
            assert(cs.skip(i as int)[0] == candidates@[i as int]@);
            return candidates[i].clone();
        }
        assert(cs.skip(i as int).drop_first() =~= cs.skip(i + 1));
        assert(present@.skip(i as int).drop_first() =~= present@.skip(i + 1));
        i = i + 1;
    }
    name.to_owned()
}

/// Whether a file or directory exists at `path` (`Path::exists`).
/// Nothing is stated of the result: it depends on what is on disk when the call is made.
#[verifier::external_body]
fn path_exists(path: &str) -> bool {
    std::path::Path::new(path).exists()
}

/// Resolves the binary for the tool `name`: its bundled copy (kubectl and ktctl, where the
/// application bundles them), else the first of its install locations on the host that
/// exists, else the bare name, to be looked up in `PATH`. Candidates are probed in that order
/// and probing stops at the first that exists.
pub fn find_bin(name: &str, host: &HostEnv) -> (r: String)
    ensures
        exists|present: Seq<bool>| r@ == resolve_bin_spec(name@, bin_candidates_spec(name@, *host), present),
{
    let candidates = bin_candidates(name, host);
    let mut present: Vec<bool> = Vec::new();
    let mut i: usize = 0;
    while i < candidates.len()
        invariant
            i <= candidates@.len(),
        decreases candidates@.len() - i,
    {
        let found = path_exists(candidates[i].as_str());
        present.push(found);
        if found {
            break;
        }
        i = i + 1;
    }
    let r = resolve_bin(name, &candidates, &present);
    assert(r@ == resolve_bin_spec(name@, string_views(candidates@), present@));
    r
}

/// The file name of the Tailscale installer for the platform.
pub open spec fn installer_name_spec(platform: Platform) -> Seq<char> {
    match platform {
        Platform::MacOs => "tailscale-darwin.pkg"@,
        Platform::Windows => "tailscale-windows.msi"@,
        Platform::Linux => ""@,
    }
}

/// The file name of the Tailscale installer for the platform (none on Linux).
pub fn tailscale_installer_name(platform: Platform) -> (r: &'static str)
    ensures
        r@ == installer_name_spec(platform),
{
    match platform {
        Platform::MacOs => "tailscale-darwin.pkg",
        Platform::Windows => "tailscale-windows.msi",
        Platform::Linux => "",
    }
}

/// The page from which Tailscale is downloaded on the platform.
pub open spec fn download_url_spec(platform: Platform) -> Seq<char> {
    match platform {
        Platform::MacOs => "https://pkgs.tailscale.com/stable/#macos"@,
        Platform::Windows => "https://pkgs.tailscale.com/stable/#windows"@,
        Platform::Linux => "https://tailscale.com/download"@,
    }
}

/// The page from which Tailscale is downloaded on the platform.
pub fn tailscale_download_url(platform: Platform) -> (r: &'static str)
    ensures
        r@ == download_url_spec(platform),
{
    match platform {
        Platform::MacOs => "https://pkgs.tailscale.com/stable/#macos",
        Platform::Windows => "https://pkgs.tailscale.com/stable/#windows",
        Platform::Linux => "https://tailscale.com/download",
    }
}

/// `s` between single quotes, as one shell word (no escaping inside).
pub open spec fn single_quoted(s: Seq<char>) -> Seq<char> {
    seq!['\''] + s + seq!['\'']
}

/// The words, each single-quoted, separated by one space.
pub open spec fn quoted_line(words: Seq<Seq<char>>) -> Seq<char>
    decreases words.len(),
{
    if words.len() == 0 {
        seq![]
    } else if words.len() == 1 {
        single_quoted(words[0])
    } else {
        quoted_line(words.drop_last()) + seq![' '] + single_quoted(words.last())
    }
}

/// The single-quoted command line `'bin' 'arg1' 'arg2' ...`.
pub fn quoted_command_line(bin: &str, args: &[&str]) -> (r: String)
    ensures
        r@ == quoted_line(seq![bin@] + str_views(args@)),
{
    let ghost words = seq![bin@] + str_views(args@);
    let mut s = String::new();
    push_char(&mut s, '\'');
    push_str(&mut s, bin);
    push_char(&mut s, '\'');
    assert(words.take(1) =~= seq![bin@]);
    assert(s@ =~= quoted_line(words.take(1)));
    let mut i: usize = 0;
    while i < args.len()
        invariant
            i <= args@.len(),
            words == seq![bin@] + str_views(args@),
            s@ == quoted_line(words.take(i + 1)),
        decreases args@.len() - i,
    {
        push_char(&mut s, ' ');
        push_char(&mut s, '\'');
        push_str(&mut s, args[i]);
        push_char(&mut s, '\'');
        i = i + 1;
        let ghost w = words.take(i + 1);
        assert(w.drop_last() =~= words.take(i as int));
        assert(w.last() == args@[i - 1]@);
        assert(s@ =~= quoted_line(w));
    }
    assert(words.take(args@.len() + 1int) =~= words);
    s
}

/// How a command-line tool is started on the platform: on macOS through `/bin/sh -c` with
/// every word single-quoted (to get past the restrictions on processes started from an
/// application bundle), on Windows directly and without a console window, on Linux directly.
pub open spec fn cli_command_spec(platform: Platform, bin: Seq<char>, args: Seq<Seq<char>>) -> (
    Seq<char>,
    Seq<Seq<char>>,
    bool,
) {
    match platform {
        Platform::MacOs => ("/bin/sh"@, seq!["-c"@, quoted_line(seq![bin] + args)], false),
        Platform::Windows => (bin, args, true),
        Platform::Linux => (bin, args, false),
    }
}

/// The command that runs the tool `bin` with `args` on the platform, whether it is to be
/// waited for (`run_cli`) or left running (`spawn_cli`).
pub fn cli_command(platform: Platform, bin: &str, args: &[&str]) -> (c: CommandSpec)
    ensures
        (c@.program, c@.args, c@.hide_window) == cli_command_spec(platform, bin@, str_views(args@)),
{
    match platform {
        Platform::MacOs => {
            let line = quoted_command_line(bin, args);
            let mut v: Vec<String> = Vec::new();
            v.push("-c".to_owned());
            v.push(line);
            assert(string_views(v@) =~= seq!["-c"@, quoted_line(seq![bin@] + str_views(args@))]);
            CommandSpec { program: "/bin/sh".to_owned(), args: v, hide_window: false }
        },
        Platform::Windows => command(bin, args, true),
        Platform::Linux => command(bin, args, false),
    }
}

/// The command that looks a bare tool name up in `PATH`: `where` on Windows (without a
/// console window), `which` elsewhere.
pub fn path_lookup_command(platform: Platform, name: &str) -> (c: CommandSpec)
    ensures
        c@.program == (if platform == Platform::Windows { "where"@ } else { "which"@ }),
        c@.args == seq![name@],
        c@.hide_window == (platform == Platform::Windows),
{
    let mut v: Vec<String> = Vec::new();
    v.push(name.to_owned());
    assert(string_views(v@) =~= seq![name@]);
    match platform {
        Platform::Windows => CommandSpec { program: "where".to_owned(), args: v, hide_window: true },
        _ => CommandSpec { program: "which".to_owned(), args: v, hide_window: false },
    }
}

/// What a `PATH` lookup found: whether the tool is there, and the path the lookup printed
/// (its standard output, trimmed; empty where the lookup could not run).
pub fn check_bin_in_path(outcome: &RunOutcome) -> (r: (bool, String))
    ensures
        match outcome {
            RunOutcome::Failed(_) => !r.0 && r.1@ == Seq::<char>::empty(),
            RunOutcome::Exited(e) => r.0 == e.success && r.1@ == trim_seq(e.stdout@),
        },
{
    match outcome {
        RunOutcome::Failed(_) => (false, String::new()),
        RunOutcome::Exited(e) => (e.success, trim(e.stdout.as_str())),
    }
}

/// The command that asks whether process `pid` runs: `tasklist /FI "PID eq <pid>" /NH` on
/// Windows (without a console window), `ps -p <pid>` elsewhere.
pub fn process_alive_command(platform: Platform, pid: u32) -> (c: CommandSpec)
    ensures
        platform == Platform::Windows ==> c@.program == "tasklist"@ && c@.args == seq![
            "/FI"@,
            "PID eq "@ + decimal_seq(pid as nat),
            "/NH"@,
        ] && c@.hide_window,
        platform != Platform::Windows ==> c@.program == "ps"@ && c@.args == seq![
            "-p"@,
            decimal_seq(pid as nat),
        ] && !c@.hide_window,
{
    let digits = u64_to_string(pid as u64);
    let mut v: Vec<String> = Vec::new();
    match platform {
        Platform::Windows => {
            v.push("/FI".to_owned());
            v.push(concat2("PID eq ", digits.as_str()));
            v.push("/NH".to_owned());
            assert(string_views(v@) =~= seq![
                "/FI"@,
                "PID eq "@ + decimal_seq(pid as nat),
                "/NH"@,
            ]);
            CommandSpec { program: "tasklist".to_owned(), args: v, hide_window: true }
        },
        _ => {
            v.push("-p".to_owned());
            v.push(digits);
            assert(string_views(v@) =~= seq!["-p"@, decimal_seq(pid as nat)]);
            CommandSpec { program: "ps".to_owned(), args: v, hide_window: false }
        },
    }
}

/// Whether process `pid` runs, from the outcome of `process_alive_command`: on Windows the
/// listing must succeed and mention the pid, elsewhere `ps` must succeed.
pub fn is_process_alive(platform: Platform, pid: u32, outcome: &RunOutcome) -> (r: bool)
    ensures
        r == match outcome {
            RunOutcome::Failed(_) => false,
            RunOutcome::Exited(e) => if platform == Platform::Windows {
                e.success && contains_seq(e.stdout@, decimal_seq(pid as nat))
            } else {
                e.success
            },
        },
{
    match outcome {
        RunOutcome::Failed(_) => false,
        RunOutcome::Exited(e) => {
            match platform {
                Platform::Windows => {
                    let digits = u64_to_string(pid as u64);
                    e.success && contains_str(e.stdout.as_str(), digits.as_str())
                },
                _ => e.success,
            }
        },
    }
}

} // verus!
