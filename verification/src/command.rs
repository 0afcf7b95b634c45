use vstd::prelude::*;

use crate::text::{concat3, contains_seq, contains_str, str_views, string_views};

verus! {

/// A program to run and its arguments.
pub struct CommandSpec {
    pub program: String,
    pub args: Vec<String>,
    /// On Windows: start the program without a console window (`CREATE_NO_WINDOW`).
    pub hide_window: bool,
}

/// The content of a `CommandSpec`.
pub struct CommandView {
    pub program: Seq<char>,
    pub args: Seq<Seq<char>>,
    pub hide_window: bool,
}

impl View for CommandSpec {
    type V = CommandView;

    open spec fn view(&self) -> CommandView {
        CommandView { program: self.program@, args: string_views(self.args@), hide_window: self.hide_window }
    }
}

/// What a program's run gave.
pub struct ExitInfo {
    /// The program exited with status 0.
    pub success: bool,
    /// Its exit code, where it exited with one.
    pub code: Option<i32>,
    /// Its standard output, decoded as UTF-8 with invalid sequences replaced.
    pub stdout: String,
    /// Its standard error, decoded the same way.
    pub stderr: String,
}

/// The outcome of running a program.
pub enum RunOutcome {
    /// The program could not be started; the message of the error.
    Failed(String),
    /// The program ran to its end.
    Exited(ExitInfo),
}

/// `true` where the program ran and exited with status 0.
pub open spec fn succeeded(o: RunOutcome) -> bool {
    o matches RunOutcome::Exited(e) && e.success
}

/// Copies of the given strings.
pub fn strings_of(items: &[&str]) -> (v: Vec<String>)
    ensures
        string_views(v@) == str_views(items@),
{
    let mut v: Vec<String> = Vec::new();
    let mut i: usize = 0;
    while i < items.len()
        invariant
            i <= items@.len(),
            v@.len() == i,
            forall|k: int| 0 <= k < i ==> (#[trigger] v@[k])@ == items@[k]@,
        decreases items@.len() - i,
    {
        let item = items[i].to_owned();
        v.push(item);
        i = i + 1;
    }
    assert(string_views(v@) =~= str_views(items@));
    v
}

/// A command from a program and its arguments.
pub fn command(program: &str, args: &[&str], hide_window: bool) -> (c: CommandSpec)
    ensures
        c@.program == program@,
        c@.args == str_views(args@),
        c@.hide_window == hide_window,
{
    CommandSpec { program: program.to_owned(), args: strings_of(args), hide_window }
}


/// An AppleScript that runs the shell command `cmd` with administrator rights, asking the
/// user for their password where needed.
pub open spec fn admin_script_spec(cmd: Seq<char>) -> Seq<char> {
    "do shell script \""@ + cmd + "\" with administrator privileges"@
}

/// The AppleScript that runs `cmd` with administrator rights.
pub fn admin_script(cmd: &str) -> (r: String)
    ensures
        r@ == admin_script_spec(cmd@),
{
    concat3("do shell script \"", cmd, "\" with administrator privileges")
}

/// `osascript -e <script>`.
pub fn osascript_command(script: String) -> (c: CommandSpec)
    ensures
        c@.program == "osascript"@,
        c@.args == seq!["-e"@, script@],
        !c@.hide_window,
{
    let mut v: Vec<String> = Vec::new();
    v.push("-e".to_owned());
    v.push(script);
    assert(string_views(v@) =~= seq!["-e"@, v@[1]@]);
    CommandSpec { program: "osascript".to_owned(), args: v, hide_window: false }
}

/// The error output of `osascript` says that the user dismissed the password dialog.
pub open spec fn prompt_cancelled_spec(stderr: Seq<char>) -> bool {
    contains_seq(stderr, "User canceled"@) || contains_seq(stderr, "-128"@)
}

/// Whether the user dismissed the password dialog, from `osascript`'s error output.
pub fn prompt_cancelled(stderr: &str) -> (r: bool)
    ensures
        r == prompt_cancelled_spec(stderr@),
{
    contains_str(stderr, "User canceled") || contains_str(stderr, "-128")
}

} // verus!
