use vstd::prelude::*;

use crate::command::{
    admin_script, admin_script_spec, command, osascript_command, prompt_cancelled,
    prompt_cancelled_spec, CommandSpec, RunOutcome,
};
use crate::platform::Platform;
use crate::text::{
    concat2, concat3, decimal_seq, join, join_seq, owned, push_str, replace_char, replace_seq,
    str_eq, str_views, string_or, string_views, u64_to_string,
};

verus! {

/// An exchange or mesh session of `ktctl`.
#[derive(Clone, Debug)]
pub struct SessionInfo {
    pub id: String,
    pub service: String,
    pub port: u16,
    /// `"exchange"` or `"mesh"`.
    pub mode: String,
    pub started_at: String,
    pub version_header: Option<String>,
    /// `"starting"`, `"running"`, `"stopped"` or `"error"`.
    pub status: String,
}

/// One line that a session's process printed.
#[derive(Clone, Debug)]
pub struct SessionLogLine {
    pub session_id: String,
    /// `"stdout"` or `"stderr"`.
    pub stream: String,
    pub line: String,
    pub timestamp: String,
}

/// A line of a session's output as it is published: without its trailing white space where
/// `strip_end` (lines read from a log file keep their line break), else as read.
pub fn session_log_line(session_id: &str, stream: &str, line: &str, strip_end: bool, timestamp: String) -> (r: SessionLogLine)
    ensures
        r.session_id@ == session_id@,
        r.stream@ == stream@,
        r.line@ == (if strip_end { crate::text::trim_end_seq(line@) } else { line@ }),
        r.timestamp == timestamp,
{
    SessionLogLine {
        session_id: owned(session_id),
        stream: owned(stream),
        line: if strip_end { crate::text::trim_end(line) } else { owned(line) },
        timestamp,
    }
}

/// A copy of an optional string.
pub fn copy_opt(o: &Option<String>) -> (r: Option<String>)
    ensures
        r == *o,
{
    match o {
        Some(s) => Some(s.clone()),
        None => None,
    }
}

impl SessionInfo {
    /// A copy of the session's description.
    pub fn duplicate(&self) -> (r: SessionInfo)
        ensures
            r == *self,
    {
        SessionInfo {
            id: self.id.clone(),
            service: self.service.clone(),
            port: self.port,
            mode: self.mode.clone(),
            started_at: self.started_at.clone(),
            version_header: copy_opt(&self.version_header),
            status: self.status.clone(),
        }
    }
}

/// A session as the manager keeps it: its description and what stops its process, a child
/// process handle (of type `C`) or the id of a process started with administrator rights.
pub struct ManagedSession<C> {
    pub info: SessionInfo,
    pub child: Option<C>,
    pub pid: Option<u32>,
}

/// The sessions that run.
pub struct SessionManager<C> {
    sessions: Vec<ManagedSession<C>>,
}

/// The position of the session with id `id` in `s`, where there is one.
pub open spec fn position_of<C>(s: Seq<ManagedSession<C>>, id: Seq<char>) -> Option<int> {
    if exists|i: int| 0 <= i < s.len() && (#[trigger] s[i]).info.id@ == id {
        Some(choose|i: int| 0 <= i < s.len() && (#[trigger] s[i]).info.id@ == id)
    } else {
        None
    }
}

/// No two sessions share an id.
pub open spec fn ids_distinct<C>(s: Seq<ManagedSession<C>>) -> bool {
    forall|i: int, j: int|
        0 <= i < s.len() && 0 <= j < s.len() && i != j ==> (#[trigger] s[i]).info.id@ != (
        #[trigger] s[j]).info.id@
}

/// The sessions by id.
pub open spec fn session_map<C>(s: Seq<ManagedSession<C>>) -> Map<Seq<char>, ManagedSession<C>> {
    Map::new(
        |id: Seq<char>| position_of(s, id) is Some,
        |id: Seq<char>| s[position_of(s, id)->0],
    )
}

/// With distinct ids, the session with a given id is found at its one position.
pub proof fn lemma_position_unique<C>(s: Seq<ManagedSession<C>>, i: int)
    requires
        ids_distinct(s),
        0 <= i < s.len(),
    ensures
        position_of(s, s[i].info.id@) == Some(i),
{
    let id = s[i].info.id@;
    assert(s[i].info.id@ == id);
    let j = choose|j: int| 0 <= j < s.len() && (#[trigger] s[j]).info.id@ == id;
    if j != i {
        assert(s[j].info.id@ != s[i].info.id@);
    }
}

proof fn lemma_map_push<C>(s: Seq<ManagedSession<C>>, m: ManagedSession<C>)
    requires
        ids_distinct(s),
        position_of(s, m.info.id@) is None,
    ensures
        ids_distinct(s.push(m)),
        session_map(s.push(m)) =~= session_map(s).insert(m.info.id@, m),
{
    let t = s.push(m);
    assert forall|a: int, b: int|
        0 <= a < t.len() && 0 <= b < t.len() && a != b implies (#[trigger] t[a]).info.id@ != (
        #[trigger] t[b]).info.id@ by {
        if a < s.len() && b < s.len() {
            assert(t[a] == s[a] && t[b] == s[b]);
        } else if a < s.len() {
            assert(t[a] == s[a]);
        } else {
            assert(t[b] == s[b]);
        }
    }
    lemma_position_unique(t, s.len() as int);
    assert forall|id: Seq<char>| #[trigger] session_map(t).contains_key(id) <==> session_map(s).insert(m.info.id@, m).contains_key(id) by {
        if id != m.info.id@ {
            if position_of(s, id) is Some {
                let k = position_of(s, id)->0;
                assert(t[k] == s[k]);
            }
            if position_of(t, id) is Some {
                let k = position_of(t, id)->0;
                assert(k < s.len());
                assert(s[k] == t[k]);
            }
        }
    }
    assert forall|id: Seq<char>| #[trigger] session_map(t).contains_key(id) implies session_map(t)[id] == session_map(s).insert(m.info.id@, m)[id] by {
        if id != m.info.id@ {
            let k = position_of(t, id)->0;
            assert(k < s.len());
            lemma_position_unique(t, k);
            lemma_position_unique(s, k);
        }
    }
}

proof fn lemma_map_update<C>(s: Seq<ManagedSession<C>>, i: int, m: ManagedSession<C>)
    requires
        ids_distinct(s),
        0 <= i < s.len(),
        s[i].info.id@ == m.info.id@,
    ensures
        ids_distinct(s.update(i, m)),
        session_map(s.update(i, m)) =~= session_map(s).insert(m.info.id@, m),
{
    let t = s.update(i, m);
    assert forall|a: int, b: int|
        0 <= a < t.len() && 0 <= b < t.len() && a != b implies (#[trigger] t[a]).info.id@ != (
        #[trigger] t[b]).info.id@ by {
        assert(t[a].info.id@ == s[a].info.id@);
        assert(t[b].info.id@ == s[b].info.id@);
    }
    lemma_position_unique(t, i);
    assert forall|id: Seq<char>| #[trigger] session_map(t).contains_key(id) <==> session_map(s).insert(m.info.id@, m).contains_key(id) by {
        if position_of(s, id) is Some {
            let k = position_of(s, id)->0;
            assert(t[k].info.id@ == s[k].info.id@);
        }
        if position_of(t, id) is Some {
            let k = position_of(t, id)->0;
            assert(s[k].info.id@ == t[k].info.id@);
        }
    }
    assert forall|id: Seq<char>| #[trigger] session_map(t).contains_key(id) implies session_map(t)[id] == session_map(s).insert(m.info.id@, m)[id] by {
        if id != m.info.id@ {
            let k = position_of(t, id)->0;
            lemma_position_unique(t, k);
            assert(s[k].info.id@ == t[k].info.id@);
            lemma_position_unique(s, k);
        }
    }
}

proof fn lemma_map_remove<C>(s: Seq<ManagedSession<C>>, i: int)
    requires
        ids_distinct(s),
        0 <= i < s.len(),
    ensures
        ids_distinct(s.remove(i)),
        session_map(s.remove(i)) =~= session_map(s).remove(s[i].info.id@),
{
    let t = s.remove(i);
    let id0 = s[i].info.id@;
    assert forall|a: int, b: int|
        0 <= a < t.len() && 0 <= b < t.len() && a != b implies (#[trigger] t[a]).info.id@ != (
        #[trigger] t[b]).info.id@ by {
        let a2 = if a < i { a } else { a + 1 };
        let b2 = if b < i { b } else { b + 1 };
        assert(t[a] == s[a2]);
        assert(t[b] == s[b2]);
    }
    assert forall|id: Seq<char>| #[trigger] session_map(t).contains_key(id) <==> session_map(s).remove(id0).contains_key(id) by {
        if position_of(s, id) is Some && id != id0 {
            let k = position_of(s, id)->0;
            let k2 = if k < i { k } else { k - 1 };
            assert(k != i);
            assert(t[k2] == s[k]);
        }
        if position_of(t, id) is Some {
            let k = position_of(t, id)->0;
            let k2 = if k < i { k } else { k + 1 };
            assert(s[k2] == t[k]);
            assert(k2 != i);
            assert(s[k2].info.id@ != s[i].info.id@);
        }
    }
    assert forall|id: Seq<char>| #[trigger] session_map(t).contains_key(id) implies session_map(t)[id] == session_map(s).remove(id0)[id] by {
        let k = position_of(t, id)->0;
        let k2 = if k < i { k } else { k + 1 };
        assert(s[k2] == t[k]);
        lemma_position_unique(t, k);
        assert(k2 != i);
        assert(s[k2].info.id@ != s[i].info.id@);
        lemma_position_unique(s, k2);
    }
}

impl<C> View for SessionManager<C> {
    type V = Seq<ManagedSession<C>>;

    closed spec fn view(&self) -> Seq<ManagedSession<C>> {
        self.sessions@
    }
}

impl<C> SessionManager<C> {
    /// The manager's invariant: session ids are distinct.
    pub open spec fn wf(&self) -> bool {
        ids_distinct(self@)
    }

    /// The sessions by id.
    pub open spec fn sessions_by_id(&self) -> Map<Seq<char>, ManagedSession<C>> {
        session_map(self@)
    }

    /// A manager without sessions.
    pub fn new() -> (m: Self)
        ensures
            m.wf(),
            m@ == Seq::<ManagedSession<C>>::empty(),
    {
        SessionManager { sessions: Vec::new() }
    }

    /// The position of session `id`.
    fn find(&self, id: &str) -> (r: Option<usize>)
        requires
            self.wf(),
        ensures
            match r {
                Some(i) => i < self@.len() && self@[i as int].info.id@ == id@ && position_of(
                    self@,
                    id@,
                ) == Some(i as int),
                None => position_of(self@, id@) is None,
            },
    {
        let mut i: usize = 0;
        while i < self.sessions.len()
            invariant
                i <= self.sessions@.len(),
                ids_distinct(self.sessions@),
                forall|k: int| 0 <= k < i ==> (#[trigger] self.sessions@[k]).info.id@ != id@,
            decreases self.sessions@.len() - i,
        {
            if str_eq(self.sessions[i].info.id.as_str(), id) {
                proof {
                    let j = choose|j: int|
                        0 <= j < self@.len() && (#[trigger] self@[j]).info.id@ == id@;
                    assert(self@[i as int].info.id@ == id@);
                    if j != i {
                        assert(self@[j].info.id@ != self@[i as int].info.id@);
                    }
                }
                return Some(i);
            }
            i = i + 1;
        }
        None
    }

    /// Descriptions of all sessions, in the order they were registered.
    pub fn list(&self) -> (r: Vec<SessionInfo>)
        ensures
            r@.len() == self@.len(),
            forall|i: int| 0 <= i < r@.len() ==> #[trigger] r@[i] == self@[i].info,
    {
        let mut r: Vec<SessionInfo> = Vec::new();
        let mut i: usize = 0;
        while i < self.sessions.len()
            invariant
                i <= self.sessions@.len(),
                r@.len() == i,
                forall|k: int| 0 <= k < i ==> #[trigger] r@[k] == self.sessions@[k].info,
            decreases self.sessions@.len() - i,
        {
            r.push(self.sessions[i].info.duplicate());
            i = i + 1;
        }
        r
    }

    /// Sets the status of session `id`; nothing where there is none.
    pub fn update_status(&mut self, id: &str, status: &str)
        requires
            old(self).wf(),
        ensures
            final(self).wf(),
            match position_of(old(self)@, id@) {
                Some(i) => final(self)@ == old(self)@.update(
                    i,
                    ManagedSession {
                        info: SessionInfo { status: final(self)@[i].info.status, ..old(self)@[i].info },
                        ..old(self)@[i]
                    },
                ) && final(self)@[i].info.status@ == status@,
                None => final(self)@ == old(self)@,
            },
    {
        match self.find(id) {
            Some(i) => {
                let ghost before = self.sessions@;
                let mut entry = self.sessions.remove(i);
                entry.info.status = owned(status);
                self.sessions.insert(i, entry);
                proof {
                    assert forall|a: int, b: int|
                        0 <= a < self.sessions@.len() && 0 <= b < self.sessions@.len() && a != b
                            implies (#[trigger] self.sessions@[a]).info.id@ != (
                        #[trigger] self.sessions@[b]).info.id@ by {
                        assert(self.sessions@[a].info.id@ == before[a].info.id@);
                        assert(self.sessions@[b].info.id@ == before[b].info.id@);
                    }
                    assert(self.sessions@ =~= before.update(
                        i as int,
                        ManagedSession {
                            info: SessionInfo { status: self.sessions@[i as int].info.status, ..before[i as int].info },
                            ..before[i as int]
                        },
                    ));
                }
            },
            None => {},
        }
    }
}

/// A session just registered is found under its id: taking that id out again hands the
/// session back, and leaves the manager as it was before, less any earlier session with that
/// id. (`inserted` is what `insert(s)` makes of `before`; `removed` and `taken` are what
/// `remove` then makes and gives.)
pub proof fn law_remove_after_insert<C>(
    before: SessionManager<C>,
    inserted: SessionManager<C>,
    removed: SessionManager<C>,
    s: ManagedSession<C>,
    taken: Option<ManagedSession<C>>,
)
    requires
        inserted.sessions_by_id() == before.sessions_by_id().insert(s.info.id@, s),
        removed.sessions_by_id() == inserted.sessions_by_id().remove(s.info.id@),
        taken == (if inserted.sessions_by_id().contains_key(s.info.id@) {
            Some(inserted.sessions_by_id()[s.info.id@])
        } else {
            None
        }),
    ensures
        taken == Some(s),
        removed.sessions_by_id() == before.sessions_by_id().remove(s.info.id@),
{
    assert(before.sessions_by_id().insert(s.info.id@, s).remove(s.info.id@) =~= before.sessions_by_id().remove(
        s.info.id@,
    ));
}

/// Once a session has been taken out, taking it out again finds nothing and changes
/// nothing. (`once` is what `remove(id)` makes of `before`; `twice` and `second` are what a
/// second `remove(id)` makes and gives.)
pub proof fn law_remove_twice<C>(
    before: SessionManager<C>,
    once: SessionManager<C>,
    twice: SessionManager<C>,
    id: Seq<char>,
    second: Option<ManagedSession<C>>,
)
    requires
        once.sessions_by_id() == before.sessions_by_id().remove(id),
        twice.sessions_by_id() == once.sessions_by_id().remove(id),
        second == (if once.sessions_by_id().contains_key(id) {
            Some(once.sessions_by_id()[id])
        } else {
            None
        }),
    ensures
        second is None,
        twice.sessions_by_id() == once.sessions_by_id(),
{
    assert(before.sessions_by_id().remove(id).remove(id) =~= before.sessions_by_id().remove(id));
}

/// Registering a session leaves every session with another id as it was. (`after` is what
/// `insert(s)` makes of `before`.)
pub proof fn law_insert_keeps_others<C>(
    before: SessionManager<C>,
    after: SessionManager<C>,
    s: ManagedSession<C>,
    other: Seq<char>,
)
    requires
        after.sessions_by_id() == before.sessions_by_id().insert(s.info.id@, s),
        other != s.info.id@,
    ensures
        after.sessions_by_id().contains_key(other) == before.sessions_by_id().contains_key(other),
        before.sessions_by_id().contains_key(other) ==> after.sessions_by_id()[other]
            == before.sessions_by_id()[other],
{
}

/// Once every session has been stopped, no session is found. (`after` is what `kill_all`
/// leaves.)
pub proof fn law_nothing_after_kill_all<C>(after: SessionManager<C>, id: Seq<char>)
    requires
        after@ == Seq::<ManagedSession<C>>::empty(),
    ensures
        !after.sessions_by_id().contains_key(id),
{
}

impl<C> SessionManager<C> {
    /// Registers a session, replacing one with the same id (which is handed back).
    pub fn insert(&mut self, session: ManagedSession<C>) -> (replaced: Option<ManagedSession<C>>)
        requires
            old(self).wf(),
        ensures
            final(self).wf(),
            final(self).sessions_by_id() == old(self).sessions_by_id().insert(session.info.id@, session),
            match position_of(old(self)@, session.info.id@) {
                Some(i) => replaced == Some(old(self)@[i]) && final(self)@ == old(self)@.update(i, session),
                None => replaced is None && final(self)@ == old(self)@.push(session),
            },
    {
        let ghost before = self.sessions@;
        match self.find(session.info.id.as_str()) {
            Some(i) => {
                let old_entry = self.sessions.remove(i);
                self.sessions.insert(i, session);
                proof {
                    assert(self.sessions@ =~= before.update(i as int, session));
                    lemma_map_update(before, i as int, session);
                }
                Some(old_entry)
            },
            None => {
                self.sessions.push(session);
                proof {
                    lemma_map_push(before, session);
                }
                None
            },
        }
    }

    /// Takes session `id` out of the manager and hands it back, so that its process can be
    /// stopped; `None` where there is no such session.
    pub fn remove(&mut self, id: &str) -> (r: Option<ManagedSession<C>>)
        requires
            old(self).wf(),
        ensures
            final(self).wf(),
            final(self).sessions_by_id() == old(self).sessions_by_id().remove(id@),
            r == (if old(self).sessions_by_id().contains_key(id@) {
                Some(old(self).sessions_by_id()[id@])
            } else {
                None
            }),
            match position_of(old(self)@, id@) {
                Some(i) => final(self)@ == old(self)@.remove(i),
                None => final(self)@ == old(self)@,
            },
    {
        let ghost before = self.sessions@;
        match self.find(id) {
            Some(i) => {
                let entry = self.sessions.remove(i);
                proof {
                    lemma_map_remove(before, i as int);
                }
                Some(entry)
            },
            None => {
                assert(session_map(before).remove(id@) =~= session_map(before));
                None
            },
        }
    }

    /// Takes every session out of the manager, each marked `"stopped"`, in the order they
    /// were registered, so that their processes can be stopped.
    pub fn kill_all(&mut self) -> (r: Vec<ManagedSession<C>>)
        requires
            old(self).wf(),
        ensures
            final(self).wf(),
            final(self)@ == Seq::<ManagedSession<C>>::empty(),
            r@.len() == old(self)@.len(),
            forall|i: int|
                0 <= i < r@.len() ==> (#[trigger] r@[i]).info.status@ == "stopped"@ && r@[i]
                    == (ManagedSession {
                    info: SessionInfo { status: r@[i].info.status, ..old(self)@[i].info },
                    ..old(self)@[i]
                }),
    {
        let ghost before = self.sessions@;
        let mut taken: Vec<ManagedSession<C>> = Vec::new();
        std::mem::swap(&mut taken, &mut self.sessions);
        let mut out: Vec<ManagedSession<C>> = Vec::new();
        while taken.len() > 0
            invariant
                out@.len() + taken@.len() == before.len(),
                taken@ == before.skip(out@.len() as int),
                forall|k: int|
                    0 <= k < out@.len() ==> (#[trigger] out@[k]).info.status@ == "stopped"@
                        && out@[k] == (ManagedSession {
                        info: SessionInfo { status: out@[k].info.status, ..before[k].info },
                        ..before[k]
                    }),
            decreases taken@.len(),
        {
            let mut entry = taken.remove(0);
            entry.info.status = owned("stopped");
            proof {
                assert(taken@ =~= before.skip(out@.len() + 1int));
            }
            out.push(entry);
        }
        out
    }
}

/// The command that stops process `pid` on the platform (see `kill_root_process`).
pub open spec fn is_kill_command(c: CommandSpec, platform: Platform, pid: u32) -> bool {
    &&& platform == Platform::MacOs ==> c@.program == "osascript"@ && c@.args == seq![
        "-e"@,
        admin_script_spec("kill "@ + decimal_seq(pid as nat)),
    ] && !c@.hide_window
    &&& platform == Platform::Windows ==> c@.program == "taskkill"@ && c@.args == seq![
        "/PID"@,
        decimal_seq(pid as nat),
        "/T"@,
        "/F"@,
    ] && c@.hide_window
    &&& platform == Platform::Linux ==> c@.program == "kill"@ && c@.args == seq![decimal_seq(pid as nat)]
        && !c@.hide_window
}

/// The command that stops a session's process: on macOS `kill <pid>` through `osascript`
/// with administrator rights, on Windows `taskkill /PID <pid> /T /F` (the process and its
/// children, forcibly, without a console window), elsewhere `kill <pid>`.
pub fn kill_root_process(platform: Platform, pid: u32) -> (c: CommandSpec)
    ensures
        is_kill_command(c, platform, pid),
{
    let digits = u64_to_string(pid as u64);
    match platform {
        Platform::MacOs => osascript_command(admin_script(concat2("kill ", digits.as_str()).as_str())),
        Platform::Windows => {
            let mut v: Vec<String> = Vec::new();
            v.push(owned("/PID"));
            v.push(digits);
            v.push(owned("/T"));
            v.push(owned("/F"));
            assert(string_views(v@) =~= seq!["/PID"@, decimal_seq(pid as nat), "/T"@, "/F"@]);
            CommandSpec { program: owned("taskkill"), args: v, hide_window: true }
        },
        Platform::Linux => {
            let mut v: Vec<String> = Vec::new();
            v.push(digits);
            assert(string_views(v@) =~= seq![decimal_seq(pid as nat)]);
            CommandSpec { program: owned("kill"), args: v, hide_window: false }
        },
    }
}

/// Copies of `prefix` followed by the words of `rest`.
fn prepend(prefix: &str, rest: &[&str]) -> (v: Vec<String>)
    ensures
        string_views(v@) == seq![prefix@] + str_views(rest@),
{
    let mut v: Vec<String> = Vec::new();
    v.push(owned(prefix));
    let mut i: usize = 0;
    while i < rest.len()
        invariant
            i <= rest@.len(),
            v@.len() == i + 1,
            v@[0]@ == prefix@,
            forall|j: int| 1 <= j <= i ==> (#[trigger] v@[j])@ == rest@[j - 1]@,
        decreases rest@.len() - i,
    {
        v.push(owned(rest[i]));
        i = i + 1;
    }
    assert(string_views(v@) =~= seq![prefix@] + str_views(rest@));
    v
}

/// The command that runs `ktctl` with rights to change the network: on macOS the command
/// line (`"` escaped) through `osascript` with administrator rights, on Windows `ktctl`
/// directly, elsewhere through `sudo`.
pub fn build_ktctl_command(platform: Platform, ktctl_bin: &str, args: &[&str]) -> (c: CommandSpec)
    ensures
        platform == Platform::MacOs ==> c@.program == "osascript"@ && c@.args == seq![
            "-e"@,
            admin_script_spec(
                replace_seq(join_seq(seq![ktctl_bin@] + str_views(args@), " "@), '"', "\\\""@),
            ),
        ],
        platform == Platform::Windows ==> c@.program == ktctl_bin@ && c@.args == str_views(args@),
        platform == Platform::Linux ==> c@.program == "sudo"@ && c@.args == seq![ktctl_bin@]
            + str_views(args@),
        !c@.hide_window,
{
    match platform {
        Platform::MacOs => {
            let words = prepend(ktctl_bin, args);
            let line = join(&words, " ");
            let escaped = replace_char(line.as_str(), '"', "\\\"");
            osascript_command(admin_script(escaped.as_str()))
        },
        Platform::Windows => command(ktctl_bin, args, false),
        Platform::Linux => CommandSpec {
            program: owned("sudo"),
            args: prepend(ktctl_bin, args),
            hide_window: false,
        },
    }
}

/// The namespace to work in: the one given, else the development namespace.
pub open spec fn namespace_or_default(namespace: Option<String>) -> Seq<char> {
    match namespace {
        Some(ns) => ns@,
        None => "oneberry-dev"@,
    }
}

/// `s` with `'` written as `'\''`, to stand inside a single-quoted shell word.
pub open spec fn sh_escape(s: Seq<char>) -> Seq<char> {
    replace_seq(s, '\'', "'\\''"@)
}

/// The shell command line that clears what an interrupted session of `service` left behind.
pub open spec fn recover_line_spec(bin: Seq<char>, service: Seq<char>, ns: Seq<char>) -> Seq<char> {
    sh_escape(bin) + " recover "@ + sh_escape(service) + " -n "@ + sh_escape(ns)
}

/// The command that clears what an interrupted session of `service` left behind in the
/// cluster (`ktctl recover <service> -n <namespace>`, the namespace defaulting to the
/// development one): on macOS through `osascript` with administrator rights (the command line
/// escaped for the shell, then `\` and `"` escaped for AppleScript), elsewhere through `sudo`.
pub fn recover_service_command(
    platform: Platform,
    ktctl_bin: &str,
    service: &str,
    namespace: Option<String>,
) -> (c: CommandSpec)
    ensures
        platform == Platform::MacOs ==> c@.program == "osascript"@ && c@.args == seq![
            "-e"@,
            admin_script_spec(
                replace_seq(
                    replace_seq(
                        recover_line_spec(ktctl_bin@, service@, namespace_or_default(namespace)),
                        '\\',
                        "\\\\"@,
                    ),
                    '"',
                    "\\\""@,
                ),
            ),
        ],
        platform != Platform::MacOs ==> c@.program == "sudo"@ && c@.args == seq![
            ktctl_bin@,
            "recover"@,
            service@,
            "-n"@,
            namespace_or_default(namespace),
        ],
        !c@.hide_window,
{
    let ns = string_or(namespace, "oneberry-dev");
    match platform {
        Platform::MacOs => {
            let mut line = replace_char(ktctl_bin, '\'', "'\\''");
            push_str(&mut line, " recover ");
            push_str(&mut line, replace_char(service, '\'', "'\\''").as_str());
            push_str(&mut line, " -n ");
            push_str(&mut line, replace_char(ns.as_str(), '\'', "'\\''").as_str());
            let step = replace_char(line.as_str(), '\\', "\\\\");
            let escaped = replace_char(step.as_str(), '"', "\\\"");
            osascript_command(admin_script(escaped.as_str()))
        },
        _ => command("sudo", &[ktctl_bin, "recover", service, "-n", ns.as_str()], false),
    }
}

/// The reply to a request to clean up after `service`, from the run of
/// `recover_service_command`: an error where the command could not start, or (on macOS) where
/// the user dismissed the password dialog; otherwise done, even where `ktctl` failed (there
/// may have been nothing to clean up).
pub fn recover_service_reply(platform: Platform, service: &str, outcome: &RunOutcome) -> (r: Result<
    String,
    String,
>)
    ensures
        match outcome {
            RunOutcome::Failed(e) => (r matches Err(m) && m@ == "清理失败: "@ + e@),
            RunOutcome::Exited(x) => if platform == Platform::MacOs && !x.success
                && prompt_cancelled_spec(x.stderr@) {
                (r matches Err(m) && m@ == "用户取消了授权"@)
            } else {
                (r matches Ok(m) && m@ == "服务 "@ + service@ + " 的残留会话已清理"@)
            },
        },
{
    match outcome {
        RunOutcome::Failed(e) => Err(concat2("清理失败: ", e.as_str())),
        RunOutcome::Exited(x) => {
            if platform == Platform::MacOs && !x.success && prompt_cancelled(x.stderr.as_str()) {
                Err(owned("用户取消了授权"))
            } else {
                Ok(concat3("服务 ", service, " 的残留会话已清理"))
            }
        },
    }
}

/// One step of stopping a session's process.
pub enum StopStep {
    /// Kill the child process (`Child::kill`).
    KillChild,
    /// Wait for the child process to end (`Child::wait`).
    WaitChild,
    /// Run this command to its end.
    Run(CommandSpec),
}

/// The steps that stop a session's process, for a session with a child process whose id is
/// `child_pid` (`None` where it has no child) and with the id `pid` of a process started
/// with administrator rights (`None` where there is none).
pub open spec fn stop_steps_spec(platform: Platform, child_pid: Option<u32>, pid: Option<u32>, steps: Seq<StopStep>) -> bool {
    let child_steps = match child_pid {
        None => 0int,
        Some(_) => 2int,
    };
    let root_steps = match pid {
        None => 0int,
        Some(_) => 1int,
    };
    &&& steps.len() == child_steps + root_steps
    &&& child_pid matches Some(cp) ==> if platform == Platform::Windows {
        (steps[0] matches StopStep::Run(c) && is_kill_command(c, platform, cp)) && steps[1] is WaitChild
    } else {
        steps[0] is KillChild && steps[1] is WaitChild
    }
    &&& pid matches Some(p) ==> (steps[child_steps] matches StopStep::Run(c) && is_kill_command(c, platform, p))
}

/// How a session's process is stopped: a child on Windows with `taskkill` (the process and
/// its children, forcibly), elsewhere with `Child::kill`, then waited for; a process started
/// with administrator rights with `kill_root_process`.
pub fn stop_steps(platform: Platform, child_pid: Option<u32>, pid: Option<u32>) -> (steps: Vec<StopStep>)
    ensures
        stop_steps_spec(platform, child_pid, pid, steps@),
{
    let mut steps: Vec<StopStep> = Vec::new();
    match child_pid {
        Some(cp) => {
            if platform == Platform::Windows {
                steps.push(StopStep::Run(kill_root_process(platform, cp)));
            } else {
                steps.push(StopStep::KillChild);
            }
            steps.push(StopStep::WaitChild);
        },
        None => {},
    }
    match pid {
        Some(p) => steps.push(StopStep::Run(kill_root_process(platform, p))),
        None => {},
    }
    steps
}

/// What stopping a session gives: the reply, and the session taken out of the manager (whose
/// process is then to be stopped).
pub struct StopOutcome<C> {
    pub reply: Result<String, String>,
    pub stopped: Option<ManagedSession<C>>,
}

/// Stops session `session_id`: takes it out of the manager and replies that it stopped, or
/// that there is no such session.
pub fn stop_session<C>(manager: &mut SessionManager<C>, session_id: &str) -> (r: StopOutcome<C>)
    requires
        old(manager).wf(),
    ensures
        final(manager).wf(),
        final(manager).sessions_by_id() == old(manager).sessions_by_id().remove(session_id@),
        if old(manager).sessions_by_id().contains_key(session_id@) {
            &&& r.stopped == Some(old(manager).sessions_by_id()[session_id@])
            &&& r.reply matches Ok(m) && m@ == "会话 "@ + session_id@ + " 已停止"@
        } else {
            &&& r.stopped is None
            &&& r.reply matches Err(m) && m@ == "会话 "@ + session_id@ + " 不存在"@
        },
{
    let removed = manager.remove(session_id);
    match removed {
        Some(s) => StopOutcome {
            reply: Ok(concat3("会话 ", session_id, " 已停止")),
            stopped: Some(s),
        },
        None => StopOutcome { reply: Err(concat3("会话 ", session_id, " 不存在")), stopped: None },
    }
}

} // verus!
