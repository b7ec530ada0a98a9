//! Tools that agents register while the daemon runs.
//!
//! A tool is registered only if the executable that its command begins with is
//! there. Whether it is has to be looked up outside this library: a `Probe`
//! tells where.

use crate::params::{count_of, flag_of, text_of, Members, Params};
use crate::protocol::{
    answers, internal, invalid_params, DaemonEvent, DaemonEventView, DaemonRequest, Outcome, Reply,
    RpcError, RpcErrorView,
};
use crate::records::{ToolEntry, ToolEntryView};
use crate::table::{distinct, known, lookup, place, put, put_then_lookup, Keyed, Record, Table};
use crate::text::{begins_with, characters, copy, joined, mentions, opt_text, same};
use crate::words::{first_word_or_all, head_word};
use vstd::prelude::*;
use vstd::string::*;

verus! {

/// A tool that a request asks for.
#[derive(Debug)]
pub struct ToolDraft {
    pub name: String,
    pub command: String,
    /// The directory that relative paths start from.
    pub context_dir: Option<String>,
    pub timeout_secs: u64,
    pub worktree: bool,
}

#[verifier::ext_equal]
pub struct ToolDraftView {
    pub name: Seq<char>,
    pub command: Seq<char>,
    pub context_dir: Option<Seq<char>>,
    pub timeout_secs: u64,
    pub worktree: bool,
}

impl View for ToolDraft {
    type V = ToolDraftView;

    open spec fn view(&self) -> ToolDraftView {
        ToolDraftView {
            name: self.name@,
            command: self.command@,
            context_dir: opt_text(self.context_dir),
            timeout_secs: self.timeout_secs,
            worktree: self.worktree,
        }
    }
}

/// The tool that parameters ask for, or why they ask for none.
pub open spec fn asked_tool(p: Members) -> Result<ToolDraftView, RpcErrorView> {
    match text_of(p, "name"@) {
        None => Err(internal("name is required"@)),
        Some(name) => if name.len() == 0 {
            Err(invalid_params("name must be non-empty"@))
        } else {
            match text_of(p, "command"@) {
                None => Err(internal("command is required"@)),
                Some(command) => if command.len() == 0 {
                    Err(invalid_params("command must be non-empty"@))
                } else {
                    Ok(
                        ToolDraftView {
                            name,
                            command,
                            context_dir: text_of(p, "context_dir"@),
                            timeout_secs: match count_of(p, "timeout_secs"@) {
                                Some(n) => n,
                                None => 300,
                            },
                            worktree: match flag_of(p, "worktree"@) {
                                Some(b) => b,
                                None => true,
                            },
                        },
                    )
                },
            }
        },
    }
}

/// Where to look for an executable.
#[derive(Debug)]
pub enum Probe {
    /// It is there if this path exists.
    Absolute(String),
    /// It is there if the path exists from the directory on.
    Relative { dir: String, path: String },
    /// It is a relative path from nowhere in particular and taken on faith.
    Unchecked,
    /// It is there if the shell succeeds with this script.
    Shell(String),
}

pub enum ProbeView {
    Absolute(Seq<char>),
    Relative { dir: Seq<char>, path: Seq<char> },
    Unchecked,
    Shell(Seq<char>),
}

impl View for Probe {
    type V = ProbeView;

    open spec fn view(&self) -> ProbeView {
        match *self {
            Probe::Absolute(path) => ProbeView::Absolute(path@),
            Probe::Relative { dir, path } => ProbeView::Relative { dir: dir@, path: path@ },
            Probe::Unchecked => ProbeView::Unchecked,
            Probe::Shell(script) => ProbeView::Shell(script@),
        }
    }
}

/// The text as it stands between single quotes in a shell script: each single
/// quote in it ends the quotation, stands escaped, and begins another.
pub open spec fn quotable(s: Seq<char>) -> Seq<char>
    decreases s.len(),
{
    if s.len() == 0 {
        Seq::empty()
    } else if s.last() == '\'' {
        quotable(s.drop_last()) + "'\\''"@
    } else {
        quotable(s.drop_last()).push(s.last())
    }
}

fn quoted(s: &str) -> (r: String)
    ensures
        r@ == quotable(s@),
{
    let v: Vec<char> = characters(s);
    let mut r: String = String::new();
    let mut i: usize = 0;
    assert(s@.take(0) =~= Seq::empty());
    while i < v.len()
        invariant
            v@ == s@,
            i <= v@.len(),
            r@ == quotable(s@.take(i as int)),
        decreases v@.len() - i,
    {
        proof {
            assert(s@.take(i + 1).drop_last() =~= s@.take(i as int));
            assert(s@.take(i + 1).last() == s@[i as int]);
        }
        if v[i] == '\'' {
            r.append("'\\''");
        } else {
            r.append(s.substring_char(i, i + 1));
            assert(s@.subrange(i as int, i + 1) =~= seq![s@[i as int]]);
            assert(r@ =~= quotable(s@.take(i as int)).push(s@[i as int]));
        }
        i = i + 1;
    }
    assert(s@.take(i as int) =~= s@);
    r
}

/// Where to look for the executable of a tool.
pub open spec fn probe_for(d: ToolDraftView) -> ProbeView {
    let executable = first_word_or_all(d.command);
    if "/"@.is_prefix_of(executable) {
        ProbeView::Absolute(executable)
    } else if executable.contains('/') {
        match d.context_dir {
            Some(dir) => ProbeView::Relative { dir, path: executable },
            None => ProbeView::Unchecked,
        }
    } else {
        ProbeView::Shell("command -v '"@ + quotable(executable) + "'"@)
    }
}

impl ToolDraft {
    /// Reads the tool that parameters ask for.
    pub fn read(p: &Params) -> (r: Result<ToolDraft, RpcError>)
        ensures
            match r {
                Ok(d) => asked_tool(p@) == Ok::<ToolDraftView, RpcErrorView>(d@),
                Err(e) => asked_tool(p@) == Err::<ToolDraftView, RpcErrorView>(e@),
            },
    {
        let name: String = match p.text("name") {
            Some(name) => name,
            None => {
                return Err(RpcError::internal("name is required"));
            },
        };
        if name.as_str().unicode_len() == 0 {
            return Err(RpcError::invalid_params("name must be non-empty"));
        }
        let command: String = match p.text("command") {
            Some(command) => command,
            None => {
                return Err(RpcError::internal("command is required"));
            },
        };
        if command.as_str().unicode_len() == 0 {
            return Err(RpcError::invalid_params("command must be non-empty"));
        }
        let timeout_secs: u64 = match p.count("timeout_secs") {
            Some(n) => n,
            None => 300,
        };
        let worktree: bool = match p.flag("worktree") {
            Some(b) => b,
            None => true,
        };
        Ok(ToolDraft { name, command, context_dir: p.text("context_dir"), timeout_secs, worktree })
    }

    /// Where to look for the executable of the tool.
    pub fn probe(&self) -> (r: Probe)
        ensures
            r@ == probe_for(self@),
    {
        let executable: String = head_word(self.command.as_str());
        if begins_with(executable.as_str(), "/") {
            Probe::Absolute(executable)
        } else if mentions(executable.as_str(), '/') {
            match &self.context_dir {
                Some(dir) => Probe::Relative { dir: copy(dir.as_str()), path: executable },
                None => Probe::Unchecked,
            }
        } else {
            let mut script: String = joined("command -v '", quoted(executable.as_str()).as_str());
            script.append("'");
            Probe::Shell(script)
        }
    }
}

/// A path as it is shown to people who debug.
pub uninterp spec fn debug_path(path: Seq<char>) -> Seq<char>;

/// The `Debug` form of `std::path::PathBuf` puts the path between quotes and
/// escapes some characters. Claimed of it is that the outcome hangs on the path
/// alone: it is called `debug_path`.
#[verifier::external_body]
fn show_path(path: &str) -> (r: String)
    ensures
        r@ == debug_path(path@),
{
    format!("{:?}", std::path::PathBuf::from(path))
}

/// What is known of an executable that is not there.
pub open spec fn absence(d: ToolDraftView) -> Seq<char> {
    let executable = first_word_or_all(d.command);
    if executable.contains('/') {
        "File '"@ + executable + "' does not exist"@ + (match d.context_dir {
            Some(dir) => " (resolved from "@ + debug_path(dir) + ")"@,
            None => Seq::empty(),
        }) + "."@
    } else {
        "Executable '"@ + executable + "' not found in PATH."@
    }
}

/// Why a tool without its executable is not registered.
pub open spec fn no_executable(d: ToolDraftView) -> RpcErrorView {
    invalid_params(
        absence(d) + " The command '"@ + d.command
            + "' cannot be registered because the base executable does not exist in this environment. Use your file search tools to discover what testing frameworks or tools are actually installed, then register the correct command."@,
    )
}

fn no_executable_error(d: &ToolDraft) -> (r: RpcError)
    ensures
        r@ == no_executable(d@),
{
    let executable: String = head_word(d.command.as_str());
    let mut message: String = String::new();
    if mentions(executable.as_str(), '/') {
        message.append("File '");
        message.append(executable.as_str());
        message.append("' does not exist");
        match &d.context_dir {
            Some(dir) => {
                message.append(" (resolved from ");
                message.append(show_path(dir.as_str()).as_str());
                message.append(")");
            },
            None => {},
        }
        message.append(".");
    } else {
        message.append("Executable '");
        message.append(executable.as_str());
        message.append("' not found in PATH.");
    }
    assert(message@ =~= absence(d@));
    message.append(" The command '");
    message.append(d.command.as_str());
    message.append(
        "' cannot be registered because the base executable does not exist in this environment. Use your file search tools to discover what testing frameworks or tools are actually installed, then register the correct command.",
    );
    RpcError::invalid_params(message.as_str())
}

/// The answer to a registration.
#[derive(Debug)]
pub struct ToolReport {
    pub name: String,
    pub command: String,
    pub timeout_secs: u64,
    pub worktree: bool,
    pub source: String,
}

#[verifier::ext_equal]
pub struct ToolReportView {
    pub name: Seq<char>,
    pub command: Seq<char>,
    pub timeout_secs: u64,
    pub worktree: bool,
    pub source: Seq<char>,
}

impl View for ToolReport {
    type V = ToolReportView;

    open spec fn view(&self) -> ToolReportView {
        ToolReportView {
            name: self.name@,
            command: self.command@,
            timeout_secs: self.timeout_secs,
            worktree: self.worktree,
            source: self.source@,
        }
    }
}

/// The tool that is registered.
pub open spec fn made_tool(d: ToolDraftView) -> ToolEntryView {
    ToolEntryView {
        name: d.name,
        command: d.command,
        timeout_secs: d.timeout_secs,
        worktree: d.worktree,
    }
}

/// Whether a tool can be registered, given whether the probe found its
/// executable.
pub open spec fn registrable(d: ToolDraftView, found: bool) -> bool {
    probe_for(d) is Unchecked || found
}

/// The tools after a registration request, its answer, and what clients are
/// told.
pub open spec fn tool_registration(
    tools: Seq<ToolEntryView>,
    p: Members,
    found: bool,
) -> (Seq<ToolEntryView>, Reply<ToolReportView>, Seq<DaemonEventView>) {
    match asked_tool(p) {
        Err(e) => (tools, Reply::Refused(e), Seq::empty()),
        Ok(d) => if !registrable(d, found) {
            (tools, Reply::Refused(no_executable(d)), Seq::empty())
        } else {
            (
                put(tools, made_tool(d)),
                Reply::Value(
                    ToolReportView {
                        name: d.name,
                        command: d.command,
                        timeout_secs: d.timeout_secs,
                        worktree: d.worktree,
                        source: "runtime"@,
                    },
                ),
                seq![DaemonEventView::RecordCreated { collection: "tool"@, id: d.name }],
            )
        },
    }
}

/// Answers a request that registers a tool, once the probe for its executable
/// has been made. A tool of the same name gives way.
pub fn handle_tools_register(tools: &mut Table<ToolEntry>, req: &DaemonRequest, found: bool) -> (r:
    Outcome<ToolReport>)
    ensures
        final(tools)@ == tool_registration(old(tools)@, req.params@, found).0,
        answers(
            r,
            req.id,
            tool_registration(old(tools)@, req.params@, found).1,
            tool_registration(old(tools)@, req.params@, found).2,
        ),
{
    let d: ToolDraft = match ToolDraft::read(&req.params) {
        Ok(d) => d,
        Err(e) => {
            return Outcome::refuse(req.id, e);
        },
    };
    let valid: bool = match d.probe() {
        Probe::Unchecked => true,
        _ => found,
    };
    if !valid {
        return Outcome::refuse(req.id, no_executable_error(&d));
    }
    let event: DaemonEvent = DaemonEvent::record_created("tool", d.name.as_str());
    tools.put(
        ToolEntry {
            name: copy(d.name.as_str()),
            command: copy(d.command.as_str()),
            timeout_secs: d.timeout_secs,
            worktree: d.worktree,
        },
    );
    Outcome::ok_and_tell(
        req.id,
        ToolReport {
            name: d.name,
            command: d.command,
            timeout_secs: d.timeout_secs,
            worktree: d.worktree,
            source: copy("runtime"),
        },
        event,
    )
}

/// The contents of a list of tools.
pub open spec fn tools_view(tools: Seq<ToolEntry>) -> Seq<ToolEntryView> {
    tools.map_values(|t: ToolEntry| t@)
}

/// The tools at hand: those of the configuration, then those of `runtime` whose
/// names are still free.
pub open spec fn resolved(
    config: Seq<ToolEntryView>,
    runtime: Seq<ToolEntryView>,
) -> Seq<ToolEntryView>
    decreases runtime.len(),
{
    if runtime.len() == 0 {
        config
    } else {
        let before = resolved(config, runtime.drop_last());
        if known(before, runtime.last().name) {
            before
        } else {
            before.push(runtime.last())
        }
    }
}

fn names(tools: &Vec<ToolEntry>, name: &str) -> (r: bool)
    ensures
        r == known(tools_view(tools@), name@),
{
    let mut i: usize = 0;
    while i < tools.len()
        invariant
            i <= tools@.len(),
            forall|j: int| 0 <= j < i ==> (#[trigger] tools_view(tools@)[j]).key() != name@,
        decreases tools@.len() - i,
    {
        if same(tools[i].name.as_str(), name) {
            assert(tools_view(tools@)[i as int].key() == name@);
            return true;
        }
        i = i + 1;
    }
    false
}

/// The tools at hand: those of the configuration, then those registered since
/// whose names are still free.
pub fn all_tools(config: &Vec<ToolEntry>, runtime: &Table<ToolEntry>) -> (r: Vec<ToolEntry>)
    ensures
        tools_view(r@) == resolved(tools_view(config@), runtime@),
{
    let mut r: Vec<ToolEntry> = Vec::new();
    let mut i: usize = 0;
    while i < config.len()
        invariant
            i <= config@.len(),
            r@.len() == i,
            forall|j: int| 0 <= j < i ==> (#[trigger] r@[j])@ == config@[j]@,
        decreases config@.len() - i,
    {
        r.push(config[i].copied());
        i = i + 1;
    }
    assert(tools_view(r@) =~= tools_view(config@));
    assert(runtime@.take(0) =~= Seq::empty());
    let n: usize = runtime.len();
    let mut j: usize = 0;
    while j < n
        invariant
            n == runtime@.len(),
            j <= n,
            tools_view(r@) == resolved(tools_view(config@), runtime@.take(j as int)),
        decreases n - j,
    {
        let t: &ToolEntry = runtime.row(j);
        let ghost before = tools_view(r@);
        proof {
            assert(runtime@.take(j + 1).drop_last() =~= runtime@.take(j as int));
            assert(runtime@.take(j + 1).last() == t@);
        }
        if !names(&r, t.name.as_str()) {
            r.push(t.copied());
            assert(tools_view(r@) =~= before.push(t@));
        }
        j = j + 1;
    }
    assert(runtime@.take(n as int) =~= runtime@);
    r
}

/// The tools of the configuration come first, as they are. None that was
/// registered since has the name of one of them, and each other one is at hand.
pub proof fn configured_tools_win(config: Seq<ToolEntryView>, runtime: Seq<ToolEntryView>)
    requires
        distinct(runtime),
    ensures
        config.is_prefix_of(resolved(config, runtime)),
        forall|i: int|
            config.len() <= i < resolved(config, runtime).len() ==> !known(
                config,
                (#[trigger] resolved(config, runtime)[i]).name,
            ) && runtime.contains(resolved(config, runtime)[i]),
        forall|j: int|
            0 <= j < runtime.len() && !known(config, (#[trigger] runtime[j]).name)
                ==> resolved(config, runtime).contains(runtime[j]),
    decreases runtime.len(),
{
    let all = resolved(config, runtime);
    if runtime.len() == 0 {
        assert(config =~= all.take(config.len() as int));
    } else {
        let earlier = runtime.drop_last();
        let before = resolved(config, earlier);
        let t = runtime.last();
        assert forall|i: int, j: int| 0 <= i < j < earlier.len() implies (#[trigger] earlier[i]).key()
            != (#[trigger] earlier[j]).key() by {
            assert(runtime[i].key() != runtime[j].key());
        }
        configured_tools_win(config, earlier);
        assert(before =~= all.take(before.len() as int));
        assert(config =~= all.take(config.len() as int));
        if known(before, t.name) {
            if !known(config, t.name) {
                let i = place(before, t.name);
                assert(before[i].key() == t.name);
                if i < config.len() {
                    assert(config[i] == before[i]);
                    assert(false);
                }
                let j = choose|j: int| 0 <= j < earlier.len() && earlier[j] == before[i];
                assert(runtime[j].key() == runtime[runtime.len() - 1].key());
                assert(false);
            }
        } else if known(config, t.name) {
            let i = place(config, t.name);
            assert(config[i].key() == t.name);
            assert(before[i] == config[i]);
            assert(false);
        }
        assert forall|i: int| config.len() <= i < all.len() implies !known(
            config,
            (#[trigger] all[i]).name,
        ) && runtime.contains(all[i]) by {
            if i < before.len() {
                assert(all[i] == before[i]);
                let j = choose|j: int| 0 <= j < earlier.len() && earlier[j] == before[i];
                assert(runtime[j] == all[i]);
            } else {
                assert(runtime[runtime.len() - 1] == all[i]);
            }
        }
        assert forall|j: int|
            0 <= j < runtime.len() && !known(config, (#[trigger] runtime[j]).name) implies all.contains(
            runtime[j],
        ) by {
            if j < earlier.len() {
                assert(earlier[j] == runtime[j]);
                assert(before.contains(earlier[j]));
                let i = choose|i: int| 0 <= i < before.len() && before[i] == earlier[j];
                assert(all[i] == runtime[j]);
            } else {
                assert(all[all.len() - 1] == t);
            }
        }
    }
}

/// A tool that was registered is found under its name, and no other tool has
/// changed; a registration that was refused changes none.
pub proof fn registered_tool_is_found(
    tools: Seq<ToolEntryView>,
    p: Members,
    found: bool,
    name: Seq<char>,
)
    requires
        distinct(tools),
    ensures
        match asked_tool(p) {
            Ok(d) => lookup(tool_registration(tools, p, found).0, name) == (if registrable(d, found)
                && name == d.name {
                Some(made_tool(d))
            } else {
                lookup(tools, name)
            }),
            Err(_) => tool_registration(tools, p, found).0 == tools,
        },
        tool_registration(tools, p, found).1 is Refused ==> tool_registration(tools, p, found).0
            == tools,
{
    match asked_tool(p) {
        Ok(d) => put_then_lookup(tools, made_tool(d), name),
        Err(_) => {},
    }
}

/// Quoting goes through a text piece by piece: a single quote becomes the four
/// characters that end the quotation, give a quote and begin another, and
/// everything else stays.
pub proof fn quoting_is_piecewise(a: Seq<char>, b: Seq<char>)
    ensures
        quotable(a + b) == quotable(a) + quotable(b),
        !a.contains('\'') ==> quotable(a) == a,
        quotable(seq!['\'']) == seq!['\'', '\\', '\'', '\''],
    decreases a.len() + b.len(),
{
    reveal_strlit("'\\''");
    assert("'\\''"@ =~= seq!['\'', '\\', '\'', '\'']);
    let q = seq!['\''];
    assert(q.drop_last() =~= Seq::empty());
    assert(quotable(q.drop_last()) =~= Seq::empty());
    assert(q.last() == '\'');
    assert(quotable(q) =~= "'\\''"@);
    if b.len() == 0 {
        assert(a + b =~= a);
        assert(quotable(a) + quotable(b) =~= quotable(a));
    } else {
        quoting_is_piecewise(a, b.drop_last());
        assert((a + b).drop_last() =~= a + b.drop_last());
        assert((a + b).last() == b.last());
        assert(quotable(a + b) =~= quotable(a) + quotable(b));
    }
    if !a.contains('\'') && a.len() > 0 {
        let rest = a.drop_last();
        assert(a[a.len() - 1] == a.last());
        if rest.contains('\'') {
            let i = choose|i: int| 0 <= i < rest.len() && rest[i] == '\'';
            assert(a[i] == '\'');
        }
        quoting_is_piecewise(rest, Seq::empty());
        assert(rest.push(a.last()) =~= a);
    }
}

/// An executable is looked up where its path says: from the root if it begins
/// with a slash; from the directory of the request if it has a slash elsewhere,
/// and on faith where the request names none; in the shell if it has none.
pub proof fn executables_are_looked_up_by_their_path(d: ToolDraftView)
    ensures
        ({
            let executable = first_word_or_all(d.command);
            let rooted = executable.len() > 0 && executable[0] == '/';
            &&& rooted ==> probe_for(d) == ProbeView::Absolute(executable)
            &&& !rooted && executable.contains('/') ==> match d.context_dir {
                Some(dir) => probe_for(d) == (ProbeView::Relative { dir, path: executable }),
                None => probe_for(d) is Unchecked,
            }
            &&& !executable.contains('/') ==> probe_for(d) == ProbeView::Shell(
                "command -v '"@ + quotable(executable) + "'"@,
            )
        }),
{
    let executable = first_word_or_all(d.command);
    reveal_strlit("/");
    assert("/"@ =~= seq!['/']);
    if executable.len() > 0 && executable[0] == '/' {
        assert("/"@ =~= executable.take(1));
    }
    if "/"@.is_prefix_of(executable) {
        assert(executable.take(1)[0] == '/');
        assert(executable[0] == '/');
    }
}

/// A tool is registered exactly if the request gives a name and a command, none
/// of them empty, and the executable was found or is taken on faith. Then it
/// has the name, the command, the time limit and the place that the request
/// gives, with five minutes in the worktree where it gives none; the answer and
/// the clients say so.
pub proof fn registered_tool_is_what_was_asked_for(
    tools: Seq<ToolEntryView>,
    p: Members,
    found: bool,
    other: Seq<char>,
)
    requires
        distinct(tools),
    ensures
        ({
            let (after, reply, told) = tool_registration(tools, p, found);
            let (name, command) = (text_of(p, "name"@), text_of(p, "command"@));
            let d = asked_tool(p)->Ok_0;
            let registered = name is Some && name->0.len() > 0 && command is Some
                && command->0.len() > 0 && (found || probe_for(d) is Unchecked);
            &&& !registered ==> after == tools && told.len() == 0 && reply is Refused
            &&& name is None ==> reply->Refused_0.code == -32603
            &&& name is Some && name->0.len() == 0 ==> reply->Refused_0.code == -32602
            &&& name is Some && name->0.len() > 0 && command is None ==> reply->Refused_0.code
                == -32603
            &&& name is Some && name->0.len() > 0 && command is Some && !registered
                ==> reply->Refused_0.code == -32602
            &&& registered ==> {
                &&& asked_tool(p) is Ok
                &&& d.command == command->0
                &&& d.context_dir == text_of(p, "context_dir"@)
                &&& told == seq![
                    DaemonEventView::RecordCreated { collection: "tool"@, id: name->0 },
                ]
                &&& lookup(after, name->0) matches Some(t) && reply matches Reply::Value(r) && {
                    &&& t.name == name->0
                    &&& t.command == command->0
                    &&& t.timeout_secs == match count_of(p, "timeout_secs"@) {
                        Some(n) => n,
                        None => 300,
                    }
                    &&& t.worktree == (flag_of(p, "worktree"@) != Some(false))
                    &&& r.name == t.name && r.command == t.command
                    &&& r.timeout_secs == t.timeout_secs && r.worktree == t.worktree
                    &&& r.source == "runtime"@
                }
                &&& other != name->0 ==> lookup(after, other) == lookup(tools, other)
            }
        }),
{
    if let Ok(d) = asked_tool(p) {
        put_then_lookup(tools, made_tool(d), d.name);
        put_then_lookup(tools, made_tool(d), other);
    }
}

/// The tools at hand are those of the configuration, and behind them, in their
/// order, exactly those registered since whose names the configuration does not
/// have.
pub proof fn free_names_are_added_in_order(config: Seq<ToolEntryView>, runtime: Seq<ToolEntryView>)
    requires
        distinct(runtime),
    ensures
        resolved(config, runtime) == config + runtime.filter(
            |t: ToolEntryView| lookup(config, t.name) is None,
        ),
    decreases runtime.len(),
{
    reveal(Seq::filter);
    let keep = |t: ToolEntryView| lookup(config, t.name) is None;
    if runtime.len() == 0 {
        assert(resolved(config, runtime) =~= config + runtime.filter(keep));
    } else {
        let earlier = runtime.drop_last();
        let t = runtime.last();
        assert forall|i: int, j: int| 0 <= i < j < earlier.len() implies (
        #[trigger] earlier[i]).key() != (#[trigger] earlier[j]).key() by {
            assert(runtime[i].key() != runtime[j].key());
        }
        free_names_are_added_in_order(config, earlier);
        configured_tools_win(config, earlier);
        let before = resolved(config, earlier);
        if known(config, t.name) {
            let i = place(config, t.name);
            assert(config[i].key() == t.name);
            assert(before[i] == config[i]);
            assert(known(before, t.name));
        } else if known(before, t.name) {
            let i = place(before, t.name);
            assert(before[i].key() == t.name);
            if i < config.len() {
                assert(config[i] == before[i]);
            } else {
                let j = choose|j: int| 0 <= j < earlier.len() && earlier[j] == before[i];
                assert(runtime[j].key() == runtime[runtime.len() - 1].key());
            }
            assert(false);
        }
        assert(resolved(config, runtime) =~= config + runtime.filter(keep));
    }
}

/// A request for a tool whose executable is not there is told what was looked
/// for and which command it belongs to.
pub proof fn missing_executables_are_named(d: ToolDraftView)
    ensures
        ({
            let executable = first_word_or_all(d.command);
            let where_to = match d.context_dir {
                Some(dir) => " (resolved from "@ + debug_path(dir) + ")"@,
                None => Seq::empty(),
            };
            &&& no_executable(d).code == -32602
            &&& (absence(d) + " The command '"@ + d.command).is_prefix_of(no_executable(d).message)
            &&& !executable.contains('/') ==> absence(d) == "Executable '"@ + executable
                + "' not found in PATH."@
            &&& executable.contains('/') ==> absence(d) == "File '"@ + executable
                + "' does not exist"@ + where_to + "."@
        }),
{
    let m = no_executable(d).message;
    let head = absence(d) + " The command '"@ + d.command;
    assert(head =~= m.take(head.len() as int));
}

} // verus!
