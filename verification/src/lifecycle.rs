//! The life of the daemon: how one is started, how there is only one, and how
//! it ends.

use crate::config::{AgentsConfig, Config};
use crate::numbers::{decimal, number_round_trip, read_u32, show, spelled_u32};
use crate::protocol::{DaemonEvent, DaemonEventView};
use crate::records::{AgentSession, AgentSessionView};
use crate::routes::{starts_view, AgentStart, AgentStartView};
use crate::status::{AgentStatus, AgentType};
use crate::table::{Record, Table};
use crate::text::{copy, joined, opt_text};
use crate::words::{trim, trimmed};
use vstd::prelude::*;
use vstd::string::*;
use vstd::utf8::{
    decode_utf8, encode_utf8, encode_utf8_decode_utf8,
    encode_utf8_valid_utf8, is_ascii_chars, is_ascii_chars_encode_utf8, is_char_boundary,
    is_char_boundary_iff_not_is_continuation_byte, is_char_boundary_start_end_of_seq,
};

verus! {

/// The process that a pid file names: the number in it, with white space
/// around it left out of account. `None` where the file could not be read or
/// holds no number.
pub open spec fn pid_in(file: Option<Seq<char>>) -> Option<u32> {
    match file {
        Some(contents) => spelled_u32(trimmed(contents)),
        None => None,
    }
}

/// Reads the process that a pid file names.
pub fn recorded_pid(file: &Option<String>) -> (r: Option<u32>)
    ensures
        r == pid_in(opt_text(*file)),
{
    match file {
        Some(contents) => read_u32(trim(contents.as_str()).as_str()),
        None => None,
    }
}

/// What the pid file of a process holds.
pub fn pid_file(pid: u32) -> (r: String)
    ensures
        r@ == decimal(pid as nat),
{
    show(pid as u64)
}

/// The pid that was written to a pid file is read back from it.
pub proof fn pid_file_round_trip(pid: u32)
    ensures
        pid_in(Some(decimal(pid as nat))) == Some(pid),
{
    number_round_trip(pid);
}

/// The path that exists while the process does.
pub open spec fn process_path(pid: u32) -> Seq<char> {
    "/proc/"@ + decimal(pid as nat)
}

/// The path that exists while the process does.
pub fn proc_path(pid: u32) -> (r: String)
    ensures
        r@ == process_path(pid),
{
    joined("/proc/", show(pid as u64).as_str())
}

/// What to do so that a daemon runs.
#[derive(Clone, Copy, Debug, PartialEq, Eq, Structural)]
pub enum Launch {
    /// One runs and takes requests.
    Ready,
    /// One runs but takes no requests yet: wait for its socket.
    Await(Wait),
    /// None runs: start one, and wait for its socket.
    Start(Wait),
}

/// A wait for the socket of a daemon.
#[derive(Clone, Copy, Debug, PartialEq, Eq, Structural)]
pub struct Wait {
    /// The daemon that was found running; `None` if it was started just now.
    pub pid: Option<u32>,
    /// How many naps are left.
    pub naps: u32,
}

/// How long a nap is.
pub const NAP_MILLIS: u64 = 100;

/// What to do so that a daemon runs, given the process that the pid file names,
/// whether it lives, and whether the socket exists.
pub open spec fn launch_for(pid: Option<u32>, alive: bool, socket: bool) -> Launch {
    if pid is Some && alive {
        if socket {
            Launch::Ready
        } else {
            Launch::Await(Wait { pid, naps: 20 })
        }
    } else {
        Launch::Start(Wait { pid: None, naps: 30 })
    }
}

/// Decides what to do so that a daemon runs.
pub fn ensure_daemon(pid: Option<u32>, alive: bool, socket: bool) -> (r: Launch)
    ensures
        r == launch_for(pid, alive, socket),
{
    if pid.is_some() && alive {
        if socket {
            Launch::Ready
        } else {
            Launch::Await(Wait { pid, naps: 20 })
        }
    } else {
        Launch::Start(Wait { pid: None, naps: 30 })
    }
}

/// What follows a nap.
#[derive(Debug)]
pub enum AfterNap {
    /// The socket is there.
    Ready,
    /// Take another nap.
    Again(Wait),
    /// The socket did not appear.
    GiveUp(String),
}

pub enum AfterNapView {
    Ready,
    Again(Wait),
    GiveUp(Seq<char>),
}

impl View for AfterNap {
    type V = AfterNapView;

    open spec fn view(&self) -> AfterNapView {
        match *self {
            AfterNap::Ready => AfterNapView::Ready,
            AfterNap::Again(w) => AfterNapView::Again(w),
            AfterNap::GiveUp(message) => AfterNapView::GiveUp(message@),
        }
    }
}

/// That the socket of a daemon did not appear.
pub open spec fn no_socket(pid: Option<u32>, path: Seq<char>) -> Seq<char> {
    match pid {
        Some(pid) => "daemon process alive (pid="@ + decimal(pid as nat)
            + ") but socket never appeared at "@ + path,
        None => "daemon started but socket never appeared at "@ + path,
    }
}

/// What follows a nap, given whether the socket exists now.
pub open spec fn after_nap(w: Wait, socket: bool, path: Seq<char>) -> AfterNapView {
    if socket {
        AfterNapView::Ready
    } else if w.naps <= 1 {
        AfterNapView::GiveUp(no_socket(w.pid, path))
    } else {
        AfterNapView::Again(Wait { pid: w.pid, naps: (w.naps - 1) as u32 })
    }
}

impl Wait {
    /// Decides what follows a nap, given whether the socket exists now.
    pub fn woken(self, socket: bool, socket_path: &str) -> (r: AfterNap)
        ensures
            r@ == after_nap(self, socket, socket_path@),
    {
        if socket {
            return AfterNap::Ready;
        }
        if self.naps > 1 {
            return AfterNap::Again(Wait { pid: self.pid, naps: self.naps - 1 });
        }
        match self.pid {
            Some(pid) => {
                let mut message: String = joined(
                    "daemon process alive (pid=",
                    show(pid as u64).as_str(),
                );
                message.append(") but socket never appeared at ");
                message.append(socket_path);
                AfterNap::GiveUp(message)
            },
            None => AfterNap::GiveUp(
                joined("daemon started but socket never appeared at ", socket_path),
            ),
        }
    }
}

/// How a wait ends, given whether the socket existed after each nap.
pub open spec fn wait_ends(w: Wait, seen: Seq<bool>, path: Seq<char>) -> AfterNapView
    decreases seen.len(),
{
    if seen.len() == 0 {
        AfterNapView::Again(w)
    } else {
        match after_nap(w, seen[0], path) {
            AfterNapView::Again(next) => wait_ends(next, seen.skip(1), path),
            end => end,
        }
    }
}

/// A wait lasts no longer than its naps: it ends well if the socket exists
/// after one of them, and else gives up after the last.
pub proof fn wait_is_bounded(w: Wait, seen: Seq<bool>, path: Seq<char>)
    requires
        w.naps >= 1,
        seen.len() == w.naps,
    ensures
        wait_ends(w, seen, path) == (if seen.contains(true) {
            AfterNapView::Ready
        } else {
            AfterNapView::GiveUp(no_socket(w.pid, path))
        }),
    decreases seen.len(),
{
    if seen[0] {
    } else if w.naps > 1 {
        let rest = seen.skip(1);
        wait_is_bounded(Wait { pid: w.pid, naps: (w.naps - 1) as u32 }, rest, path);
        if seen.contains(true) {
            let i = choose|i: int| 0 <= i < seen.len() && seen[i];
            assert(rest[i - 1]);
        }
        if rest.contains(true) {
            let i = choose|i: int| 0 <= i < rest.len() && rest[i];
            assert(seen[i + 1]);
        }
    } else {
        assert(seen =~= seq![false]);
        assert(!seen.contains(true));
    }
}

/// What is left over from an earlier daemon and has to be removed.
#[derive(Clone, Copy, Debug, PartialEq, Eq, Structural)]
pub struct Leftovers {
    pub pid_file: bool,
    pub socket: bool,
}

/// What to remove before a daemon starts, or why it must not start, given the
/// process that the pid file names, whether it lives, and whether the socket
/// exists.
pub open spec fn leftovers(
    pid: Option<u32>,
    alive: bool,
    socket: bool,
    pid_path: Seq<char>,
) -> Result<Leftovers, Seq<char>> {
    if pid is Some && alive {
        Err(
            "daemon already running (pid="@ + decimal(pid->0 as nat) + ", pidfile="@ + pid_path
                + ")"@,
        )
    } else {
        Ok(Leftovers { pid_file: pid is Some, socket })
    }
}

/// Decides what to remove before a daemon starts, or why it must not start.
pub fn ensure_one_daemon(pid: Option<u32>, alive: bool, socket: bool, pid_path: &str) -> (r: Result<
    Leftovers,
    String,
>)
    ensures
        match r {
            Ok(l) => leftovers(pid, alive, socket, pid_path@) == Ok::<Leftovers, Seq<char>>(l),
            Err(e) => leftovers(pid, alive, socket, pid_path@) == Err::<Leftovers, Seq<char>>(e@),
        },
{
    match pid {
        Some(pid) => {
            if alive {
                let mut message: String = joined(
                    "daemon already running (pid=",
                    show(pid as u64).as_str(),
                );
                message.append(", pidfile=");
                message.append(pid_path);
                message.append(")");
                return Err(message);
            }
            Ok(Leftovers { pid_file: true, socket })
        },
        None => Ok(Leftovers { pid_file: false, socket }),
    }
}

/// A daemon that may start finds no other: where the process of the pid file
/// lives, one is refused, and a launch waits for the one that runs.
pub proof fn never_two_daemons(pid: Option<u32>, alive: bool, socket: bool, pid_path: Seq<char>)
    ensures
        leftovers(pid, alive, socket, pid_path) is Err <==> pid is Some && alive,
        leftovers(pid, alive, socket, pid_path) is Ok <==> launch_for(pid, alive, socket) is Start,
{
}

/// An agent that is started for no work item or bundle in particular.
pub open spec fn plain_start(agent_type: AgentType) -> AgentStartView {
    AgentStartView { agent_type, work_id: None, bundle_id: None }
}

/// The agents that start with the daemon.
pub open spec fn starters(config: Config) -> Seq<AgentStartView> {
    (if config.agents.auto_start_coordinator {
        seq![plain_start(AgentType::Coordinator)]
    } else {
        Seq::empty()
    }) + (if config.integrator.enabled {
        seq![plain_start(AgentType::Integrator)]
    } else {
        Seq::empty()
    })
}

/// The agents that start with the daemon.
pub fn startup_agents(config: &Config) -> (r: Vec<AgentStart>)
    ensures
        starts_view(r@) == starters(*config),
{
    let mut r: Vec<AgentStart> = Vec::new();
    if config.agents.auto_start_coordinator {
        r.push(
            AgentStart { agent_type: AgentType::Coordinator, work_id: None, bundle_id: None },
        );
    }
    if config.integrator.enabled {
        r.push(AgentStart { agent_type: AgentType::Integrator, work_id: None, bundle_id: None });
    }
    assert(starts_view(r@) =~= starters(*config));
    r
}

/// The settings of a worker that fetches work items itself.
#[derive(Clone, Copy, Debug, PartialEq, Eq, Structural)]
pub struct WorkerConfig {
    pub worker_id: u32,
    pub poll_interval_secs: u64,
    pub idle_interval_secs: u64,
}

/// The workers that start with the daemon.
pub open spec fn workers(config: AgentsConfig) -> Seq<WorkerConfig> {
    Seq::new(
        if config.pull_based_workers && config.enabled {
            config.worker_pool_size as nat
        } else {
            0
        },
        |i: int|
            WorkerConfig {
                worker_id: i as u32,
                poll_interval_secs: 5,
                idle_interval_secs: 15,
            },
    )
}

/// The workers that start with the daemon.
pub fn worker_configs(config: &AgentsConfig) -> (r: Vec<WorkerConfig>)
    ensures
        r@ == workers(*config),
{
    let mut r: Vec<WorkerConfig> = Vec::new();
    if config.pull_based_workers && config.enabled {
        let mut i: u32 = 0;
        while i < config.worker_pool_size
            invariant
                config.pull_based_workers,
                config.enabled,
                i <= config.worker_pool_size,
                r@ == workers(*config).take(i as int),
            decreases config.worker_pool_size - i,
        {
            r.push(
                WorkerConfig { worker_id: i, poll_interval_secs: 5, idle_interval_secs: 15 },
            );
            assert(r@ =~= workers(*config).take(i + 1));
            i = i + 1;
        }
    }
    assert(r@ =~= workers(*config));
    r
}

/// How long agents may take to end once the daemon ends.
pub const GRACE_PERIOD_SECS: u64 = 10;

/// A session once the daemon ends.
pub open spec fn ended(s: AgentSessionView) -> AgentSessionView {
    if s.status.is_over() {
        s
    } else {
        AgentSessionView { status: AgentStatus::Cancelled, ..s }
    }
}

/// The sessions once the daemon ends.
pub open spec fn all_ended(sessions: Seq<AgentSessionView>) -> Seq<AgentSessionView> {
    sessions.map_values(|s: AgentSessionView| ended(s))
}

/// Ends the daemon's sessions: each that is not over is cancelled. Clients are
/// told that the daemon is shutting down.
pub fn graceful_shutdown(sessions: &mut Table<AgentSession>) -> (r: DaemonEvent)
    ensures
        final(sessions)@ == all_ended(old(sessions)@),
        r@ == DaemonEventView::ShuttingDown,
{
    let ghost before = sessions@;
    let n: usize = sessions.len();
    let mut i: usize = 0;
    while i < n
        invariant
            n == before.len(),
            sessions@.len() == n,
            i <= n,
            forall|j: int| 0 <= j < i ==> sessions@[j] == ended(#[trigger] before[j]),
            forall|j: int| i <= j < n ==> sessions@[j] == #[trigger] before[j],
        decreases n - i,
    {
        let s: &AgentSession = sessions.row(i);
        if !s.status.is_terminal() {
            let mut cancelled: AgentSession = s.copied();
            cancelled.status = AgentStatus::Cancelled;
            sessions.replace(i, cancelled);
        }
        assert(sessions@[i as int] == ended(before[i as int]));
        i = i + 1;
    }
    assert(sessions@ =~= all_ended(before));
    DaemonEvent::ShuttingDown
}

/// Once the daemon has ended no session is left that is not over, those that
/// were over are as they were, and ending them again changes nothing.
pub proof fn shutdown_ends_all_sessions(sessions: Seq<AgentSessionView>)
    ensures
        all_ended(sessions).len() == sessions.len(),
        forall|i: int|
            0 <= i < sessions.len() ==> {
                &&& (#[trigger] all_ended(sessions)[i]).status.is_over()
                &&& all_ended(sessions)[i].id == sessions[i].id
                &&& sessions[i].status.is_over() ==> all_ended(sessions)[i] == sessions[i]
            },
        all_ended(all_ended(sessions)) == all_ended(sessions),
{
    assert(all_ended(all_ended(sessions)) =~= all_ended(sessions));
}

/// Whether an event ends the daemon.
pub fn ends_daemon(event: &DaemonEvent) -> (r: bool)
    ensures
        r == (event@ == DaemonEventView::ShutdownRequested),
{
    matches!(event, DaemonEvent::ShutdownRequested)
}

/// The characters of a text whose encoding lies between two places.
pub open spec fn piece(s: Seq<char>, lo: int, hi: int) -> Seq<char> {
    decode_utf8(encode_utf8(s).subrange(lo, hi))
}

/// Whether a place lies between two characters of the encoding of a text.
pub open spec fn divides(s: Seq<char>, at: int) -> bool {
    is_char_boundary(encode_utf8(s), at)
}

fn between(s: &str, lo: usize, hi: usize) -> (r: &str)
    requires
        divides(s@, lo as int),
        divides(s@, hi as int),
        lo <= hi <= encode_utf8(s@).len(),
    ensures
        r@ == piece(s@, lo as int, hi as int),
{
    let ghost bytes = encode_utf8(s@);
    let (head, _): (&str, &str) = s.split_at(hi);
    proof {
        encode_utf8_valid_utf8(s@);
        encode_utf8_valid_utf8(head@);
        let sub = encode_utf8(head@);
        assert(sub =~= bytes.subrange(0, hi as int));
        if lo < hi {
            is_char_boundary_iff_not_is_continuation_byte(bytes, lo as int);
            is_char_boundary_iff_not_is_continuation_byte(sub, lo as int);
            assert(sub[lo as int] == bytes[lo as int]);
        } else {
            is_char_boundary_start_end_of_seq(sub);
        }
    }
    let (_, r): (&str, &str) = head.split_at(lo);
    proof {
        encode_utf8_decode_utf8(r@);
        assert(encode_utf8(r@) =~= bytes.subrange(lo as int, hi as int));
    }
    r
}

/// Whether a session id can be read as a time: it falls into pieces where the
/// parts of the time meet.
pub open spec fn is_timely(id: Seq<char>) -> bool {
    &&& encode_utf8(id).len() >= 15
    &&& divides(id, 4)
    &&& divides(id, 6)
    &&& divides(id, 8)
    &&& divides(id, 9)
    &&& divides(id, 11)
    &&& divides(id, 13)
    &&& divides(id, 15)
}

/// The time at which a session began, by its id.
pub open spec fn began_at(id: Seq<char>) -> Seq<char> {
    piece(id, 0, 4) + "-"@ + piece(id, 4, 6) + "-"@ + piece(id, 6, 8) + "T"@ + piece(id, 9, 11)
        + ":"@ + piece(id, 11, 13) + ":"@ + piece(id, 13, 15)
}

/// The time at which a session began, by its id.
pub fn start_time(session_id: &str) -> (r: String)
    requires
        is_timely(session_id@),
    ensures
        r@ == began_at(session_id@),
{
    proof {
        encode_utf8_valid_utf8(session_id@);
        is_char_boundary_start_end_of_seq(encode_utf8(session_id@));
    }
    let mut r: String = copy(between(session_id, 0, 4));
    r.append("-");
    r.append(between(session_id, 4, 6));
    r.append("-");
    r.append(between(session_id, 6, 8));
    r.append("T");
    r.append(between(session_id, 9, 11));
    r.append(":");
    r.append(between(session_id, 11, 13));
    r.append(":");
    r.append(between(session_id, 13, 15));
    r
}

/// Where all characters are ASCII, a piece is what stands between the places.
pub proof fn piece_of_ascii(s: Seq<char>, lo: int, hi: int)
    requires
        is_ascii_chars(s),
        0 <= lo <= hi <= s.len(),
    ensures
        piece(s, lo, hi) == s.subrange(lo, hi),
        divides(s, lo),
{
    let bytes = encode_utf8(s);
    let part = s.subrange(lo, hi);
    encode_utf8_valid_utf8(s);
    is_ascii_chars_encode_utf8(s);
    assert forall|i: int| 0 <= i < part.len() implies '\0' <= #[trigger] part[i] <= '\u{7f}' by {
        assert(part[i] == s[lo + i]);
    }
    is_ascii_chars_encode_utf8(part);
    assert(encode_utf8(part) =~= bytes.subrange(lo, hi)) by {
        assert forall|i: int| 0 <= i < part.len() implies encode_utf8(part)[i] == bytes.subrange(
            lo,
            hi,
        )[i] by {
            assert(part[i] == s[lo + i]);
            assert(bytes[lo + i] == s[lo + i] as u8);
        }
    }
    encode_utf8_decode_utf8(part);
    if lo < s.len() {
        let c = s[lo];
        assert(bytes[lo] == c as u8);
        let b = bytes[lo];
        assert(b < 0x80);
        is_char_boundary_iff_not_is_continuation_byte(bytes, lo);
        assert(!vstd::utf8::is_continuation_byte(b));
    } else {
        is_char_boundary_start_end_of_seq(bytes);
    }
}

/// A process that lives and has a socket is left alone. One that lives without a
/// socket is waited for, for two seconds; where none lives one is started, and
/// waited for, for three. Nothing is removed while the process lives; else its
/// pid file and its socket are, as far as they are there.
pub proof fn daemons_are_found_awaited_or_started(
    pid: u32,
    alive: bool,
    socket: bool,
    pid_path: Seq<char>,
)
    ensures
        NAP_MILLIS == 100,
        GRACE_PERIOD_SECS == 10,
        launch_for(Some(pid), true, true) is Ready,
        launch_for(Some(pid), true, false) matches Launch::Await(w) && w.pid == Some(pid) && w.naps
            * NAP_MILLIS == 2000,
        launch_for(Some(pid), false, socket) matches Launch::Start(w) && w.pid is None && w.naps
            * NAP_MILLIS == 3000,
        launch_for(None, alive, socket) == launch_for(Some(pid), false, socket),
        leftovers(Some(pid), true, socket, pid_path) is Err,
        leftovers(Some(pid), false, socket, pid_path) matches Ok(l) && l.pid_file && l.socket
            == socket,
        leftovers(None, alive, socket, pid_path) matches Ok(l) && !l.pid_file && l.socket == socket,
{
}

/// The coordinator starts with the daemon exactly if it is set to, the
/// integrator exactly if it is enabled, each once and the coordinator first, and
/// nothing else starts.
pub proof fn what_is_set_to_start_starts(config: Config)
    ensures
        ({
            let s = starters(config);
            let (c, i) = (config.agents.auto_start_coordinator, config.integrator.enabled);
            &&& s.len() == (if c {
                1int
            } else {
                0int
            }) + (if i {
                1int
            } else {
                0int
            })
            &&& c ==> s[0].agent_type == AgentType::Coordinator
            &&& i ==> s.last().agent_type == AgentType::Integrator
            &&& forall|k: int|
                0 <= k < s.len() ==> (#[trigger] s[k]).work_id is None && s[k].bundle_id is None
        }),
{
}

/// Workers start exactly if agents are enabled and fetch work themselves: as
/// many as the pool holds, numbered from zero, all with the same intervals.
pub proof fn the_pool_is_filled_with_numbered_workers(config: AgentsConfig, i: int)
    ensures
        config.enabled && config.pull_based_workers ==> workers(config).len()
            == config.worker_pool_size,
        !(config.enabled && config.pull_based_workers) ==> workers(config).len() == 0,
        0 <= i < workers(config).len() ==> workers(config)[i].worker_id == i && workers(
            config,
        )[i].poll_interval_secs == 5 && workers(config)[i].idle_interval_secs == 15,
{
}

/// When the daemon ends, each session that is starting, running or held is
/// cancelled, and each that has come to an end keeps its end; nothing else of
/// any session changes.
pub proof fn open_sessions_are_cancelled(sessions: Seq<AgentSessionView>, i: int)
    requires
        0 <= i < sessions.len(),
    ensures
        ({
            let (s, after) = (sessions[i], all_ended(sessions)[i]);
            &&& all_ended(sessions).len() == sessions.len()
            &&& after.id == s.id && after.agent_type == s.agent_type
            &&& s.status == AgentStatus::Starting || s.status == AgentStatus::Running || s.status
                == AgentStatus::Paused ==> after.status == AgentStatus::Cancelled
            &&& s.status == AgentStatus::Completed || s.status == AgentStatus::Failed || s.status
                == AgentStatus::Cancelled ==> after.status == s.status
        }),
{
}

/// The time in a session id of ASCII characters is spelled out: year, month and
/// day with dashes, and behind a `T` hour, minute and second with colons.
pub proof fn the_time_is_spelled_out(id: Seq<char>)
    requires
        is_ascii_chars(id),
        id.len() >= 15,
    ensures
        began_at(id).len() == 19,
        began_at(id).subrange(0, 4) == id.subrange(0, 4),
        began_at(id).subrange(5, 7) == id.subrange(4, 6),
        began_at(id).subrange(8, 10) == id.subrange(6, 8),
        began_at(id).subrange(11, 13) == id.subrange(9, 11),
        began_at(id).subrange(14, 16) == id.subrange(11, 13),
        began_at(id).subrange(17, 19) == id.subrange(13, 15),
        began_at(id)[4] == '-' && began_at(id)[7] == '-' && began_at(id)[10] == 'T',
        began_at(id)[13] == ':' && began_at(id)[16] == ':',
{
    piece_of_ascii(id, 0, 4);
    piece_of_ascii(id, 4, 6);
    piece_of_ascii(id, 6, 8);
    piece_of_ascii(id, 9, 11);
    piece_of_ascii(id, 11, 13);
    piece_of_ascii(id, 13, 15);
    reveal_strlit("-");
    reveal_strlit("T");
    reveal_strlit(":");
    let t = began_at(id);
    assert("-"@.len() == 1 && "T"@.len() == 1 && ":"@.len() == 1);
    assert(t.subrange(0, 4) =~= id.subrange(0, 4));
    assert(t.subrange(5, 7) =~= id.subrange(4, 6));
    assert(t.subrange(8, 10) =~= id.subrange(6, 8));
    assert(t.subrange(11, 13) =~= id.subrange(9, 11));
    assert(t.subrange(14, 16) =~= id.subrange(11, 13));
    assert(t.subrange(17, 19) =~= id.subrange(13, 15));
}

/// What people are told of a daemon names its process, where there is one, and
/// the path that it is about; the path of a process ends in its number.
pub proof fn daemons_are_told_of_by_process_and_path(pid: u32, socket: bool, path: Seq<char>)
    ensures
        no_socket(Some(pid), path) == "daemon process alive (pid="@ + decimal(pid as nat)
            + ") but socket never appeared at "@ + path,
        no_socket(None, path) == "daemon started but socket never appeared at "@ + path,
        leftovers(Some(pid), true, socket, path) == Err::<Leftovers, Seq<char>>(
            "daemon already running (pid="@ + decimal(pid as nat) + ", pidfile="@ + path + ")"@,
        ),
        process_path(pid) == "/proc/"@ + decimal(pid as nat),
{
}

/// A pid file names the process whose number stands in it, with white space
/// around it or not; a file that is not there names none.
pub proof fn pid_files_name_processes(pid: u32, a: Seq<char>, b: Seq<char>)
    requires
        crate::words::blank(a),
        crate::words::blank(b),
    ensures
        pid_in(Some(a + decimal(pid as nat) + b)) == Some(pid),
        pid_in(None) is None,
{
    let d = decimal(pid as nat);
    crate::numbers::decimal_is_read_back(pid as nat);
    assert(crate::numbers::is_digit(d[0]) && crate::numbers::is_digit(d[d.len() - 1]));
    crate::words::trimming_takes_white_space_off_the_ends(a, d, b);
    number_round_trip(pid);
}

} // verus!
