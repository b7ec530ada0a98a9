//! Requests about the daemon itself.

use crate::params::text_of;
use crate::paths::{file_name, last_component};
use crate::protocol::{
    answers, internal, DaemonEvent, DaemonEventView, DaemonRequest, Outcome, Reply, RpcError,
};
use crate::records::{Bundle, BundleView, Tick, TickView, Work, WorkView};
use crate::status::{BundleStatus, TickStatus, WorkStatus};
use crate::stores::{Stores, StoresView};
use crate::table::{filter_holds_those, holds_those, Table};
use crate::text::{copy, copy_opt, opt_text, same, text_or, texts};
use vstd::prelude::*;

verus! {

/// The answer to a handshake.
#[derive(Debug)]
pub struct Handshake {
    pub server_version: String,
    pub client_version: String,
    pub version_match: bool,
    pub protocol: String,
    pub session_id: String,
}

#[verifier::ext_equal]
pub struct HandshakeView {
    pub server_version: Seq<char>,
    pub client_version: Seq<char>,
    pub version_match: bool,
    pub protocol: Seq<char>,
    pub session_id: Seq<char>,
}

impl View for Handshake {
    type V = HandshakeView;

    open spec fn view(&self) -> HandshakeView {
        HandshakeView {
            server_version: self.server_version@,
            client_version: self.client_version@,
            version_match: self.version_match,
            protocol: self.protocol@,
            session_id: self.session_id@,
        }
    }
}

/// The answer to a handshake from a client of the given version.
pub open spec fn greeting(
    server: Seq<char>,
    session: Seq<char>,
    client: Option<Seq<char>>,
) -> HandshakeView {
    HandshakeView {
        server_version: server,
        client_version: text_or(client, "unknown"@),
        version_match: text_or(client, "unknown"@) == server,
        protocol: "ndjson/1"@,
        session_id: session,
    }
}

/// Answers a handshake. Another version is no error.
pub fn handle_handshake(version: &str, session_id: &str, req: &DaemonRequest) -> (r: Outcome<
    Handshake,
>)
    ensures
        answers(
            r,
            req.id,
            Reply::Value(
                greeting(version@, session_id@, text_of(req.params@, "client_version"@)),
            ),
            Seq::empty(),
        ),
{
    let client_version: String = match req.params.text("client_version") {
        Some(v) => v,
        None => copy("unknown"),
    };
    let version_match: bool = same(client_version.as_str(), version);
    Outcome::ok(
        req.id,
        Handshake {
            server_version: copy(version),
            client_version,
            version_match,
            protocol: copy("ndjson/1"),
            session_id: copy(session_id),
        },
    )
}

/// The answer to an initialisation.
#[derive(Debug)]
pub struct InitReport {
    pub collections: Vec<String>,
    pub git_hooks_installed: bool,
}

#[verifier::ext_equal]
pub struct InitReportView {
    pub collections: Seq<Seq<char>>,
    pub git_hooks_installed: bool,
}

impl View for InitReport {
    type V = InitReportView;

    open spec fn view(&self) -> InitReportView {
        InitReportView {
            collections: texts(self.collections@),
            git_hooks_installed: self.git_hooks_installed,
        }
    }
}

/// The collections of the record store.
pub open spec fn collection_names() -> Seq<Seq<char>> {
    seq![
        "plans"@,
        "specs"@,
        "phases"@,
        "works"@,
        "bundles"@,
        "ticks"@,
        "learnings"@,
        "locks"@,
        "coordinator_goals"@,
        "agent_sessions"@,
    ]
}

/// The collections of the record store.
pub fn collections() -> (r: Vec<String>)
    ensures
        texts(r@) == collection_names(),
{
    let mut r: Vec<String> = Vec::new();
    r.push(copy("plans"));
    r.push(copy("specs"));
    r.push(copy("phases"));
    r.push(copy("works"));
    r.push(copy("bundles"));
    r.push(copy("ticks"));
    r.push(copy("learnings"));
    r.push(copy("locks"));
    r.push(copy("coordinator_goals"));
    r.push(copy("agent_sessions"));
    assert(texts(r@) =~= collection_names());
    r
}

/// Answers an initialisation. Without a record store there is nothing to
/// initialise; with one, `hooks` tells whether the hooks could be installed,
/// which is no error.
pub fn handle_system_init(req: &DaemonRequest, hooks: Option<bool>) -> (r: Outcome<InitReport>)
    ensures
        answers(
            r,
            req.id,
            match hooks {
                None => Reply::Refused(internal("TaskStore not initialized"@)),
                Some(installed) => Reply::Value(
                    InitReportView {
                        collections: collection_names(),
                        git_hooks_installed: installed,
                    },
                ),
            },
            Seq::empty(),
        ),
{
    match hooks {
        None => Outcome::refuse(req.id, RpcError::internal("TaskStore not initialized")),
        Some(installed) => Outcome::ok(
            req.id,
            InitReport { collections: collections(), git_hooks_installed: installed },
        ),
    }
}

/// The published tick with the highest number. Of several with that number it
/// is the one that was put last.
pub open spec fn latest_published(ticks: Seq<TickView>) -> Option<TickView>
    decreases ticks.len(),
{
    if ticks.len() == 0 {
        None
    } else {
        let before = latest_published(ticks.drop_last());
        if ticks.last().status == TickStatus::Published && (before is None || ticks.last().number
            >= before->0.number) {
            Some(ticks.last())
        } else {
            before
        }
    }
}

/// Finds the published tick with the highest number.
pub fn latest_tick(ticks: &Table<Tick>) -> (r: Option<&Tick>)
    ensures
        match r {
            Some(t) => latest_published(ticks@) == Some(t@),
            None => latest_published(ticks@) is None,
        },
{
    let n: usize = ticks.len();
    let mut best: Option<&Tick> = None;
    let mut i: usize = 0;
    assert(ticks@.take(0) =~= Seq::empty());
    while i < n
        invariant
            n == ticks@.len(),
            i <= n,
            match best {
                Some(t) => latest_published(ticks@.take(i as int)) == Some(t@),
                None => latest_published(ticks@.take(i as int)) is None,
            },
        decreases n - i,
    {
        let t: &Tick = ticks.row(i);
        proof {
            assert(ticks@.take(i + 1).drop_last() =~= ticks@.take(i as int));
            assert(ticks@.take(i + 1).last() == t@);
        }
        if t.status == TickStatus::Published {
            let newer: bool = match best {
                Some(b) => t.number >= b.number,
                None => true,
            };
            if newer {
                best = Some(t);
            }
        }
        i = i + 1;
    }
    assert(ticks@.take(n as int) =~= ticks@);
    best
}

/// Whether a bundle of the work item that still counts is based on another tick
/// than the latest.
pub open spec fn based_on_another(
    bundles: Seq<BundleView>,
    work_id: Seq<char>,
    latest: Seq<char>,
) -> bool {
    exists|i: int|
        0 <= i < bundles.len() && (#[trigger] bundles[i]).work_id == work_id
            && bundles[i].status.is_live() && bundles[i].base_tick_id is Some
            && bundles[i].base_tick_id->0 != latest
}

fn on_another_base(bundles: &Table<Bundle>, work_id: &str, latest: &str) -> (r: bool)
    ensures
        r == based_on_another(bundles@, work_id@, latest@),
{
    let n: usize = bundles.len();
    let mut i: usize = 0;
    while i < n
        invariant
            n == bundles@.len(),
            i <= n,
            forall|j: int|
                0 <= j < i ==> !((#[trigger] bundles@[j]).work_id == work_id@
                    && bundles@[j].status.is_live() && bundles@[j].base_tick_id is Some
                    && bundles@[j].base_tick_id->0 != latest@),
        decreases n - i,
    {
        let b: &Bundle = bundles.row(i);
        if same(b.work_id.as_str(), work_id) && b.status.live() {
            match &b.base_tick_id {
                Some(base) => {
                    if !same(base.as_str(), latest) {
                        assert(bundles@[i as int].work_id == work_id@);
                        return true;
                    }
                },
                None => {},
            }
        }
        i = i + 1;
    }
    false
}

/// The work items under way whose changes are based on an earlier tick. Before
/// the first published tick there are none.
pub open spec fn stale(
    works: Seq<WorkView>,
    bundles: Seq<BundleView>,
    latest: Option<TickView>,
) -> Seq<WorkView> {
    match latest {
        None => Seq::empty(),
        Some(t) => works.filter(
            |w: WorkView|
                w.status == WorkStatus::InProgress && based_on_another(bundles, w.id, t.id),
        ),
    }
}

/// How many work items under way are based on an earlier tick.
pub fn count_stale(works: &Table<Work>, bundles: &Table<Bundle>, ticks: &Table<Tick>) -> (r: usize)
    ensures
        r == stale(works@, bundles@, latest_published(ticks@)).len(),
{
    let latest: &Tick = match latest_tick(ticks) {
        Some(t) => t,
        None => {
            return 0;
        },
    };
    let ghost keep = |w: WorkView|
        w.status == WorkStatus::InProgress && based_on_another(bundles@, w.id, latest@.id);
    let n: usize = works.len();
    let mut count: usize = 0;
    let mut i: usize = 0;
    proof {
        reveal(Seq::filter);
        assert(works@.take(0) =~= Seq::empty());
    }
    while i < n
        invariant
            n == works@.len(),
            count <= i <= n,
            keep == (|w: WorkView|
                w.status == WorkStatus::InProgress && based_on_another(
                    bundles@,
                    w.id,
                    latest@.id,
                )),
            count == works@.take(i as int).filter(keep).len(),
        decreases n - i,
    {
        let w: &Work = works.row(i);
        proof {
            reveal(Seq::filter);
            assert(works@.take(i + 1).drop_last() =~= works@.take(i as int));
            assert(works@.take(i + 1).last() == w@);
        }
        if w.status == WorkStatus::InProgress && on_another_base(
            bundles,
            w.id.as_str(),
            latest.id.as_str(),
        ) {
            count = count + 1;
        }
        i = i + 1;
    }
    assert(works@.take(n as int) =~= works@);
    count
}

/// How many records there are of each kind.
#[derive(Clone, Copy, Debug, PartialEq, Eq, Structural)]
pub struct Counts {
    pub plans: usize,
    pub specs: usize,
    pub phases: usize,
    pub works: usize,
    pub bundles: usize,
    pub ticks: usize,
    pub learnings: usize,
    pub locks: usize,
    pub agent_sessions: usize,
}

/// How many records of each kind the record store lists. A kind that it cannot
/// list has no number.
#[derive(Clone, Copy, Debug)]
pub struct StoreListing {
    pub plans: Option<usize>,
    pub specs: Option<usize>,
    pub phases: Option<usize>,
    pub works: Option<usize>,
    pub bundles: Option<usize>,
    pub ticks: Option<usize>,
    pub learnings: Option<usize>,
    pub locks: Option<usize>,
}

/// How many records of each kind the record store reports.
#[derive(Clone, Copy, Debug, PartialEq, Eq, Structural)]
pub struct StoreCounts {
    pub plans: usize,
    pub specs: usize,
    pub phases: usize,
    pub works: usize,
    pub bundles: usize,
    pub ticks: usize,
    pub learnings: usize,
    pub locks: usize,
}

/// The number, or none at all where there is none.
pub open spec fn or_zero(n: Option<usize>) -> usize {
    match n {
        Some(n) => n,
        None => 0,
    }
}

/// The numbers that are reported for a listing.
pub open spec fn reported(l: StoreListing) -> StoreCounts {
    StoreCounts {
        plans: or_zero(l.plans),
        specs: or_zero(l.specs),
        phases: or_zero(l.phases),
        works: or_zero(l.works),
        bundles: or_zero(l.bundles),
        ticks: or_zero(l.ticks),
        learnings: or_zero(l.learnings),
        locks: or_zero(l.locks),
    }
}

fn number(n: Option<usize>) -> (r: usize)
    ensures
        r == or_zero(n),
{
    match n {
        Some(n) => n,
        None => 0,
    }
}

fn report(l: &StoreListing) -> (r: StoreCounts)
    ensures
        r == reported(*l),
{
    StoreCounts {
        plans: number(l.plans),
        specs: number(l.specs),
        phases: number(l.phases),
        works: number(l.works),
        bundles: number(l.bundles),
        ticks: number(l.ticks),
        learnings: number(l.learnings),
        locks: number(l.locks),
    }
}

/// What the last comparison of memory with the record store found.
#[derive(Clone, Copy, Debug, PartialEq, Eq, Structural)]
pub struct Reconciliation {
    pub last_sweep_at: i64,
    pub checked: u64,
    pub fixed: u64,
    pub catastrophic: u64,
    pub degraded: bool,
}

/// What the daemon knows of itself besides its records.
#[derive(Debug)]
pub struct Vitals {
    pub version: String,
    pub pid: u32,
    /// The directory of the session, where it has one.
    pub session_dir: Option<String>,
    pub learnings: usize,
    pub locks: usize,
    /// What the record store lists, where there is one.
    pub taskstore: Option<StoreListing>,
    pub reconciliation: Reconciliation,
}

/// The state of the daemon.
#[derive(Debug)]
pub struct SystemStatus {
    pub version: String,
    pub pid: u32,
    pub counts: Counts,
    pub taskstore: Option<StoreCounts>,
    pub current_tick_sha: Option<String>,
    pub stale_works: usize,
    pub session_id: Option<String>,
    pub reconciliation: Reconciliation,
}

#[verifier::ext_equal]
pub struct SystemStatusView {
    pub version: Seq<char>,
    pub pid: u32,
    pub counts: Counts,
    pub taskstore: Option<StoreCounts>,
    pub current_tick_sha: Option<Seq<char>>,
    pub stale_works: int,
    pub session_id: Option<Seq<char>>,
    pub reconciliation: Reconciliation,
}

impl View for SystemStatus {
    type V = SystemStatusView;

    open spec fn view(&self) -> SystemStatusView {
        SystemStatusView {
            version: self.version@,
            pid: self.pid,
            counts: self.counts,
            taskstore: self.taskstore,
            current_tick_sha: opt_text(self.current_tick_sha),
            stale_works: self.stale_works as int,
            session_id: opt_text(self.session_id),
            reconciliation: self.reconciliation,
        }
    }
}

/// How many records there are of each kind.
pub open spec fn counted(s: StoresView, learnings: usize, locks: usize) -> Counts {
    Counts {
        plans: s.plans.len() as usize,
        specs: s.specs.len() as usize,
        phases: s.phases.len() as usize,
        works: s.works.len() as usize,
        bundles: s.bundles.len() as usize,
        ticks: s.ticks.len() as usize,
        learnings,
        locks,
        agent_sessions: s.agent_sessions.len() as usize,
    }
}

/// The id of the session that has the directory.
pub open spec fn session_of(dir: Option<Seq<char>>) -> Option<Seq<char>> {
    match dir {
        Some(dir) => last_component(dir),
        None => None,
    }
}

/// The state of the daemon.
pub open spec fn system_status(s: StoresView, v: Vitals) -> SystemStatusView {
    SystemStatusView {
        version: v.version@,
        pid: v.pid,
        counts: counted(s, v.learnings, v.locks),
        taskstore: match v.taskstore {
            Some(l) => Some(reported(l)),
            None => None,
        },
        current_tick_sha: match latest_published(s.ticks) {
            Some(t) => t.integration_sha,
            None => None,
        },
        stale_works: stale(s.works, s.bundles, latest_published(s.ticks)).len() as int,
        session_id: session_of(opt_text(v.session_dir)),
        reconciliation: v.reconciliation,
    }
}

/// Answers a request for the state of the daemon. The session is named by the
/// last component of its directory.
pub fn handle_status(stores: &Stores, req: &DaemonRequest, vitals: &Vitals) -> (r: Outcome<
    SystemStatus,
>)
    ensures
        answers(r, req.id, Reply::Value(system_status(stores@, *vitals)), Seq::empty()),
{
    let session_id: Option<String> = match &vitals.session_dir {
        Some(dir) => file_name(dir.as_str()),
        None => None,
    };
    let counts: Counts = Counts {
        plans: stores.plans.len(),
        specs: stores.specs.len(),
        phases: stores.phases.len(),
        works: stores.works.len(),
        bundles: stores.bundles.len(),
        ticks: stores.ticks.len(),
        learnings: vitals.learnings,
        locks: vitals.locks,
        agent_sessions: stores.agent_sessions.len(),
    };
    let taskstore: Option<StoreCounts> = match &vitals.taskstore {
        Some(l) => Some(report(l)),
        None => None,
    };
    let current_tick_sha: Option<String> = match latest_tick(&stores.ticks) {
        Some(t) => copy_opt(&t.integration_sha),
        None => None,
    };
    let stale_works: usize = count_stale(&stores.works, &stores.bundles, &stores.ticks);
    Outcome::ok(
        req.id,
        SystemStatus {
            version: copy(vitals.version.as_str()),
            pid: vitals.pid,
            counts,
            taskstore,
            current_tick_sha,
            stale_works,
            session_id,
            reconciliation: vitals.reconciliation,
        },
    )
}

/// The answer to a request to shut down.
#[derive(Debug)]
pub struct ShutdownReport {
    pub status: String,
}

impl View for ShutdownReport {
    type V = Seq<char>;

    open spec fn view(&self) -> Seq<char> {
        self.status@
    }
}

/// Answers a request to shut down. The event is what ends the daemon.
pub fn handle_shutdown(req: &DaemonRequest) -> (r: Outcome<ShutdownReport>)
    ensures
        answers(
            r,
            req.id,
            Reply::Value("shutting_down"@),
            seq![DaemonEventView::ShutdownRequested],
        ),
{
    Outcome::ok_and_tell(
        req.id,
        ShutdownReport { status: copy("shutting_down") },
        DaemonEvent::ShutdownRequested,
    )
}

/// The answer to a request to recover.
#[derive(Clone, Copy, Debug, PartialEq, Eq, Structural)]
pub struct RecoverReport {
    pub was_degraded: bool,
    pub degraded: bool,
}

impl View for RecoverReport {
    type V = RecoverReport;

    open spec fn view(&self) -> RecoverReport {
        *self
    }
}

/// Answers a request to recover: the daemon no longer counts as degraded.
pub fn handle_recover(degraded: &mut bool, req: &DaemonRequest) -> (r: Outcome<RecoverReport>)
    ensures
        !*final(degraded),
        answers(
            r,
            req.id,
            Reply::Value(RecoverReport { was_degraded: *old(degraded), degraded: false }),
            Seq::empty(),
        ),
{
    let was_degraded: bool = *degraded;
    *degraded = false;
    Outcome::ok(req.id, RecoverReport { was_degraded, degraded: false })
}

/// The latest tick is published, and no published tick has a higher number.
pub proof fn latest_is_highest(ticks: Seq<TickView>)
    ensures
        match latest_published(ticks) {
            Some(t) => ticks.contains(t) && t.status is Published,
            None => true,
        },
        forall|i: int|
            0 <= i < ticks.len() && (#[trigger] ticks[i]).status is Published ==> {
                latest_published(ticks) matches Some(t) && ticks[i].number <= t.number
            },
    decreases ticks.len(),
{
    if ticks.len() > 0 {
        let before = ticks.drop_last();
        latest_is_highest(before);
        assert(ticks[ticks.len() - 1] == ticks.last());
        match latest_published(before) {
            Some(t) => {
                let k = choose|k: int| 0 <= k < before.len() && before[k] == t;
                assert(ticks[k] == t);
            },
            None => {},
        }
        assert forall|i: int|
            0 <= i < ticks.len() && (#[trigger] ticks[i]).status is Published implies {
            latest_published(ticks) matches Some(t) && ticks[i].number <= t.number
        } by {
            if i < before.len() {
                assert(before[i] == ticks[i]);
            }
        }
    }
}

/// A handshake tells the version on both sides and says that they match exactly
/// if the client names its version and it is the daemon's, or names none and the
/// daemon's is unknown. It tells the session and the protocol whatever the
/// client says.
pub proof fn a_handshake_compares_versions(
    server: Seq<char>,
    session: Seq<char>,
    client: Seq<char>,
)
    ensures
        greeting(server, session, Some(client)).version_match <==> client == server,
        greeting(server, session, Some(client)).client_version == client,
        greeting(server, session, None).client_version == "unknown"@,
        greeting(server, session, None).version_match <==> server == "unknown"@,
        forall|c: Option<Seq<char>>|
            {
                let g = #[trigger] greeting(server, session, c);
                g.server_version == server && g.session_id == session && g.protocol == "ndjson/1"@
            },
{
}

/// Whether the work item is under way with a bundle that is neither merged, nor
/// turned down, nor replaced, and that starts from another tick than the one
/// given.
pub open spec fn is_behind(w: WorkView, bundles: Seq<BundleView>, tick: Seq<char>) -> bool {
    w.status == WorkStatus::InProgress && exists|i: int|
        0 <= i < bundles.len() && (#[trigger] bundles[i]).work_id == w.id && (bundles[i].status
            == BundleStatus::Proposed || bundles[i].status == BundleStatus::Triaged
            || bundles[i].status == BundleStatus::Reviewed || bundles[i].status
            == BundleStatus::Accepted) && (bundles[i].base_tick_id matches Some(base) && base
            != tick)
}

/// The stale work items are exactly those that are behind the latest published
/// tick; before the first one there are none.
pub proof fn stale_work_is_behind_the_latest_tick(
    works: Seq<WorkView>,
    bundles: Seq<BundleView>,
    latest: TickView,
)
    ensures
        stale(works, bundles, None).len() == 0,
        holds_those(
            works,
            |w: WorkView| is_behind(w, bundles, latest.id),
            stale(works, bundles, Some(latest)),
        ),
{
    let keep = |w: WorkView|
        w.status == WorkStatus::InProgress && based_on_another(bundles, w.id, latest.id);
    let behind = |w: WorkView| is_behind(w, bundles, latest.id);
    assert forall|k: int| 0 <= k < works.len() implies keep(#[trigger] works[k]) == behind(
        works[k],
    ) by {
        let w = works[k];
        if keep(w) {
            let i = choose|i: int|
                0 <= i < bundles.len() && (#[trigger] bundles[i]).work_id == w.id
                    && bundles[i].status.is_live() && bundles[i].base_tick_id is Some
                    && bundles[i].base_tick_id->0 != latest.id;
            assert(bundles[i].work_id == w.id);
        }
        if behind(w) {
            let i = choose|i: int|
                0 <= i < bundles.len() && (#[trigger] bundles[i]).work_id == w.id && (
                bundles[i].status == BundleStatus::Proposed || bundles[i].status
                    == BundleStatus::Triaged || bundles[i].status == BundleStatus::Reviewed
                    || bundles[i].status == BundleStatus::Accepted) && (
                bundles[i].base_tick_id matches Some(base) && base != latest.id);
            assert(bundles[i].work_id == w.id);
        }
    }
    filter_holds_those(works, keep, behind);
}

/// Of the published ticks with the highest number, the latest is the one that
/// stands last.
pub proof fn of_equal_ticks_the_last_counts(ticks: Seq<TickView>, i: int)
    requires
        0 <= i < ticks.len(),
        ticks[i].status == TickStatus::Published,
        forall|j: int|
            0 <= j < ticks.len() && (#[trigger] ticks[j]).status == TickStatus::Published ==> (j <= i
                ==> ticks[j].number <= ticks[i].number) && (j > i ==> ticks[j].number
                < ticks[i].number),
    ensures
        latest_published(ticks) == Some(ticks[i]),
    decreases ticks.len(),
{
    let before = ticks.drop_last();
    let n = ticks.len() - 1;
    assert(ticks[n] == ticks.last());
    latest_is_highest(before);
    if i < n {
        assert forall|j: int|
            0 <= j < before.len() && (#[trigger] before[j]).status
                == TickStatus::Published implies (j <= i ==> before[j].number <= before[i].number)
            && (j > i ==> before[j].number < before[i].number) by {
            assert(ticks[j] == before[j]);
        }
        of_equal_ticks_the_last_counts(before, i);
    } else if let Some(t) = latest_published(before) {
        let k = choose|k: int| 0 <= k < before.len() && before[k] == t;
        assert(ticks[k] == t);
    }
}

/// The state of the daemon counts each kind of record it holds, reports each
/// kind that the record store lists under that kind, names the commit of the
/// latest published tick and the session by its directory, and hands on the rest
/// as it is.
pub proof fn the_status_reports_what_there_is(s: StoresView, v: Vitals)
    requires
        s.plans.len() <= usize::MAX && s.specs.len() <= usize::MAX && s.phases.len() <= usize::MAX,
        s.works.len() <= usize::MAX && s.bundles.len() <= usize::MAX,
        s.ticks.len() <= usize::MAX && s.agent_sessions.len() <= usize::MAX,
    ensures
        ({
            let st = system_status(s, v);
            let c = st.counts;
            &&& c.plans == s.plans.len() && c.specs == s.specs.len() && c.phases == s.phases.len()
            &&& c.works == s.works.len() && c.bundles == s.bundles.len() && c.ticks == s.ticks.len()
            &&& c.agent_sessions == s.agent_sessions.len()
            &&& c.learnings == v.learnings && c.locks == v.locks
            &&& v.taskstore is None ==> st.taskstore is None
            &&& v.taskstore matches Some(l) ==> st.taskstore matches Some(r) && {
                &&& l.plans matches Some(n) ==> r.plans == n
                &&& l.specs matches Some(n) ==> r.specs == n
                &&& l.phases matches Some(n) ==> r.phases == n
                &&& l.works matches Some(n) ==> r.works == n
                &&& l.bundles matches Some(n) ==> r.bundles == n
                &&& l.ticks matches Some(n) ==> r.ticks == n
                &&& l.learnings matches Some(n) ==> r.learnings == n
                &&& l.locks matches Some(n) ==> r.locks == n
                &&& l.plans is None ==> r.plans == 0
                &&& l.specs is None ==> r.specs == 0
                &&& l.phases is None ==> r.phases == 0
                &&& l.works is None ==> r.works == 0
                &&& l.bundles is None ==> r.bundles == 0
                &&& l.ticks is None ==> r.ticks == 0
                &&& l.learnings is None ==> r.learnings == 0
                &&& l.locks is None ==> r.locks == 0
            }
            &&& match latest_published(s.ticks) {
                Some(t) => st.current_tick_sha == t.integration_sha,
                None => st.current_tick_sha is None,
            }
            &&& st.stale_works == stale(s.works, s.bundles, latest_published(s.ticks)).len()
            &&& match v.session_dir {
                Some(dir) => st.session_id == last_component(dir@),
                None => st.session_id is None,
            }
            &&& st.version == v.version@ && st.pid == v.pid && st.reconciliation
                == v.reconciliation
        }),
{
}

/// The record store has a collection for each kind of record, ten in all.
pub proof fn each_kind_of_record_has_a_collection()
    ensures
        collection_names().len() == 10,
        collection_names().contains("plans"@) && collection_names().contains("specs"@),
        collection_names().contains("phases"@) && collection_names().contains("works"@),
        collection_names().contains("bundles"@) && collection_names().contains("ticks"@),
        collection_names().contains("learnings"@) && collection_names().contains("locks"@),
        collection_names().contains("coordinator_goals"@),
        collection_names().contains("agent_sessions"@),
{
    let c = collection_names();
    assert(c[0] == "plans"@ && c[1] == "specs"@ && c[2] == "phases"@ && c[3] == "works"@);
    assert(c[4] == "bundles"@ && c[5] == "ticks"@ && c[6] == "learnings"@ && c[7] == "locks"@);
    assert(c[8] == "coordinator_goals"@ && c[9] == "agent_sessions"@);
}

} // verus!
