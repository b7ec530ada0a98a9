//! The records that the daemon keeps.

use crate::status::{
    AgentStatus, AgentType, BundleStatus, HierarchyStatus, LoopStatus, LoopType, TickStatus,
    WorkStatus,
};
use crate::table::{Keyed, Record};
use crate::text::{copy, copy_all, copy_opt, opt_text, texts};
use vstd::prelude::*;

verus! {

/// A plan: the root of a hierarchy of specs, phases and work items.
#[derive(Debug, Clone)]
pub struct Plan {
    pub id: String,
    pub title: String,
    pub description: String,
    pub acceptance_criteria: String,
    pub status: HierarchyStatus,
    pub created_at: i64,
    pub updated_at: i64,
}

#[verifier::ext_equal]
pub struct PlanView {
    pub id: Seq<char>,
    pub title: Seq<char>,
    pub description: Seq<char>,
    pub acceptance_criteria: Seq<char>,
    pub status: HierarchyStatus,
    pub created_at: i64,
    pub updated_at: i64,
}

impl View for Plan {
    type V = PlanView;

    open spec fn view(&self) -> PlanView {
        PlanView {
            id: self.id@,
            title: self.title@,
            description: self.description@,
            acceptance_criteria: self.acceptance_criteria@,
            status: self.status,
            created_at: self.created_at,
            updated_at: self.updated_at,
        }
    }
}

impl Keyed for PlanView {
    open spec fn key(self) -> Seq<char> {
        self.id
    }
}

impl Record for Plan {
    fn id(&self) -> (r: &str) {
        self.id.as_str()
    }

    fn copied(&self) -> (r: Self) {
        Plan {
            id: copy(&self.id),
            title: copy(&self.title),
            description: copy(&self.description),
            acceptance_criteria: copy(&self.acceptance_criteria),
            status: self.status,
            created_at: self.created_at,
            updated_at: self.updated_at,
        }
    }
}

impl Plan {
    /// A draft made at the time `now`.
    pub fn new(
        id: String,
        title: String,
        description: String,
        acceptance_criteria: String,
        now: i64,
    ) -> (r: Self)
        ensures
            r@ == (PlanView {
                id: id@,
                title: title@,
                description: description@,
                acceptance_criteria: acceptance_criteria@,
                status: HierarchyStatus::Draft,
                created_at: now,
                updated_at: now,
            }),
    {
        Plan {
            id,
            title,
            description,
            acceptance_criteria,
            status: HierarchyStatus::Draft,
            created_at: now,
            updated_at: now,
        }
    }
}

/// A spec: one part of a plan.
#[derive(Debug, Clone)]
pub struct Spec {
    pub id: String,
    pub parent_id: String,
    pub title: String,
    pub order: u32,
    pub status: HierarchyStatus,
    pub created_at: i64,
    pub updated_at: i64,
}

#[verifier::ext_equal]
pub struct SpecView {
    pub id: Seq<char>,
    pub parent_id: Seq<char>,
    pub title: Seq<char>,
    pub order: u32,
    pub status: HierarchyStatus,
    pub created_at: i64,
    pub updated_at: i64,
}

impl View for Spec {
    type V = SpecView;

    open spec fn view(&self) -> SpecView {
        SpecView {
            id: self.id@,
            parent_id: self.parent_id@,
            title: self.title@,
            order: self.order,
            status: self.status,
            created_at: self.created_at,
            updated_at: self.updated_at,
        }
    }
}

impl Keyed for SpecView {
    open spec fn key(self) -> Seq<char> {
        self.id
    }
}

impl Record for Spec {
    fn id(&self) -> (r: &str) {
        self.id.as_str()
    }

    fn copied(&self) -> (r: Self) {
        Spec {
            id: copy(&self.id),
            parent_id: copy(&self.parent_id),
            title: copy(&self.title),
            order: self.order,
            status: self.status,
            created_at: self.created_at,
            updated_at: self.updated_at,
        }
    }
}

impl Spec {
    /// A draft made at the time `now`.
    pub fn new(id: String, parent_id: String, title: String, order: u32, now: i64) -> (r: Self)
        ensures
            r@ == (SpecView {
                id: id@,
                parent_id: parent_id@,
                title: title@,
                order,
                status: HierarchyStatus::Draft,
                created_at: now,
                updated_at: now,
            }),
    {
        Spec {
            id,
            parent_id,
            title,
            order,
            status: HierarchyStatus::Draft,
            created_at: now,
            updated_at: now,
        }
    }
}

/// A phase: one step of a spec.
#[derive(Debug, Clone)]
pub struct Phase {
    pub id: String,
    pub parent_id: String,
    pub title: String,
    pub description: String,
    pub order: u32,
    pub status: HierarchyStatus,
    pub created_at: i64,
    pub updated_at: i64,
}

#[verifier::ext_equal]
pub struct PhaseView {
    pub id: Seq<char>,
    pub parent_id: Seq<char>,
    pub title: Seq<char>,
    pub description: Seq<char>,
    pub order: u32,
    pub status: HierarchyStatus,
    pub created_at: i64,
    pub updated_at: i64,
}

impl View for Phase {
    type V = PhaseView;

    open spec fn view(&self) -> PhaseView {
        PhaseView {
            id: self.id@,
            parent_id: self.parent_id@,
            title: self.title@,
            description: self.description@,
            order: self.order,
            status: self.status,
            created_at: self.created_at,
            updated_at: self.updated_at,
        }
    }
}

impl Keyed for PhaseView {
    open spec fn key(self) -> Seq<char> {
        self.id
    }
}

impl Record for Phase {
    fn id(&self) -> (r: &str) {
        self.id.as_str()
    }

    fn copied(&self) -> (r: Self) {
        Phase {
            id: copy(&self.id),
            parent_id: copy(&self.parent_id),
            title: copy(&self.title),
            description: copy(&self.description),
            order: self.order,
            status: self.status,
            created_at: self.created_at,
            updated_at: self.updated_at,
        }
    }
}

impl Phase {
    /// A draft made at the time `now`.
    pub fn new(
        id: String,
        parent_id: String,
        title: String,
        description: String,
        order: u32,
        now: i64,
    ) -> (r: Self)
        ensures
            r@ == (PhaseView {
                id: id@,
                parent_id: parent_id@,
                title: title@,
                description: description@,
                order,
                status: HierarchyStatus::Draft,
                created_at: now,
                updated_at: now,
            }),
    {
        Phase {
            id,
            parent_id,
            title,
            description,
            order,
            status: HierarchyStatus::Draft,
            created_at: now,
            updated_at: now,
        }
    }
}

/// A work item under a phase, or directly under a plan.
#[derive(Debug, Clone)]
pub struct Work {
    pub id: String,
    pub parent_id: String,
    pub title: String,
    pub assignee: Option<String>,
    pub files: Vec<String>,
    pub acceptance_criteria: Vec<String>,
    /// The ids of the work items that have to be done before this one.
    pub dependencies: Vec<String>,
    pub status: WorkStatus,
    /// How often the item was put back to `Ready` after work on it had begun.
    pub attempt_count: u32,
    pub created_at: i64,
    pub updated_at: i64,
}

#[verifier::ext_equal]
pub struct WorkView {
    pub id: Seq<char>,
    pub parent_id: Seq<char>,
    pub title: Seq<char>,
    pub assignee: Option<Seq<char>>,
    pub files: Seq<Seq<char>>,
    pub acceptance_criteria: Seq<Seq<char>>,
    pub dependencies: Seq<Seq<char>>,
    pub status: WorkStatus,
    pub attempt_count: u32,
    pub created_at: i64,
    pub updated_at: i64,
}

impl View for Work {
    type V = WorkView;

    open spec fn view(&self) -> WorkView {
        WorkView {
            id: self.id@,
            parent_id: self.parent_id@,
            title: self.title@,
            assignee: opt_text(self.assignee),
            files: texts(self.files@),
            acceptance_criteria: texts(self.acceptance_criteria@),
            dependencies: texts(self.dependencies@),
            status: self.status,
            attempt_count: self.attempt_count,
            created_at: self.created_at,
            updated_at: self.updated_at,
        }
    }
}

impl Keyed for WorkView {
    open spec fn key(self) -> Seq<char> {
        self.id
    }
}

impl Record for Work {
    fn id(&self) -> (r: &str) {
        self.id.as_str()
    }

    fn copied(&self) -> (r: Self) {
        Work {
            id: copy(&self.id),
            parent_id: copy(&self.parent_id),
            title: copy(&self.title),
            assignee: copy_opt(&self.assignee),
            files: copy_all(&self.files),
            acceptance_criteria: copy_all(&self.acceptance_criteria),
            dependencies: copy_all(&self.dependencies),
            status: self.status,
            attempt_count: self.attempt_count,
            created_at: self.created_at,
            updated_at: self.updated_at,
        }
    }
}

impl Work {
    /// A draft made at the time `now`: unassigned, without files, acceptance
    /// criteria or dependencies.
    pub fn new(id: String, parent_id: String, title: String, now: i64) -> (r: Self)
        ensures
            r@ == (WorkView {
                id: id@,
                parent_id: parent_id@,
                title: title@,
                assignee: None,
                files: Seq::empty(),
                acceptance_criteria: Seq::empty(),
                dependencies: Seq::empty(),
                status: WorkStatus::Draft,
                attempt_count: 0,
                created_at: now,
                updated_at: now,
            }),
    {
        let r = Work {
            id,
            parent_id,
            title,
            assignee: None,
            files: Vec::new(),
            acceptance_criteria: Vec::new(),
            dependencies: Vec::new(),
            status: WorkStatus::Draft,
            attempt_count: 0,
            created_at: now,
            updated_at: now,
        };
        assert(texts(Seq::<String>::empty()) =~= Seq::<Seq<char>>::empty());
        r
    }
}

/// A tick: one round of integration.
#[derive(Debug, Clone)]
pub struct Tick {
    pub id: String,
    pub number: u32,
    pub status: TickStatus,
    pub integration_sha: Option<String>,
    pub validation_log: String,
    pub bundle_ids: Vec<String>,
    pub attempted_bundle_ids: Vec<String>,
    pub created_at: i64,
    pub updated_at: i64,
}

#[verifier::ext_equal]
pub struct TickView {
    pub id: Seq<char>,
    pub number: u32,
    pub status: TickStatus,
    pub integration_sha: Option<Seq<char>>,
    pub validation_log: Seq<char>,
    pub bundle_ids: Seq<Seq<char>>,
    pub attempted_bundle_ids: Seq<Seq<char>>,
    pub created_at: i64,
    pub updated_at: i64,
}

impl View for Tick {
    type V = TickView;

    open spec fn view(&self) -> TickView {
        TickView {
            id: self.id@,
            number: self.number,
            status: self.status,
            integration_sha: opt_text(self.integration_sha),
            validation_log: self.validation_log@,
            bundle_ids: texts(self.bundle_ids@),
            attempted_bundle_ids: texts(self.attempted_bundle_ids@),
            created_at: self.created_at,
            updated_at: self.updated_at,
        }
    }
}

impl Keyed for TickView {
    open spec fn key(self) -> Seq<char> {
        self.id
    }
}

impl Record for Tick {
    fn id(&self) -> (r: &str) {
        self.id.as_str()
    }

    fn copied(&self) -> (r: Self) {
        Tick {
            id: copy(&self.id),
            number: self.number,
            status: self.status,
            integration_sha: copy_opt(&self.integration_sha),
            validation_log: copy(&self.validation_log),
            bundle_ids: copy_all(&self.bundle_ids),
            attempted_bundle_ids: copy_all(&self.attempted_bundle_ids),
            created_at: self.created_at,
            updated_at: self.updated_at,
        }
    }
}

impl Tick {
    /// An open tick made at the time `now`.
    pub fn new(id: String, number: u32, now: i64) -> (r: Self)
        ensures
            r@ == (TickView {
                id: id@,
                number,
                status: TickStatus::Open,
                integration_sha: None,
                validation_log: Seq::empty(),
                bundle_ids: Seq::empty(),
                attempted_bundle_ids: Seq::empty(),
                created_at: now,
                updated_at: now,
            }),
    {
        let r = Tick {
            id,
            number,
            status: TickStatus::Open,
            integration_sha: None,
            validation_log: String::new(),
            bundle_ids: Vec::new(),
            attempted_bundle_ids: Vec::new(),
            created_at: now,
            updated_at: now,
        };
        assert(texts(Seq::<String>::empty()) =~= Seq::<Seq<char>>::empty());
        r
    }
}

/// A bundle of changes for a work item, as far as the daemon looks into it.
#[derive(Debug, Clone)]
pub struct Bundle {
    pub id: String,
    pub work_id: String,
    /// The tick that the changes are based on.
    pub base_tick_id: Option<String>,
    pub status: BundleStatus,
}

#[verifier::ext_equal]
pub struct BundleView {
    pub id: Seq<char>,
    pub work_id: Seq<char>,
    pub base_tick_id: Option<Seq<char>>,
    pub status: BundleStatus,
}

impl View for Bundle {
    type V = BundleView;

    open spec fn view(&self) -> BundleView {
        BundleView {
            id: self.id@,
            work_id: self.work_id@,
            base_tick_id: opt_text(self.base_tick_id),
            status: self.status,
        }
    }
}

impl Keyed for BundleView {
    open spec fn key(self) -> Seq<char> {
        self.id
    }
}

impl Record for Bundle {
    fn id(&self) -> (r: &str) {
        self.id.as_str()
    }

    fn copied(&self) -> (r: Self) {
        Bundle {
            id: copy(&self.id),
            work_id: copy(&self.work_id),
            base_tick_id: copy_opt(&self.base_tick_id),
            status: self.status,
        }
    }
}

/// An agent session.
#[derive(Debug, Clone)]
pub struct AgentSession {
    pub id: String,
    pub agent_type: AgentType,
    pub status: AgentStatus,
}

#[verifier::ext_equal]
pub struct AgentSessionView {
    pub id: Seq<char>,
    pub agent_type: AgentType,
    pub status: AgentStatus,
}

impl View for AgentSession {
    type V = AgentSessionView;

    open spec fn view(&self) -> AgentSessionView {
        AgentSessionView { id: self.id@, agent_type: self.agent_type, status: self.status }
    }
}

impl Keyed for AgentSessionView {
    open spec fn key(self) -> Seq<char> {
        self.id
    }
}

impl Record for AgentSession {
    fn id(&self) -> (r: &str) {
        self.id.as_str()
    }

    fn copied(&self) -> (r: Self) {
        AgentSession { id: copy(&self.id), agent_type: self.agent_type, status: self.status }
    }
}

/// A command that agents can run under a name.
#[derive(Debug, Clone)]
pub struct ToolEntry {
    pub name: String,
    pub command: String,
    pub timeout_secs: u64,
    /// Whether the command runs in the work item's worktree.
    pub worktree: bool,
}

#[verifier::ext_equal]
pub struct ToolEntryView {
    pub name: Seq<char>,
    pub command: Seq<char>,
    pub timeout_secs: u64,
    pub worktree: bool,
}

impl View for ToolEntry {
    type V = ToolEntryView;

    open spec fn view(&self) -> ToolEntryView {
        ToolEntryView {
            name: self.name@,
            command: self.command@,
            timeout_secs: self.timeout_secs,
            worktree: self.worktree,
        }
    }
}

impl Keyed for ToolEntryView {
    open spec fn key(self) -> Seq<char> {
        self.name
    }
}

impl Record for ToolEntry {
    fn id(&self) -> (r: &str) {
        self.name.as_str()
    }

    fn copied(&self) -> (r: Self) {
        ToolEntry {
            name: copy(&self.name),
            command: copy(&self.command),
            timeout_secs: self.timeout_secs,
            worktree: self.worktree,
        }
    }
}

/// A loop: a prompt that is iterated in a worktree until its validation passes.
#[derive(Debug, Clone)]
pub struct Loop {
    pub id: String,
    pub loop_type: LoopType,
    pub parent_id: Option<String>,
    pub input_artifact: Option<String>,
    pub output_artifacts: Vec<String>,
    pub prompt_path: String,
    pub validation_command: String,
    pub max_iterations: u32,
    pub worktree: String,
    pub iteration: u32,
    pub status: LoopStatus,
    pub progress: String,
    /// Further data on the loop, as JSON text.
    pub context: String,
    pub created_at: i64,
    pub updated_at: i64,
}

#[verifier::ext_equal]
pub struct LoopView {
    pub id: Seq<char>,
    pub loop_type: LoopType,
    pub parent_id: Option<Seq<char>>,
    pub input_artifact: Option<Seq<char>>,
    pub output_artifacts: Seq<Seq<char>>,
    pub prompt_path: Seq<char>,
    pub validation_command: Seq<char>,
    pub max_iterations: u32,
    pub worktree: Seq<char>,
    pub iteration: u32,
    pub status: LoopStatus,
    pub progress: Seq<char>,
    pub context: Seq<char>,
    pub created_at: i64,
    pub updated_at: i64,
}

impl View for Loop {
    type V = LoopView;

    open spec fn view(&self) -> LoopView {
        LoopView {
            id: self.id@,
            loop_type: self.loop_type,
            parent_id: opt_text(self.parent_id),
            input_artifact: opt_text(self.input_artifact),
            output_artifacts: texts(self.output_artifacts@),
            prompt_path: self.prompt_path@,
            validation_command: self.validation_command@,
            max_iterations: self.max_iterations,
            worktree: self.worktree@,
            iteration: self.iteration,
            status: self.status,
            progress: self.progress@,
            context: self.context@,
            created_at: self.created_at,
            updated_at: self.updated_at,
        }
    }
}

impl Keyed for LoopView {
    open spec fn key(self) -> Seq<char> {
        self.id
    }
}

impl Record for Loop {
    fn id(&self) -> (r: &str) {
        self.id.as_str()
    }

    fn copied(&self) -> (r: Self) {
        Loop {
            id: copy(&self.id),
            loop_type: self.loop_type,
            parent_id: copy_opt(&self.parent_id),
            input_artifact: copy_opt(&self.input_artifact),
            output_artifacts: copy_all(&self.output_artifacts),
            prompt_path: copy(&self.prompt_path),
            validation_command: copy(&self.validation_command),
            max_iterations: self.max_iterations,
            worktree: copy(&self.worktree),
            iteration: self.iteration,
            status: self.status,
            progress: copy(&self.progress),
            context: copy(&self.context),
            created_at: self.created_at,
            updated_at: self.updated_at,
        }
    }
}

} // verus!
