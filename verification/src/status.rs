//! The stages that records pass through, the roles that move them, and the
//! names by which both are written.

use crate::text::same;
use vstd::prelude::*;

verus! {

/// The stage of a plan, a spec or a phase.
#[derive(Clone, Copy, Debug, PartialEq, Eq, Structural)]
pub enum HierarchyStatus {
    /// Written, not yet at work.
    Draft,
    /// At work.
    Active,
    /// Finished.
    Complete,
    /// Given up.
    Abandoned,
}

impl HierarchyStatus {
    /// The name under which the stage is written.
    pub open spec fn shown(self) -> Seq<char> {
        match self {
            HierarchyStatus::Draft => "draft"@,
            HierarchyStatus::Active => "active"@,
            HierarchyStatus::Complete => "complete"@,
            HierarchyStatus::Abandoned => "abandoned"@,
        }
    }

    /// The name under which the stage is written.
    pub fn name(self) -> (r: &'static str)
        ensures
            r@ == self.shown(),
    {
        match self {
            HierarchyStatus::Draft => "draft",
            HierarchyStatus::Active => "active",
            HierarchyStatus::Complete => "complete",
            HierarchyStatus::Abandoned => "abandoned",
        }
    }

    /// The name of the variant.
    pub open spec fn variant_shown(self) -> Seq<char> {
        match self {
            HierarchyStatus::Draft => "Draft"@,
            HierarchyStatus::Active => "Active"@,
            HierarchyStatus::Complete => "Complete"@,
            HierarchyStatus::Abandoned => "Abandoned"@,
        }
    }

    /// The name of the variant.
    pub fn variant_name(self) -> (r: &'static str)
        ensures
            r@ == self.variant_shown(),
    {
        match self {
            HierarchyStatus::Draft => "Draft",
            HierarchyStatus::Active => "Active",
            HierarchyStatus::Complete => "Complete",
            HierarchyStatus::Abandoned => "Abandoned",
        }
    }

    /// The stage that a name stands for, as it is written.
    pub open spec fn of_name(s: Seq<char>) -> Option<HierarchyStatus> {
        if s == "draft"@ {
            Some(HierarchyStatus::Draft)
        } else if s == "active"@ {
            Some(HierarchyStatus::Active)
        } else if s == "complete"@ {
            Some(HierarchyStatus::Complete)
        } else if s == "abandoned"@ {
            Some(HierarchyStatus::Abandoned)
        } else {
            None
        }
    }

    /// The stage that a name stands for, as it is written.
    pub fn from_name(s: &str) -> (r: Option<HierarchyStatus>)
        ensures
            r == HierarchyStatus::of_name(s@),
    {
        if same(s, "draft") {
            Some(HierarchyStatus::Draft)
        } else if same(s, "active") {
            Some(HierarchyStatus::Active)
        } else if same(s, "complete") {
            Some(HierarchyStatus::Complete)
        } else if same(s, "abandoned") {
            Some(HierarchyStatus::Abandoned)
        } else {
            None
        }
    }

    /// Whether nothing more is created under a record in this stage.
    pub open spec fn is_closed(self) -> bool {
        self is Complete || self is Abandoned
    }

    /// Whether nothing more is created under a record in this stage.
    pub fn closed(self) -> (r: bool)
        ensures
            r == self.is_closed(),
    {
        matches!(self, HierarchyStatus::Complete | HierarchyStatus::Abandoned)
    }
}

/// The stage of a work item.
#[derive(Clone, Copy, Debug, PartialEq, Eq, Structural)]
pub enum WorkStatus {
    /// Written, without acceptance criteria yet.
    Draft,
    /// Open to be taken up.
    Ready,
    /// Taken up by its assignee.
    InProgress,
    /// Under review with its bundle.
    InReview,
    /// Merged into a tick.
    Integrated,
    /// Finished.
    Done,
    /// Held up by its dependencies.
    Blocked,
    /// Given up.
    Abandoned,
}

impl WorkStatus {
    /// The name under which the stage is written.
    pub open spec fn shown(self) -> Seq<char> {
        match self {
            WorkStatus::Draft => "Draft"@,
            WorkStatus::Ready => "Ready"@,
            WorkStatus::InProgress => "InProgress"@,
            WorkStatus::InReview => "InReview"@,
            WorkStatus::Integrated => "Integrated"@,
            WorkStatus::Done => "Done"@,
            WorkStatus::Blocked => "Blocked"@,
            WorkStatus::Abandoned => "Abandoned"@,
        }
    }

    /// The name under which the stage is written.
    pub fn name(self) -> (r: &'static str)
        ensures
            r@ == self.shown(),
    {
        match self {
            WorkStatus::Draft => "Draft",
            WorkStatus::Ready => "Ready",
            WorkStatus::InProgress => "InProgress",
            WorkStatus::InReview => "InReview",
            WorkStatus::Integrated => "Integrated",
            WorkStatus::Done => "Done",
            WorkStatus::Blocked => "Blocked",
            WorkStatus::Abandoned => "Abandoned",
        }
    }

    /// The stage that a name stands for, as it is written or in lower case.
    pub open spec fn of_name(s: Seq<char>) -> Option<WorkStatus> {
        if s == "Draft"@ || s == "draft"@ {
            Some(WorkStatus::Draft)
        } else if s == "Ready"@ || s == "ready"@ {
            Some(WorkStatus::Ready)
        } else if s == "InProgress"@ || s == "inprogress"@ {
            Some(WorkStatus::InProgress)
        } else if s == "InReview"@ || s == "inreview"@ {
            Some(WorkStatus::InReview)
        } else if s == "Integrated"@ || s == "integrated"@ {
            Some(WorkStatus::Integrated)
        } else if s == "Done"@ || s == "done"@ {
            Some(WorkStatus::Done)
        } else if s == "Blocked"@ || s == "blocked"@ {
            Some(WorkStatus::Blocked)
        } else if s == "Abandoned"@ || s == "abandoned"@ {
            Some(WorkStatus::Abandoned)
        } else {
            None
        }
    }

    /// The stage that a name stands for, as it is written or in lower case.
    pub fn from_name(s: &str) -> (r: Option<WorkStatus>)
        ensures
            r == WorkStatus::of_name(s@),
    {
        if same(s, "Draft") || same(s, "draft") {
            Some(WorkStatus::Draft)
        } else if same(s, "Ready") || same(s, "ready") {
            Some(WorkStatus::Ready)
        } else if same(s, "InProgress") || same(s, "inprogress") {
            Some(WorkStatus::InProgress)
        } else if same(s, "InReview") || same(s, "inreview") {
            Some(WorkStatus::InReview)
        } else if same(s, "Integrated") || same(s, "integrated") {
            Some(WorkStatus::Integrated)
        } else if same(s, "Done") || same(s, "done") {
            Some(WorkStatus::Done)
        } else if same(s, "Blocked") || same(s, "blocked") {
            Some(WorkStatus::Blocked)
        } else if same(s, "Abandoned") || same(s, "abandoned") {
            Some(WorkStatus::Abandoned)
        } else {
            None
        }
    }
}

/// The stage of an integration tick.
#[derive(Clone, Copy, Debug, PartialEq, Eq, Structural)]
pub enum TickStatus {
    /// Collecting bundles.
    Open,
    /// Closed to further bundles.
    Sealing,
    /// Under validation.
    Validating,
    /// Validated and published.
    Published,
    /// Not validated.
    Failed,
}

impl TickStatus {
    /// The name under which the stage is written.
    pub open spec fn shown(self) -> Seq<char> {
        match self {
            TickStatus::Open => "Open"@,
            TickStatus::Sealing => "Sealing"@,
            TickStatus::Validating => "Validating"@,
            TickStatus::Published => "Published"@,
            TickStatus::Failed => "Failed"@,
        }
    }

    /// The name under which the stage is written.
    pub fn name(self) -> (r: &'static str)
        ensures
            r@ == self.shown(),
    {
        match self {
            TickStatus::Open => "Open",
            TickStatus::Sealing => "Sealing",
            TickStatus::Validating => "Validating",
            TickStatus::Published => "Published",
            TickStatus::Failed => "Failed",
        }
    }

    /// The stage that a name stands for, as it is written.
    pub open spec fn of_name(s: Seq<char>) -> Option<TickStatus> {
        if s == "Open"@ {
            Some(TickStatus::Open)
        } else if s == "Sealing"@ {
            Some(TickStatus::Sealing)
        } else if s == "Validating"@ {
            Some(TickStatus::Validating)
        } else if s == "Published"@ {
            Some(TickStatus::Published)
        } else if s == "Failed"@ {
            Some(TickStatus::Failed)
        } else {
            None
        }
    }

    /// The stage that a name stands for, as it is written.
    pub fn from_name(s: &str) -> (r: Option<TickStatus>)
        ensures
            r == TickStatus::of_name(s@),
    {
        if same(s, "Open") {
            Some(TickStatus::Open)
        } else if same(s, "Sealing") {
            Some(TickStatus::Sealing)
        } else if same(s, "Validating") {
            Some(TickStatus::Validating)
        } else if same(s, "Published") {
            Some(TickStatus::Published)
        } else if same(s, "Failed") {
            Some(TickStatus::Failed)
        } else {
            None
        }
    }

    /// Whether a tick in this stage stays as it is.
    pub open spec fn is_final(self) -> bool {
        self is Published || self is Failed
    }

    /// Whether a tick in this stage stays as it is.
    pub fn is_terminal(self) -> (r: bool)
        ensures
            r == self.is_final(),
    {
        matches!(self, TickStatus::Published | TickStatus::Failed)
    }

    /// Whether a tick in this stage is being integrated; one tick at a time is.
    pub open spec fn is_integrating(self) -> bool {
        self is Sealing || self is Validating
    }

    /// Whether a tick in this stage is being integrated; one tick at a time is.
    pub fn integrating(self) -> (r: bool)
        ensures
            r == self.is_integrating(),
    {
        matches!(self, TickStatus::Sealing | TickStatus::Validating)
    }
}

/// The stage of a bundle of changes.
#[derive(Clone, Copy, Debug, PartialEq, Eq, Structural)]
pub enum BundleStatus {
    /// Handed in.
    Proposed,
    /// Admitted to review.
    Triaged,
    /// Reviewed.
    Reviewed,
    /// Accepted for integration.
    Accepted,
    /// Merged into a tick.
    Merged,
    /// Turned down.
    Rejected,
    /// Replaced by a later bundle.
    Superseded,
}

impl BundleStatus {
    /// Whether the bundle still counts for its work item.
    pub open spec fn is_live(self) -> bool {
        !(self is Merged || self is Rejected || self is Superseded)
    }

    /// Whether the bundle still counts for its work item.
    pub fn live(self) -> (r: bool)
        ensures
            r == self.is_live(),
    {
        !matches!(self, BundleStatus::Merged | BundleStatus::Rejected | BundleStatus::Superseded)
    }
}

/// The stage of an agent session.
#[derive(Clone, Copy, Debug, PartialEq, Eq, Structural)]
pub enum AgentStatus {
    /// Not running yet.
    Starting,
    /// At work.
    Running,
    /// Held.
    Paused,
    /// Ended with its task done.
    Completed,
    /// Ended with an error.
    Failed,
    /// Ended from outside.
    Cancelled,
}

impl AgentStatus {
    /// Whether the session has ended.
    pub open spec fn is_over(self) -> bool {
        self is Completed || self is Failed || self is Cancelled
    }

    /// Whether the session has ended.
    pub fn is_terminal(self) -> (r: bool)
        ensures
            r == self.is_over(),
    {
        matches!(self, AgentStatus::Completed | AgentStatus::Failed | AgentStatus::Cancelled)
    }
}

/// What an agent is for.
#[derive(Clone, Copy, Debug, PartialEq, Eq, Structural)]
pub enum AgentType {
    /// Plans and distributes the work.
    Coordinator,
    /// Carries out a work item.
    Implementer,
    /// Reviews a bundle.
    Reviewer,
    /// Looks things up.
    Researcher,
    /// Integrates bundles into ticks.
    Integrator,
    /// Talks to a person.
    Chat,
}

/// In whose name a record is moved from stage to stage.
#[derive(Clone, Copy, Debug, PartialEq, Eq, Structural)]
pub enum Role {
    /// The coordinator.
    Coordinator,
    /// An implementer.
    Implementer,
    /// Whoever judges bundles.
    Reviewer,
    /// A researcher.
    Researcher,
    /// The integrator.
    Integrator,
}

/// What a loop produces, from the whole plan down to code.
#[derive(Clone, Copy, Debug, PartialEq, Eq, Structural)]
pub enum LoopType {
    /// A plan.
    Plan,
    /// A spec of a plan.
    Spec,
    /// A phase of a spec.
    Phase,
    /// Code for a phase.
    Code,
}

/// The stage of a loop.
#[derive(Clone, Copy, Debug, PartialEq, Eq, Structural)]
pub enum LoopStatus {
    /// Waiting for a slot.
    Pending,
    /// Running.
    Running,
    /// Finished.
    Complete,
    /// Ended without a result.
    Failed,
}

impl LoopStatus {
    /// Whether the loop has ended.
    pub open spec fn is_over(self) -> bool {
        self is Complete || self is Failed
    }

    /// Whether the loop has ended.
    pub fn is_terminal(self) -> (r: bool)
        ensures
            r == self.is_over(),
    {
        matches!(self, LoopStatus::Complete | LoopStatus::Failed)
    }
}

/// What the rules of a stage machine say of one move.
#[derive(Clone, Debug)]
pub enum Verdict {
    /// The record moves.
    Changed,
    /// The record is there already.
    Unchanged,
    /// The move is not allowed, for the reason given.
    Rejected(String),
}

/// What the rules of a stage machine say of one move.
pub enum VerdictView {
    Changed,
    Unchanged,
    Rejected(Seq<char>),
}

impl View for Verdict {
    type V = VerdictView;

    open spec fn view(&self) -> VerdictView {
        match *self {
            Verdict::Changed => VerdictView::Changed,
            Verdict::Unchanged => VerdictView::Unchanged,
            Verdict::Rejected(reason) => VerdictView::Rejected(reason@),
        }
    }
}

/// The stage of a plan, a spec or a phase is read back from its name, and from
/// no other.
pub proof fn hierarchy_stages_are_read_back(stage: HierarchyStatus, s: Seq<char>)
    ensures
        HierarchyStatus::of_name(s) == Some(stage) <==> s == stage.shown(),
{
    reveal_strlit("draft");
    assert("draft"@.len() == 5 && "draft"@[0] == 'd');
    reveal_strlit("active");
    assert("active"@.len() == 6 && "active"@[0] == 'a');
    reveal_strlit("complete");
    assert("complete"@.len() == 8 && "complete"@[0] == 'c');
    reveal_strlit("abandoned");
    assert("abandoned"@.len() == 9 && "abandoned"@[0] == 'a');
}

/// The stage of a work item is read back from its name.
pub proof fn work_stages_are_read_back(stage: WorkStatus)
    ensures
        WorkStatus::of_name(stage.shown()) == Some(stage),
{
    reveal_strlit("Draft");
    assert("Draft"@.len() == 5 && "Draft"@[0] == 'D');
    reveal_strlit("Ready");
    assert("Ready"@.len() == 5 && "Ready"@[0] == 'R');
    reveal_strlit("InProgress");
    assert("InProgress"@.len() == 10 && "InProgress"@[0] == 'I' && "InProgress"@[2] == 'P');
    reveal_strlit("InReview");
    assert("InReview"@.len() == 8 && "InReview"@[0] == 'I');
    reveal_strlit("Integrated");
    assert("Integrated"@.len() == 10 && "Integrated"@[0] == 'I' && "Integrated"@[2] == 't');
    reveal_strlit("Done");
    assert("Done"@.len() == 4 && "Done"@[0] == 'D');
    reveal_strlit("Blocked");
    assert("Blocked"@.len() == 7 && "Blocked"@[0] == 'B');
    reveal_strlit("Abandoned");
    assert("Abandoned"@.len() == 9 && "Abandoned"@[0] == 'A');
    reveal_strlit("draft");
    assert("draft"@.len() == 5 && "draft"@[0] == 'd');
    reveal_strlit("ready");
    assert("ready"@.len() == 5 && "ready"@[0] == 'r');
    reveal_strlit("inprogress");
    assert("inprogress"@.len() == 10 && "inprogress"@[0] == 'i');
    reveal_strlit("inreview");
    assert("inreview"@.len() == 8 && "inreview"@[0] == 'i');
    reveal_strlit("integrated");
    assert("integrated"@.len() == 10 && "integrated"@[0] == 'i');
    reveal_strlit("done");
    assert("done"@.len() == 4 && "done"@[0] == 'd');
    reveal_strlit("blocked");
    assert("blocked"@.len() == 7 && "blocked"@[0] == 'b');
    reveal_strlit("abandoned");
    assert("abandoned"@.len() == 9 && "abandoned"@[0] == 'a');
}

/// The stage of a tick is read back from its name, and from no other.
pub proof fn tick_stages_are_read_back(stage: TickStatus, s: Seq<char>)
    ensures
        TickStatus::of_name(s) == Some(stage) <==> s == stage.shown(),
{
    reveal_strlit("Open");
    assert("Open"@.len() == 4 && "Open"@[0] == 'O');
    reveal_strlit("Sealing");
    assert("Sealing"@.len() == 7 && "Sealing"@[0] == 'S');
    reveal_strlit("Validating");
    assert("Validating"@.len() == 10 && "Validating"@[0] == 'V');
    reveal_strlit("Published");
    assert("Published"@.len() == 9 && "Published"@[0] == 'P');
    reveal_strlit("Failed");
    assert("Failed"@.len() == 6 && "Failed"@[0] == 'F');
}

/// The stages of a plan, a spec or a phase are written in lower case, and told
/// of by their own names.
pub proof fn hierarchy_stages_by_name(s: Seq<char>)
    ensures
        HierarchyStatus::of_name(s) == Some(HierarchyStatus::Draft) <==> s == "draft"@,
        HierarchyStatus::of_name(s) == Some(HierarchyStatus::Active) <==> s == "active"@,
        HierarchyStatus::of_name(s) == Some(HierarchyStatus::Complete) <==> s == "complete"@,
        HierarchyStatus::of_name(s) == Some(HierarchyStatus::Abandoned) <==> s == "abandoned"@,
        HierarchyStatus::Draft.variant_shown() == "Draft"@,
        HierarchyStatus::Active.variant_shown() == "Active"@,
        HierarchyStatus::Complete.variant_shown() == "Complete"@,
        HierarchyStatus::Abandoned.variant_shown() == "Abandoned"@,
{
    hierarchy_stages_are_read_back(HierarchyStatus::Draft, s);
    hierarchy_stages_are_read_back(HierarchyStatus::Active, s);
    hierarchy_stages_are_read_back(HierarchyStatus::Complete, s);
    hierarchy_stages_are_read_back(HierarchyStatus::Abandoned, s);
}

/// The stages of a tick are written by their own names.
pub proof fn tick_stages_by_name(s: Seq<char>)
    ensures
        TickStatus::of_name(s) == Some(TickStatus::Open) <==> s == "Open"@,
        TickStatus::of_name(s) == Some(TickStatus::Sealing) <==> s == "Sealing"@,
        TickStatus::of_name(s) == Some(TickStatus::Validating) <==> s == "Validating"@,
        TickStatus::of_name(s) == Some(TickStatus::Published) <==> s == "Published"@,
        TickStatus::of_name(s) == Some(TickStatus::Failed) <==> s == "Failed"@,
{
    tick_stages_are_read_back(TickStatus::Open, s);
    tick_stages_are_read_back(TickStatus::Sealing, s);
    tick_stages_are_read_back(TickStatus::Validating, s);
    tick_stages_are_read_back(TickStatus::Published, s);
    tick_stages_are_read_back(TickStatus::Failed, s);
}

/// The stages of a work item are read by their own names, as they are written
/// or in lower case, and by no others; they are shown as they are written.
pub proof fn work_stages_by_name(s: Seq<char>)
    ensures
        WorkStatus::of_name(s) == Some(WorkStatus::Draft) <==> s == "Draft"@ || s == "draft"@,
        WorkStatus::of_name(s) == Some(WorkStatus::Ready) <==> s == "Ready"@ || s == "ready"@,
        WorkStatus::of_name(s) == Some(WorkStatus::InProgress) <==> s == "InProgress"@ || s
            == "inprogress"@,
        WorkStatus::of_name(s) == Some(WorkStatus::InReview) <==> s == "InReview"@ || s
            == "inreview"@,
        WorkStatus::of_name(s) == Some(WorkStatus::Integrated) <==> s == "Integrated"@ || s
            == "integrated"@,
        WorkStatus::of_name(s) == Some(WorkStatus::Done) <==> s == "Done"@ || s == "done"@,
        WorkStatus::of_name(s) == Some(WorkStatus::Blocked) <==> s == "Blocked"@ || s == "blocked"@,
        WorkStatus::of_name(s) == Some(WorkStatus::Abandoned) <==> s == "Abandoned"@ || s
            == "abandoned"@,
        WorkStatus::Draft.shown() == "Draft"@,
        WorkStatus::Ready.shown() == "Ready"@,
        WorkStatus::InProgress.shown() == "InProgress"@,
        WorkStatus::InReview.shown() == "InReview"@,
        WorkStatus::Integrated.shown() == "Integrated"@,
        WorkStatus::Done.shown() == "Done"@,
        WorkStatus::Blocked.shown() == "Blocked"@,
        WorkStatus::Abandoned.shown() == "Abandoned"@,
{
    reveal_strlit("Draft");
    assert("Draft"@.len() == 5 && "Draft"@[0] == 'D' && "Draft"@[2] == 'a');
    reveal_strlit("draft");
    assert("draft"@.len() == 5 && "draft"@[0] == 'd' && "draft"@[2] == 'a');
    reveal_strlit("Ready");
    assert("Ready"@.len() == 5 && "Ready"@[0] == 'R' && "Ready"@[2] == 'a');
    reveal_strlit("ready");
    assert("ready"@.len() == 5 && "ready"@[0] == 'r' && "ready"@[2] == 'a');
    reveal_strlit("InProgress");
    assert("InProgress"@.len() == 10 && "InProgress"@[0] == 'I' && "InProgress"@[2] == 'P');
    reveal_strlit("inprogress");
    assert("inprogress"@.len() == 10 && "inprogress"@[0] == 'i' && "inprogress"@[2] == 'p');
    reveal_strlit("InReview");
    assert("InReview"@.len() == 8 && "InReview"@[0] == 'I' && "InReview"@[2] == 'R');
    reveal_strlit("inreview");
    assert("inreview"@.len() == 8 && "inreview"@[0] == 'i' && "inreview"@[2] == 'r');
    reveal_strlit("Integrated");
    assert("Integrated"@.len() == 10 && "Integrated"@[0] == 'I' && "Integrated"@[2] == 't');
    reveal_strlit("integrated");
    assert("integrated"@.len() == 10 && "integrated"@[0] == 'i' && "integrated"@[2] == 't');
    reveal_strlit("Done");
    assert("Done"@.len() == 4 && "Done"@[0] == 'D' && "Done"@[2] == 'n');
    reveal_strlit("done");
    assert("done"@.len() == 4 && "done"@[0] == 'd' && "done"@[2] == 'n');
    reveal_strlit("Blocked");
    assert("Blocked"@.len() == 7 && "Blocked"@[0] == 'B' && "Blocked"@[2] == 'o');
    reveal_strlit("blocked");
    assert("blocked"@.len() == 7 && "blocked"@[0] == 'b' && "blocked"@[2] == 'o');
    reveal_strlit("Abandoned");
    assert("Abandoned"@.len() == 9 && "Abandoned"@[0] == 'A' && "Abandoned"@[2] == 'a');
    reveal_strlit("abandoned");
    assert("abandoned"@.len() == 9 && "abandoned"@[0] == 'a' && "abandoned"@[2] == 'a');
}

} // verus!
