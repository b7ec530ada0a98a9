//! The methods that requests can name, and the agents that requests start.

use crate::config::AgentsConfig;
use crate::params::{text_of, Members};
use crate::protocol::{method_not_found, DaemonRequest, RpcError, RpcErrorView};
use crate::status::AgentType;
use crate::text::{begins_with, opt_text, same};
use vstd::prelude::*;

verus! {

/// A method that a request can name.
#[derive(Clone, Copy, Debug, PartialEq, Eq, Structural)]
pub enum Method {
    SystemHandshake,
    SystemInit,
    SystemStatus,
    SystemShutdown,
    PlanCreate,
    PlanGet,
    PlanList,
    PlanTransition,
    PlanUpdate,
    SpecCreate,
    SpecGet,
    SpecList,
    SpecTransition,
    SpecUpdate,
    PhaseCreate,
    PhaseGet,
    PhaseList,
    PhaseTransition,
    PhaseUpdate,
    WorkCreate,
    WorkGet,
    WorkList,
    WorkTransition,
    WorkUpdate,
    BundleCreate,
    BundleGet,
    BundleList,
    BundleTransition,
    BundleUpdate,
    TickCreate,
    TickGet,
    TickList,
    TickTransition,
    TickUpdate,
    LearningCreate,
    LearningGet,
    LearningList,
    LearningUpdate,
    LearningReinforce,
    LearningContradict,
    LearningPromote,
    LearningDemote,
    LockCreate,
    LockGet,
    LockList,
    LockRelease,
    LockExpire,
    WorktreeCreate,
    WorktreeList,
    WorktreeCleanup,
    WorktreeRefresh,
    IntegratorValidate,
    IntegratorPublish,
    ValidatorValidate,
    ValidatorReport,
    ValidatorReports,
    CoverageEvaluate,
    ToolList,
    ToolsRegister,
    CoordinatorSetGoal,
    CoordinatorClearGoal,
    CoordinatorGetGoal,
    CoordinatorGetState,
    CoordinatorResetState,
    CoordinatorInterviewRespond,
    CoordinatorAcceptPlan,
    CoordinatorInterviewQuestion,
    ChatSubmit,
    ChatAttach,
    ChatHistory,
    AgentStart,
    AgentStop,
    AgentPause,
    AgentResume,
    AgentStatus,
    AgentList,
    AgentOutput,
}

impl Method {
    /// The name of the method.
    pub open spec fn title(self) -> Seq<char> {
        match self {
            Method::SystemHandshake => "system.handshake"@,
            Method::SystemInit => "system.init"@,
            Method::SystemStatus => "system.status"@,
            Method::SystemShutdown => "system.shutdown"@,
            Method::PlanCreate => "plan.create"@,
            Method::PlanGet => "plan.get"@,
            Method::PlanList => "plan.list"@,
            Method::PlanTransition => "plan.transition"@,
            Method::PlanUpdate => "plan.update"@,
            Method::SpecCreate => "spec.create"@,
            Method::SpecGet => "spec.get"@,
            Method::SpecList => "spec.list"@,
            Method::SpecTransition => "spec.transition"@,
            Method::SpecUpdate => "spec.update"@,
            Method::PhaseCreate => "phase.create"@,
            Method::PhaseGet => "phase.get"@,
            Method::PhaseList => "phase.list"@,
            Method::PhaseTransition => "phase.transition"@,
            Method::PhaseUpdate => "phase.update"@,
            Method::WorkCreate => "work.create"@,
            Method::WorkGet => "work.get"@,
            Method::WorkList => "work.list"@,
            Method::WorkTransition => "work.transition"@,
            Method::WorkUpdate => "work.update"@,
            Method::BundleCreate => "bundle.create"@,
            Method::BundleGet => "bundle.get"@,
            Method::BundleList => "bundle.list"@,
            Method::BundleTransition => "bundle.transition"@,
            Method::BundleUpdate => "bundle.update"@,
            Method::TickCreate => "tick.create"@,
            Method::TickGet => "tick.get"@,
            Method::TickList => "tick.list"@,
            Method::TickTransition => "tick.transition"@,
            Method::TickUpdate => "tick.update"@,
            Method::LearningCreate => "learning.create"@,
            Method::LearningGet => "learning.get"@,
            Method::LearningList => "learning.list"@,
            Method::LearningUpdate => "learning.update"@,
            Method::LearningReinforce => "learning.reinforce"@,
            Method::LearningContradict => "learning.contradict"@,
            Method::LearningPromote => "learning.promote"@,
            Method::LearningDemote => "learning.demote"@,
            Method::LockCreate => "lock.create"@,
            Method::LockGet => "lock.get"@,
            Method::LockList => "lock.list"@,
            Method::LockRelease => "lock.release"@,
            Method::LockExpire => "lock.expire"@,
            Method::WorktreeCreate => "worktree.create"@,
            Method::WorktreeList => "worktree.list"@,
            Method::WorktreeCleanup => "worktree.cleanup"@,
            Method::WorktreeRefresh => "worktree.refresh"@,
            Method::IntegratorValidate => "integrator.validate"@,
            Method::IntegratorPublish => "integrator.publish"@,
            Method::ValidatorValidate => "validator.validate"@,
            Method::ValidatorReport => "validator.report"@,
            Method::ValidatorReports => "validator.reports"@,
            Method::CoverageEvaluate => "coverage.evaluate"@,
            Method::ToolList => "tool.list"@,
            Method::ToolsRegister => "tools.register"@,
            Method::CoordinatorSetGoal => "coordinator.set_goal"@,
            Method::CoordinatorClearGoal => "coordinator.clear_goal"@,
            Method::CoordinatorGetGoal => "coordinator.get_goal"@,
            Method::CoordinatorGetState => "coordinator.get_state"@,
            Method::CoordinatorResetState => "coordinator.reset_state"@,
            Method::CoordinatorInterviewRespond => "coordinator.interview_respond"@,
            Method::CoordinatorAcceptPlan => "coordinator.accept_plan"@,
            Method::CoordinatorInterviewQuestion => "coordinator.interview_question"@,
            Method::ChatSubmit => "chat.submit"@,
            Method::ChatAttach => "chat.attach"@,
            Method::ChatHistory => "chat.history"@,
            Method::AgentStart => "agent.start"@,
            Method::AgentStop => "agent.stop"@,
            Method::AgentPause => "agent.pause"@,
            Method::AgentResume => "agent.resume"@,
            Method::AgentStatus => "agent.status"@,
            Method::AgentList => "agent.list"@,
            Method::AgentOutput => "agent.output"@,
        }
    }

    /// The method of a name.
    pub open spec fn of_name(s: Seq<char>) -> Option<Method> {
        if s == "system.handshake"@ {
            Some(Method::SystemHandshake)
        } else if s == "system.init"@ {
            Some(Method::SystemInit)
        } else if s == "system.status"@ {
            Some(Method::SystemStatus)
        } else if s == "system.shutdown"@ {
            Some(Method::SystemShutdown)
        } else if s == "plan.create"@ {
            Some(Method::PlanCreate)
        } else if s == "plan.get"@ {
            Some(Method::PlanGet)
        } else if s == "plan.list"@ {
            Some(Method::PlanList)
        } else if s == "plan.transition"@ {
            Some(Method::PlanTransition)
        } else if s == "plan.update"@ {
            Some(Method::PlanUpdate)
        } else if s == "spec.create"@ {
            Some(Method::SpecCreate)
        } else if s == "spec.get"@ {
            Some(Method::SpecGet)
        } else if s == "spec.list"@ {
            Some(Method::SpecList)
        } else if s == "spec.transition"@ {
            Some(Method::SpecTransition)
        } else if s == "spec.update"@ {
            Some(Method::SpecUpdate)
        } else if s == "phase.create"@ {
            Some(Method::PhaseCreate)
        } else if s == "phase.get"@ {
            Some(Method::PhaseGet)
        } else if s == "phase.list"@ {
            Some(Method::PhaseList)
        } else if s == "phase.transition"@ {
            Some(Method::PhaseTransition)
        } else if s == "phase.update"@ {
            Some(Method::PhaseUpdate)
        } else if s == "work.create"@ {
            Some(Method::WorkCreate)
        } else if s == "work.get"@ {
            Some(Method::WorkGet)
        } else if s == "work.list"@ {
            Some(Method::WorkList)
        } else if s == "work.transition"@ {
            Some(Method::WorkTransition)
        } else if s == "work.update"@ {
            Some(Method::WorkUpdate)
        } else if s == "bundle.create"@ {
            Some(Method::BundleCreate)
        } else if s == "bundle.get"@ {
            Some(Method::BundleGet)
        } else if s == "bundle.list"@ {
            Some(Method::BundleList)
        } else if s == "bundle.transition"@ {
            Some(Method::BundleTransition)
        } else if s == "bundle.update"@ {
            Some(Method::BundleUpdate)
        } else if s == "tick.create"@ {
            Some(Method::TickCreate)
        } else if s == "tick.get"@ {
            Some(Method::TickGet)
        } else if s == "tick.list"@ {
            Some(Method::TickList)
        } else if s == "tick.transition"@ {
            Some(Method::TickTransition)
        } else if s == "tick.update"@ {
            Some(Method::TickUpdate)
        } else if s == "learning.create"@ {
            Some(Method::LearningCreate)
        } else if s == "learning.get"@ {
            Some(Method::LearningGet)
        } else if s == "learning.list"@ {
            Some(Method::LearningList)
        } else if s == "learning.update"@ {
            Some(Method::LearningUpdate)
        } else if s == "learning.reinforce"@ {
            Some(Method::LearningReinforce)
        } else if s == "learning.contradict"@ {
            Some(Method::LearningContradict)
        } else if s == "learning.promote"@ {
            Some(Method::LearningPromote)
        } else if s == "learning.demote"@ {
            Some(Method::LearningDemote)
        } else if s == "lock.create"@ {
            Some(Method::LockCreate)
        } else if s == "lock.get"@ {
            Some(Method::LockGet)
        } else if s == "lock.list"@ {
            Some(Method::LockList)
        } else if s == "lock.release"@ {
            Some(Method::LockRelease)
        } else if s == "lock.expire"@ {
            Some(Method::LockExpire)
        } else if s == "worktree.create"@ {
            Some(Method::WorktreeCreate)
        } else if s == "worktree.list"@ {
            Some(Method::WorktreeList)
        } else if s == "worktree.cleanup"@ {
            Some(Method::WorktreeCleanup)
        } else if s == "worktree.refresh"@ {
            Some(Method::WorktreeRefresh)
        } else if s == "integrator.validate"@ {
            Some(Method::IntegratorValidate)
        } else if s == "integrator.publish"@ {
            Some(Method::IntegratorPublish)
        } else if s == "validator.validate"@ {
            Some(Method::ValidatorValidate)
        } else if s == "validator.report"@ {
            Some(Method::ValidatorReport)
        } else if s == "validator.reports"@ {
            Some(Method::ValidatorReports)
        } else if s == "coverage.evaluate"@ {
            Some(Method::CoverageEvaluate)
        } else if s == "tool.list"@ {
            Some(Method::ToolList)
        } else if s == "tools.register"@ {
            Some(Method::ToolsRegister)
        } else if s == "coordinator.set_goal"@ {
            Some(Method::CoordinatorSetGoal)
        } else if s == "coordinator.clear_goal"@ {
            Some(Method::CoordinatorClearGoal)
        } else if s == "coordinator.get_goal"@ {
            Some(Method::CoordinatorGetGoal)
        } else if s == "coordinator.get_state"@ {
            Some(Method::CoordinatorGetState)
        } else if s == "coordinator.reset_state"@ {
            Some(Method::CoordinatorResetState)
        } else if s == "coordinator.interview_respond"@ {
            Some(Method::CoordinatorInterviewRespond)
        } else if s == "coordinator.accept_plan"@ {
            Some(Method::CoordinatorAcceptPlan)
        } else if s == "coordinator.interview_question"@ {
            Some(Method::CoordinatorInterviewQuestion)
        } else if s == "chat.submit"@ {
            Some(Method::ChatSubmit)
        } else if s == "chat.attach"@ {
            Some(Method::ChatAttach)
        } else if s == "chat.history"@ {
            Some(Method::ChatHistory)
        } else if s == "agent.start"@ {
            Some(Method::AgentStart)
        } else if s == "agent.stop"@ {
            Some(Method::AgentStop)
        } else if s == "agent.pause"@ {
            Some(Method::AgentPause)
        } else if s == "agent.resume"@ {
            Some(Method::AgentResume)
        } else if s == "agent.status"@ {
            Some(Method::AgentStatus)
        } else if s == "agent.list"@ {
            Some(Method::AgentList)
        } else if s == "agent.output"@ {
            Some(Method::AgentOutput)
        } else {
            None
        }
    }

    /// The name of the method.
    pub fn name(self) -> (r: &'static str)
        ensures
            r@ == self.title(),
    {
        match self {
            Method::SystemHandshake => "system.handshake",
            Method::SystemInit => "system.init",
            Method::SystemStatus => "system.status",
            Method::SystemShutdown => "system.shutdown",
            Method::PlanCreate => "plan.create",
            Method::PlanGet => "plan.get",
            Method::PlanList => "plan.list",
            Method::PlanTransition => "plan.transition",
            Method::PlanUpdate => "plan.update",
            Method::SpecCreate => "spec.create",
            Method::SpecGet => "spec.get",
            Method::SpecList => "spec.list",
            Method::SpecTransition => "spec.transition",
            Method::SpecUpdate => "spec.update",
            Method::PhaseCreate => "phase.create",
            Method::PhaseGet => "phase.get",
            Method::PhaseList => "phase.list",
            Method::PhaseTransition => "phase.transition",
            Method::PhaseUpdate => "phase.update",
            Method::WorkCreate => "work.create",
            Method::WorkGet => "work.get",
            Method::WorkList => "work.list",
            Method::WorkTransition => "work.transition",
            Method::WorkUpdate => "work.update",
            Method::BundleCreate => "bundle.create",
            Method::BundleGet => "bundle.get",
            Method::BundleList => "bundle.list",
            Method::BundleTransition => "bundle.transition",
            Method::BundleUpdate => "bundle.update",
            Method::TickCreate => "tick.create",
            Method::TickGet => "tick.get",
            Method::TickList => "tick.list",
            Method::TickTransition => "tick.transition",
            Method::TickUpdate => "tick.update",
            Method::LearningCreate => "learning.create",
            Method::LearningGet => "learning.get",
            Method::LearningList => "learning.list",
            Method::LearningUpdate => "learning.update",
            Method::LearningReinforce => "learning.reinforce",
            Method::LearningContradict => "learning.contradict",
            Method::LearningPromote => "learning.promote",
            Method::LearningDemote => "learning.demote",
            Method::LockCreate => "lock.create",
            Method::LockGet => "lock.get",
            Method::LockList => "lock.list",
            Method::LockRelease => "lock.release",
            Method::LockExpire => "lock.expire",
            Method::WorktreeCreate => "worktree.create",
            Method::WorktreeList => "worktree.list",
            Method::WorktreeCleanup => "worktree.cleanup",
            Method::WorktreeRefresh => "worktree.refresh",
            Method::IntegratorValidate => "integrator.validate",
            Method::IntegratorPublish => "integrator.publish",
            Method::ValidatorValidate => "validator.validate",
            Method::ValidatorReport => "validator.report",
            Method::ValidatorReports => "validator.reports",
            Method::CoverageEvaluate => "coverage.evaluate",
            Method::ToolList => "tool.list",
            Method::ToolsRegister => "tools.register",
            Method::CoordinatorSetGoal => "coordinator.set_goal",
            Method::CoordinatorClearGoal => "coordinator.clear_goal",
            Method::CoordinatorGetGoal => "coordinator.get_goal",
            Method::CoordinatorGetState => "coordinator.get_state",
            Method::CoordinatorResetState => "coordinator.reset_state",
            Method::CoordinatorInterviewRespond => "coordinator.interview_respond",
            Method::CoordinatorAcceptPlan => "coordinator.accept_plan",
            Method::CoordinatorInterviewQuestion => "coordinator.interview_question",
            Method::ChatSubmit => "chat.submit",
            Method::ChatAttach => "chat.attach",
            Method::ChatHistory => "chat.history",
            Method::AgentStart => "agent.start",
            Method::AgentStop => "agent.stop",
            Method::AgentPause => "agent.pause",
            Method::AgentResume => "agent.resume",
            Method::AgentStatus => "agent.status",
            Method::AgentList => "agent.list",
            Method::AgentOutput => "agent.output",
        }
    }

    /// The method of a name.
    pub fn from_name(s: &str) -> (r: Option<Method>)
        ensures
            r == Method::of_name(s@),
    {
        if same(s, "system.handshake") {
            Some(Method::SystemHandshake)
        } else if same(s, "system.init") {
            Some(Method::SystemInit)
        } else if same(s, "system.status") {
            Some(Method::SystemStatus)
        } else if same(s, "system.shutdown") {
            Some(Method::SystemShutdown)
        } else if same(s, "plan.create") {
            Some(Method::PlanCreate)
        } else if same(s, "plan.get") {
            Some(Method::PlanGet)
        } else if same(s, "plan.list") {
            Some(Method::PlanList)
        } else if same(s, "plan.transition") {
            Some(Method::PlanTransition)
        } else if same(s, "plan.update") {
            Some(Method::PlanUpdate)
        } else if same(s, "spec.create") {
            Some(Method::SpecCreate)
        } else if same(s, "spec.get") {
            Some(Method::SpecGet)
        } else if same(s, "spec.list") {
            Some(Method::SpecList)
        } else if same(s, "spec.transition") {
            Some(Method::SpecTransition)
        } else if same(s, "spec.update") {
            Some(Method::SpecUpdate)
        } else if same(s, "phase.create") {
            Some(Method::PhaseCreate)
        } else if same(s, "phase.get") {
            Some(Method::PhaseGet)
        } else if same(s, "phase.list") {
            Some(Method::PhaseList)
        } else if same(s, "phase.transition") {
            Some(Method::PhaseTransition)
        } else if same(s, "phase.update") {
            Some(Method::PhaseUpdate)
        } else if same(s, "work.create") {
            Some(Method::WorkCreate)
        } else if same(s, "work.get") {
            Some(Method::WorkGet)
        } else if same(s, "work.list") {
            Some(Method::WorkList)
        } else if same(s, "work.transition") {
            Some(Method::WorkTransition)
        } else if same(s, "work.update") {
            Some(Method::WorkUpdate)
        } else if same(s, "bundle.create") {
            Some(Method::BundleCreate)
        } else if same(s, "bundle.get") {
            Some(Method::BundleGet)
        } else if same(s, "bundle.list") {
            Some(Method::BundleList)
        } else if same(s, "bundle.transition") {
            Some(Method::BundleTransition)
        } else if same(s, "bundle.update") {
            Some(Method::BundleUpdate)
        } else if same(s, "tick.create") {
            Some(Method::TickCreate)
        } else if same(s, "tick.get") {
            Some(Method::TickGet)
        } else if same(s, "tick.list") {
            Some(Method::TickList)
        } else if same(s, "tick.transition") {
            Some(Method::TickTransition)
        } else if same(s, "tick.update") {
            Some(Method::TickUpdate)
        } else if same(s, "learning.create") {
            Some(Method::LearningCreate)
        } else if same(s, "learning.get") {
            Some(Method::LearningGet)
        } else if same(s, "learning.list") {
            Some(Method::LearningList)
        } else if same(s, "learning.update") {
            Some(Method::LearningUpdate)
        } else if same(s, "learning.reinforce") {
            Some(Method::LearningReinforce)
        } else if same(s, "learning.contradict") {
            Some(Method::LearningContradict)
        } else if same(s, "learning.promote") {
            Some(Method::LearningPromote)
        } else if same(s, "learning.demote") {
            Some(Method::LearningDemote)
        } else if same(s, "lock.create") {
            Some(Method::LockCreate)
        } else if same(s, "lock.get") {
            Some(Method::LockGet)
        } else if same(s, "lock.list") {
            Some(Method::LockList)
        } else if same(s, "lock.release") {
            Some(Method::LockRelease)
        } else if same(s, "lock.expire") {
            Some(Method::LockExpire)
        } else if same(s, "worktree.create") {
            Some(Method::WorktreeCreate)
        } else if same(s, "worktree.list") {
            Some(Method::WorktreeList)
        } else if same(s, "worktree.cleanup") {
            Some(Method::WorktreeCleanup)
        } else if same(s, "worktree.refresh") {
            Some(Method::WorktreeRefresh)
        } else if same(s, "integrator.validate") {
            Some(Method::IntegratorValidate)
        } else if same(s, "integrator.publish") {
            Some(Method::IntegratorPublish)
        } else if same(s, "validator.validate") {
            Some(Method::ValidatorValidate)
        } else if same(s, "validator.report") {
            Some(Method::ValidatorReport)
        } else if same(s, "validator.reports") {
            Some(Method::ValidatorReports)
        } else if same(s, "coverage.evaluate") {
            Some(Method::CoverageEvaluate)
        } else if same(s, "tool.list") {
            Some(Method::ToolList)
        } else if same(s, "tools.register") {
            Some(Method::ToolsRegister)
        } else if same(s, "coordinator.set_goal") {
            Some(Method::CoordinatorSetGoal)
        } else if same(s, "coordinator.clear_goal") {
            Some(Method::CoordinatorClearGoal)
        } else if same(s, "coordinator.get_goal") {
            Some(Method::CoordinatorGetGoal)
        } else if same(s, "coordinator.get_state") {
            Some(Method::CoordinatorGetState)
        } else if same(s, "coordinator.reset_state") {
            Some(Method::CoordinatorResetState)
        } else if same(s, "coordinator.interview_respond") {
            Some(Method::CoordinatorInterviewRespond)
        } else if same(s, "coordinator.accept_plan") {
            Some(Method::CoordinatorAcceptPlan)
        } else if same(s, "coordinator.interview_question") {
            Some(Method::CoordinatorInterviewQuestion)
        } else if same(s, "chat.submit") {
            Some(Method::ChatSubmit)
        } else if same(s, "chat.attach") {
            Some(Method::ChatAttach)
        } else if same(s, "chat.history") {
            Some(Method::ChatHistory)
        } else if same(s, "agent.start") {
            Some(Method::AgentStart)
        } else if same(s, "agent.stop") {
            Some(Method::AgentStop)
        } else if same(s, "agent.pause") {
            Some(Method::AgentPause)
        } else if same(s, "agent.resume") {
            Some(Method::AgentResume)
        } else if same(s, "agent.status") {
            Some(Method::AgentStatus)
        } else if same(s, "agent.list") {
            Some(Method::AgentList)
        } else if same(s, "agent.output") {
            Some(Method::AgentOutput)
        } else {
            None
        }
    }
}

/// What tells the names of methods apart: the length, and three characters.
spec fn mark(s: Seq<char>) -> (nat, char, char, char) {
    (s.len(), s[0], s[s.len() - 4], s[s.len() - 8])
}

/// Every method is reached by its name, and by no other.
pub proof fn methods_are_reached_by_name(m: Method, s: Seq<char>)
    ensures
        Method::of_name(s) == Some(m) <==> s == m.title(),
{
    reveal_strlit("system.handshake");
    assert(mark("system.handshake"@) == (16nat, 's', 'h', 'a'));
    reveal_strlit("system.init");
    assert(mark("system.init"@) == (11nat, 's', 'i', 't'));
    reveal_strlit("system.status");
    assert(mark("system.status"@) == (13nat, 's', 'a', 'm'));
    reveal_strlit("system.shutdown");
    assert(mark("system.shutdown"@) == (15nat, 's', 'd', 's'));
    reveal_strlit("plan.create");
    assert(mark("plan.create"@) == (11nat, 'p', 'e', 'n'));
    reveal_strlit("plan.get");
    assert(mark("plan.get"@) == (8nat, 'p', '.', 'p'));
    reveal_strlit("plan.list");
    assert(mark("plan.list"@) == (9nat, 'p', 'l', 'l'));
    reveal_strlit("plan.transition");
    assert(mark("plan.transition"@) == (15nat, 'p', 't', 'a'));
    reveal_strlit("plan.update");
    assert(mark("plan.update"@) == (11nat, 'p', 'd', 'n'));
    reveal_strlit("spec.create");
    assert(mark("spec.create"@) == (11nat, 's', 'e', 'c'));
    reveal_strlit("spec.get");
    assert(mark("spec.get"@) == (8nat, 's', '.', 's'));
    reveal_strlit("spec.list");
    assert(mark("spec.list"@) == (9nat, 's', 'l', 'p'));
    reveal_strlit("spec.transition");
    assert(mark("spec.transition"@) == (15nat, 's', 't', 'a'));
    reveal_strlit("spec.update");
    assert(mark("spec.update"@) == (11nat, 's', 'd', 'c'));
    reveal_strlit("phase.create");
    assert(mark("phase.create"@) == (12nat, 'p', 'e', 'e'));
    reveal_strlit("phase.get");
    assert(mark("phase.get"@) == (9nat, 'p', '.', 'h'));
    reveal_strlit("phase.list");
    assert(mark("phase.list"@) == (10nat, 'p', 'l', 'a'));
    reveal_strlit("phase.transition");
    assert(mark("phase.transition"@) == (16nat, 'p', 't', 'a'));
    reveal_strlit("phase.update");
    assert(mark("phase.update"@) == (12nat, 'p', 'd', 'e'));
    reveal_strlit("work.create");
    assert(mark("work.create"@) == (11nat, 'w', 'e', 'k'));
    reveal_strlit("work.get");
    assert(mark("work.get"@) == (8nat, 'w', '.', 'w'));
    reveal_strlit("work.list");
    assert(mark("work.list"@) == (9nat, 'w', 'l', 'o'));
    reveal_strlit("work.transition");
    assert(mark("work.transition"@) == (15nat, 'w', 't', 'a'));
    reveal_strlit("work.update");
    assert(mark("work.update"@) == (11nat, 'w', 'd', 'k'));
    reveal_strlit("bundle.create");
    assert(mark("bundle.create"@) == (13nat, 'b', 'e', 'e'));
    reveal_strlit("bundle.get");
    assert(mark("bundle.get"@) == (10nat, 'b', '.', 'n'));
    reveal_strlit("bundle.list");
    assert(mark("bundle.list"@) == (11nat, 'b', 'l', 'd'));
    reveal_strlit("bundle.transition");
    assert(mark("bundle.transition"@) == (17nat, 'b', 't', 'a'));
    reveal_strlit("bundle.update");
    assert(mark("bundle.update"@) == (13nat, 'b', 'd', 'e'));
    reveal_strlit("tick.create");
    assert(mark("tick.create"@) == (11nat, 't', 'e', 'k'));
    reveal_strlit("tick.get");
    assert(mark("tick.get"@) == (8nat, 't', '.', 't'));
    reveal_strlit("tick.list");
    assert(mark("tick.list"@) == (9nat, 't', 'l', 'i'));
    reveal_strlit("tick.transition");
    assert(mark("tick.transition"@) == (15nat, 't', 't', 'a'));
    reveal_strlit("tick.update");
    assert(mark("tick.update"@) == (11nat, 't', 'd', 'k'));
    reveal_strlit("learning.create");
    assert(mark("learning.create"@) == (15nat, 'l', 'e', 'g'));
    reveal_strlit("learning.get");
    assert(mark("learning.get"@) == (12nat, 'l', '.', 'n'));
    reveal_strlit("learning.list");
    assert(mark("learning.list"@) == (13nat, 'l', 'l', 'i'));
    reveal_strlit("learning.update");
    assert(mark("learning.update"@) == (15nat, 'l', 'd', 'g'));
    reveal_strlit("learning.reinforce");
    assert(mark("learning.reinforce"@) == (18nat, 'l', 'o', 'e'));
    reveal_strlit("learning.contradict");
    assert(mark("learning.contradict"@) == (19nat, 'l', 'd', 'n'));
    reveal_strlit("learning.promote");
    assert(mark("learning.promote"@) == (16nat, 'l', 'm', '.'));
    reveal_strlit("learning.demote");
    assert(mark("learning.demote"@) == (15nat, 'l', 'm', 'g'));
    reveal_strlit("lock.create");
    assert(mark("lock.create"@) == (11nat, 'l', 'e', 'k'));
    reveal_strlit("lock.get");
    assert(mark("lock.get"@) == (8nat, 'l', '.', 'l'));
    reveal_strlit("lock.list");
    assert(mark("lock.list"@) == (9nat, 'l', 'l', 'o'));
    reveal_strlit("lock.release");
    assert(mark("lock.release"@) == (12nat, 'l', 'e', '.'));
    reveal_strlit("lock.expire");
    assert(mark("lock.expire"@) == (11nat, 'l', 'p', 'k'));
    reveal_strlit("worktree.create");
    assert(mark("worktree.create"@) == (15nat, 'w', 'e', 'e'));
    reveal_strlit("worktree.list");
    assert(mark("worktree.list"@) == (13nat, 'w', 'l', 'r'));
    reveal_strlit("worktree.cleanup");
    assert(mark("worktree.cleanup"@) == (16nat, 'w', 'a', '.'));
    reveal_strlit("worktree.refresh");
    assert(mark("worktree.refresh"@) == (16nat, 'w', 'r', '.'));
    reveal_strlit("integrator.validate");
    assert(mark("integrator.validate"@) == (19nat, 'i', 'd', 'v'));
    reveal_strlit("integrator.publish");
    assert(mark("integrator.publish"@) == (18nat, 'i', 'l', '.'));
    reveal_strlit("validator.validate");
    assert(mark("validator.validate"@) == (18nat, 'v', 'd', 'v'));
    reveal_strlit("validator.report");
    assert(mark("validator.report"@) == (16nat, 'v', 'p', 'r'));
    reveal_strlit("validator.reports");
    assert(mark("validator.reports"@) == (17nat, 'v', 'o', '.'));
    reveal_strlit("coverage.evaluate");
    assert(mark("coverage.evaluate"@) == (17nat, 'c', 'u', 'e'));
    reveal_strlit("tool.list");
    assert(mark("tool.list"@) == (9nat, 't', 'l', 'o'));
    reveal_strlit("tools.register");
    assert(mark("tools.register"@) == (14nat, 't', 's', 'r'));
    reveal_strlit("coordinator.set_goal");
    assert(mark("coordinator.set_goal"@) == (20nat, 'c', 'g', 's'));
    reveal_strlit("coordinator.clear_goal");
    assert(mark("coordinator.clear_goal"@) == (22nat, 'c', 'g', 'e'));
    reveal_strlit("coordinator.get_goal");
    assert(mark("coordinator.get_goal"@) == (20nat, 'c', 'g', 'g'));
    reveal_strlit("coordinator.get_state");
    assert(mark("coordinator.get_state"@) == (21nat, 'c', 't', 'e'));
    reveal_strlit("coordinator.reset_state");
    assert(mark("coordinator.reset_state"@) == (23nat, 'c', 't', 'e'));
    reveal_strlit("coordinator.interview_respond");
    assert(mark("coordinator.interview_respond"@) == (29nat, 'c', 'p', '_'));
    reveal_strlit("coordinator.accept_plan");
    assert(mark("coordinator.accept_plan"@) == (23nat, 'c', 'p', 'e'));
    reveal_strlit("coordinator.interview_question");
    assert(mark("coordinator.interview_question"@) == (30nat, 'c', 't', 'q'));
    reveal_strlit("chat.submit");
    assert(mark("chat.submit"@) == (11nat, 'c', 'b', 't'));
    reveal_strlit("chat.attach");
    assert(mark("chat.attach"@) == (11nat, 'c', 't', 't'));
    reveal_strlit("chat.history");
    assert(mark("chat.history"@) == (12nat, 'c', 't', '.'));
    reveal_strlit("agent.start");
    assert(mark("agent.start"@) == (11nat, 'a', 't', 'n'));
    reveal_strlit("agent.stop");
    assert(mark("agent.stop"@) == (10nat, 'a', 's', 'e'));
    reveal_strlit("agent.pause");
    assert(mark("agent.pause"@) == (11nat, 'a', 'a', 'n'));
    reveal_strlit("agent.resume");
    assert(mark("agent.resume"@) == (12nat, 'a', 's', 't'));
    reveal_strlit("agent.status");
    assert(mark("agent.status"@) == (12nat, 'a', 'a', 't'));
    reveal_strlit("agent.list");
    assert(mark("agent.list"@) == (10nat, 'a', 'l', 'e'));
    reveal_strlit("agent.output");
    assert(mark("agent.output"@) == (12nat, 'a', 't', 't'));
}

/// The method that a request names, or that there is none.
pub open spec fn routed(method: Seq<char>) -> Result<Method, RpcErrorView> {
    match Method::of_name(method) {
        Some(m) => Ok(m),
        None => Err(method_not_found(method)),
    }
}

/// Finds the method that a request names.
pub fn route(req: &DaemonRequest) -> (r: Result<Method, RpcError>)
    ensures
        match r {
            Ok(m) => routed(req.method@) == Ok::<Method, RpcErrorView>(m),
            Err(e) => routed(req.method@) == Err::<Method, RpcErrorView>(e@),
        },
{
    match Method::from_name(req.method.as_str()) {
        Some(m) => Ok(m),
        None => Err(RpcError::method_not_found(req.method.as_str())),
    }
}

/// An agent that the daemon starts of its own accord, by the method
/// `agent.start`.
#[derive(Debug)]
pub struct AgentStart {
    pub agent_type: AgentType,
    /// The work item that it is started for.
    pub work_id: Option<String>,
    /// The bundle that it is started for.
    pub bundle_id: Option<String>,
}

#[verifier::ext_equal]
pub struct AgentStartView {
    pub agent_type: AgentType,
    pub work_id: Option<Seq<char>>,
    pub bundle_id: Option<Seq<char>>,
}

impl View for AgentStart {
    type V = AgentStartView;

    open spec fn view(&self) -> AgentStartView {
        AgentStartView {
            agent_type: self.agent_type,
            work_id: opt_text(self.work_id),
            bundle_id: opt_text(self.bundle_id),
        }
    }
}

/// The contents of a list of starts.
pub open spec fn starts_view(v: Seq<AgentStart>) -> Seq<AgentStartView> {
    v.map_values(|s: AgentStart| s@)
}

/// Whether a work item was begun for which an implementer is started.
pub open spec fn begins_work(method: Seq<char>, p: Members, config: AgentsConfig) -> bool {
    method == "work.transition"@ && text_of(p, "target_status"@) == Some("InProgress"@)
        && config.auto_start_implementer && !config.pull_based_workers && text_of(p, "id"@) is Some
}

/// Whether a bundle was triaged for which an agent is started to judge it.
pub open spec fn triages_bundle(method: Seq<char>, p: Members, config: AgentsConfig) -> bool {
    method == "bundle.transition"@ && text_of(p, "target_status"@) == Some("Triaged"@)
        && config.auto_start_reviewer && text_of(p, "id"@) is Some && "bd-"@.is_prefix_of(
        text_of(p, "id"@)->0,
    )
}

/// The agents that are started because of a request that was not refused.
pub open spec fn follow_ups(method: Seq<char>, p: Members, config: AgentsConfig) -> Seq<
    AgentStartView,
> {
    if begins_work(method, p, config) {
        seq![
            AgentStartView {
                agent_type: AgentType::Implementer,
                work_id: text_of(p, "id"@),
                bundle_id: None,
            },
        ]
    } else if triages_bundle(method, p, config) {
        seq![
            AgentStartView {
                agent_type: AgentType::Reviewer,
                work_id: None,
                bundle_id: text_of(p, "id"@),
            },
        ]
    } else {
        Seq::empty()
    }
}

/// Starts agents where a request that was not refused calls for them.
pub fn auto_start_agents(config: &AgentsConfig, req: &DaemonRequest, refused: bool) -> (r: Vec<
    AgentStart,
>)
    ensures
        starts_view(r@) == (if refused {
            Seq::empty()
        } else {
            follow_ups(req.method@, req.params@, *config)
        }),
{
    let mut r: Vec<AgentStart> = Vec::new();
    let id: Option<String> = req.params.text("id");
    let target: Option<String> = req.params.text("target_status");
    if !refused {
        match (id, target) {
            (Some(id), Some(target)) => {
                if same(req.method.as_str(), "work.transition") && same(
                    target.as_str(),
                    "InProgress",
                ) && config.auto_start_implementer && !config.pull_based_workers {
                    r.push(
                        AgentStart {
                            agent_type: AgentType::Implementer,
                            work_id: Some(id),
                            bundle_id: None,
                        },
                    );
                } else if same(req.method.as_str(), "bundle.transition") && same(
                    target.as_str(),
                    "Triaged",
                ) && config.auto_start_reviewer && begins_with(id.as_str(), "bd-") {
                    r.push(
                        AgentStart {
                            agent_type: AgentType::Reviewer,
                            work_id: None,
                            bundle_id: Some(id),
                        },
                    );
                }
            },
            _ => {},
        }
    }
    assert(starts_view(r@) =~= if refused {
        Seq::empty()
    } else {
        follow_ups(req.method@, req.params@, *config)
    });
    r
}

/// The two occasions to start an agent exclude each other.
pub proof fn occasions_exclude_each_other(method: Seq<char>, p: Members, config: AgentsConfig)
    ensures
        !(begins_work(method, p, config) && triages_bundle(method, p, config)),
{
    reveal_strlit("work.transition");
    reveal_strlit("bundle.transition");
    assert("work.transition"@.len() == 15);
    assert("bundle.transition"@.len() == 17);
}

/// From the start of an agent no other start follows.
pub proof fn follow_ups_end(p: Members, config: AgentsConfig)
    ensures
        follow_ups(Method::AgentStart.title(), p, config).len() == 0,
{
    reveal_strlit("work.transition");
    reveal_strlit("bundle.transition");
    reveal_strlit("agent.start");
    assert("work.transition"@.len() == 15);
    assert("bundle.transition"@.len() == 17);
    assert("agent.start"@.len() == 11);
}

/// An implementer is started exactly for a work item that a request puts in
/// progress, where that is set and workers do not fetch their work themselves;
/// an agent that judges exactly for a bundle, by its id, that a request puts to
/// triage, where that is set. Each is started for the record that the request
/// names, and nothing else follows from any request.
pub proof fn agents_follow_work_and_bundles_alone(
    method: Seq<char>,
    p: Members,
    config: AgentsConfig,
)
    ensures
        ({
            let r = follow_ups(method, p, config);
            let (id, target) = (text_of(p, "id"@), text_of(p, "target_status"@));
            let implement = method == "work.transition"@ && id is Some && target == Some(
                "InProgress"@,
            ) && config.auto_start_implementer && !config.pull_based_workers;
            let judge = method == "bundle.transition"@ && id is Some && target == Some("Triaged"@)
                && config.auto_start_reviewer && "bd-"@.is_prefix_of(id->0);
            &&& implement ==> r.len() == 1 && r[0].agent_type == AgentType::Implementer
                && r[0].work_id == id && r[0].bundle_id is None
            &&& judge ==> r.len() == 1 && r[0].agent_type == AgentType::Reviewer && r[0].bundle_id
                == id && r[0].work_id is None
            &&& !implement && !judge ==> r.len() == 0
        }),
{
    occasions_exclude_each_other(method, p, config);
}

/// A request reaches the method it names; one that names none is told so.
pub proof fn requests_reach_what_they_name(name: Seq<char>, m: Method)
    ensures
        routed(name) == Ok::<Method, RpcErrorView>(m) <==> name == m.title(),
        routed(name) matches Err(e) ==> e.code == -32601 && e.message == "method not found: "@
            + name && Method::of_name(name) is None,
{
    methods_are_reached_by_name(m, name);
}

/// Each name reaches the method that does what it says, and that method is
/// reached by no other name.
pub proof fn names_say_what_methods_do(s: Seq<char>)
    ensures
        routed(s) == Ok::<Method, RpcErrorView>(Method::SystemHandshake) <==> s == "system.handshake"@,
        routed(s) == Ok::<Method, RpcErrorView>(Method::SystemInit) <==> s == "system.init"@,
        routed(s) == Ok::<Method, RpcErrorView>(Method::SystemStatus) <==> s == "system.status"@,
        routed(s) == Ok::<Method, RpcErrorView>(Method::SystemShutdown) <==> s == "system.shutdown"@,
        routed(s) == Ok::<Method, RpcErrorView>(Method::PlanCreate) <==> s == "plan.create"@,
        routed(s) == Ok::<Method, RpcErrorView>(Method::PlanGet) <==> s == "plan.get"@,
        routed(s) == Ok::<Method, RpcErrorView>(Method::PlanList) <==> s == "plan.list"@,
        routed(s) == Ok::<Method, RpcErrorView>(Method::PlanTransition) <==> s == "plan.transition"@,
        routed(s) == Ok::<Method, RpcErrorView>(Method::PlanUpdate) <==> s == "plan.update"@,
        routed(s) == Ok::<Method, RpcErrorView>(Method::SpecCreate) <==> s == "spec.create"@,
        routed(s) == Ok::<Method, RpcErrorView>(Method::SpecGet) <==> s == "spec.get"@,
        routed(s) == Ok::<Method, RpcErrorView>(Method::SpecList) <==> s == "spec.list"@,
        routed(s) == Ok::<Method, RpcErrorView>(Method::SpecTransition) <==> s == "spec.transition"@,
        routed(s) == Ok::<Method, RpcErrorView>(Method::SpecUpdate) <==> s == "spec.update"@,
        routed(s) == Ok::<Method, RpcErrorView>(Method::PhaseCreate) <==> s == "phase.create"@,
        routed(s) == Ok::<Method, RpcErrorView>(Method::PhaseGet) <==> s == "phase.get"@,
        routed(s) == Ok::<Method, RpcErrorView>(Method::PhaseList) <==> s == "phase.list"@,
        routed(s) == Ok::<Method, RpcErrorView>(Method::PhaseTransition) <==> s == "phase.transition"@,
        routed(s) == Ok::<Method, RpcErrorView>(Method::PhaseUpdate) <==> s == "phase.update"@,
        routed(s) == Ok::<Method, RpcErrorView>(Method::WorkCreate) <==> s == "work.create"@,
        routed(s) == Ok::<Method, RpcErrorView>(Method::WorkGet) <==> s == "work.get"@,
        routed(s) == Ok::<Method, RpcErrorView>(Method::WorkList) <==> s == "work.list"@,
        routed(s) == Ok::<Method, RpcErrorView>(Method::WorkTransition) <==> s == "work.transition"@,
        routed(s) == Ok::<Method, RpcErrorView>(Method::WorkUpdate) <==> s == "work.update"@,
        routed(s) == Ok::<Method, RpcErrorView>(Method::BundleCreate) <==> s == "bundle.create"@,
        routed(s) == Ok::<Method, RpcErrorView>(Method::BundleGet) <==> s == "bundle.get"@,
        routed(s) == Ok::<Method, RpcErrorView>(Method::BundleList) <==> s == "bundle.list"@,
        routed(s) == Ok::<Method, RpcErrorView>(Method::BundleTransition) <==> s == "bundle.transition"@,
        routed(s) == Ok::<Method, RpcErrorView>(Method::BundleUpdate) <==> s == "bundle.update"@,
        routed(s) == Ok::<Method, RpcErrorView>(Method::TickCreate) <==> s == "tick.create"@,
        routed(s) == Ok::<Method, RpcErrorView>(Method::TickGet) <==> s == "tick.get"@,
        routed(s) == Ok::<Method, RpcErrorView>(Method::TickList) <==> s == "tick.list"@,
        routed(s) == Ok::<Method, RpcErrorView>(Method::TickTransition) <==> s == "tick.transition"@,
        routed(s) == Ok::<Method, RpcErrorView>(Method::TickUpdate) <==> s == "tick.update"@,
        routed(s) == Ok::<Method, RpcErrorView>(Method::LearningCreate) <==> s == "learning.create"@,
        routed(s) == Ok::<Method, RpcErrorView>(Method::LearningGet) <==> s == "learning.get"@,
        routed(s) == Ok::<Method, RpcErrorView>(Method::LearningList) <==> s == "learning.list"@,
        routed(s) == Ok::<Method, RpcErrorView>(Method::LearningUpdate) <==> s == "learning.update"@,
        routed(s) == Ok::<Method, RpcErrorView>(Method::LearningReinforce) <==> s == "learning.reinforce"@,
        routed(s) == Ok::<Method, RpcErrorView>(Method::LearningContradict) <==> s == "learning.contradict"@,
        routed(s) == Ok::<Method, RpcErrorView>(Method::LearningPromote) <==> s == "learning.promote"@,
        routed(s) == Ok::<Method, RpcErrorView>(Method::LearningDemote) <==> s == "learning.demote"@,
        routed(s) == Ok::<Method, RpcErrorView>(Method::LockCreate) <==> s == "lock.create"@,
        routed(s) == Ok::<Method, RpcErrorView>(Method::LockGet) <==> s == "lock.get"@,
        routed(s) == Ok::<Method, RpcErrorView>(Method::LockList) <==> s == "lock.list"@,
        routed(s) == Ok::<Method, RpcErrorView>(Method::LockRelease) <==> s == "lock.release"@,
        routed(s) == Ok::<Method, RpcErrorView>(Method::LockExpire) <==> s == "lock.expire"@,
        routed(s) == Ok::<Method, RpcErrorView>(Method::WorktreeCreate) <==> s == "worktree.create"@,
        routed(s) == Ok::<Method, RpcErrorView>(Method::WorktreeList) <==> s == "worktree.list"@,
        routed(s) == Ok::<Method, RpcErrorView>(Method::WorktreeCleanup) <==> s == "worktree.cleanup"@,
        routed(s) == Ok::<Method, RpcErrorView>(Method::WorktreeRefresh) <==> s == "worktree.refresh"@,
        routed(s) == Ok::<Method, RpcErrorView>(Method::IntegratorValidate) <==> s == "integrator.validate"@,
        routed(s) == Ok::<Method, RpcErrorView>(Method::IntegratorPublish) <==> s == "integrator.publish"@,
        routed(s) == Ok::<Method, RpcErrorView>(Method::ValidatorValidate) <==> s == "validator.validate"@,
        routed(s) == Ok::<Method, RpcErrorView>(Method::ValidatorReport) <==> s == "validator.report"@,
        routed(s) == Ok::<Method, RpcErrorView>(Method::ValidatorReports) <==> s == "validator.reports"@,
        routed(s) == Ok::<Method, RpcErrorView>(Method::CoverageEvaluate) <==> s == "coverage.evaluate"@,
        routed(s) == Ok::<Method, RpcErrorView>(Method::ToolList) <==> s == "tool.list"@,
        routed(s) == Ok::<Method, RpcErrorView>(Method::ToolsRegister) <==> s == "tools.register"@,
        routed(s) == Ok::<Method, RpcErrorView>(Method::CoordinatorSetGoal) <==> s == "coordinator.set_goal"@,
        routed(s) == Ok::<Method, RpcErrorView>(Method::CoordinatorClearGoal) <==> s == "coordinator.clear_goal"@,
        routed(s) == Ok::<Method, RpcErrorView>(Method::CoordinatorGetGoal) <==> s == "coordinator.get_goal"@,
        routed(s) == Ok::<Method, RpcErrorView>(Method::CoordinatorGetState) <==> s == "coordinator.get_state"@,
        routed(s) == Ok::<Method, RpcErrorView>(Method::CoordinatorResetState) <==> s == "coordinator.reset_state"@,
        routed(s) == Ok::<Method, RpcErrorView>(Method::CoordinatorInterviewRespond) <==> s == "coordinator.interview_respond"@,
        routed(s) == Ok::<Method, RpcErrorView>(Method::CoordinatorAcceptPlan) <==> s == "coordinator.accept_plan"@,
        routed(s) == Ok::<Method, RpcErrorView>(Method::CoordinatorInterviewQuestion) <==> s == "coordinator.interview_question"@,
        routed(s) == Ok::<Method, RpcErrorView>(Method::ChatSubmit) <==> s == "chat.submit"@,
        routed(s) == Ok::<Method, RpcErrorView>(Method::ChatAttach) <==> s == "chat.attach"@,
        routed(s) == Ok::<Method, RpcErrorView>(Method::ChatHistory) <==> s == "chat.history"@,
        routed(s) == Ok::<Method, RpcErrorView>(Method::AgentStart) <==> s == "agent.start"@,
        routed(s) == Ok::<Method, RpcErrorView>(Method::AgentStop) <==> s == "agent.stop"@,
        routed(s) == Ok::<Method, RpcErrorView>(Method::AgentPause) <==> s == "agent.pause"@,
        routed(s) == Ok::<Method, RpcErrorView>(Method::AgentResume) <==> s == "agent.resume"@,
        routed(s) == Ok::<Method, RpcErrorView>(Method::AgentStatus) <==> s == "agent.status"@,
        routed(s) == Ok::<Method, RpcErrorView>(Method::AgentList) <==> s == "agent.list"@,
        routed(s) == Ok::<Method, RpcErrorView>(Method::AgentOutput) <==> s == "agent.output"@,
{
    methods_are_reached_by_name(Method::SystemHandshake, s);
    methods_are_reached_by_name(Method::SystemInit, s);
    methods_are_reached_by_name(Method::SystemStatus, s);
    methods_are_reached_by_name(Method::SystemShutdown, s);
    methods_are_reached_by_name(Method::PlanCreate, s);
    methods_are_reached_by_name(Method::PlanGet, s);
    methods_are_reached_by_name(Method::PlanList, s);
    methods_are_reached_by_name(Method::PlanTransition, s);
    methods_are_reached_by_name(Method::PlanUpdate, s);
    methods_are_reached_by_name(Method::SpecCreate, s);
    methods_are_reached_by_name(Method::SpecGet, s);
    methods_are_reached_by_name(Method::SpecList, s);
    methods_are_reached_by_name(Method::SpecTransition, s);
    methods_are_reached_by_name(Method::SpecUpdate, s);
    methods_are_reached_by_name(Method::PhaseCreate, s);
    methods_are_reached_by_name(Method::PhaseGet, s);
    methods_are_reached_by_name(Method::PhaseList, s);
    methods_are_reached_by_name(Method::PhaseTransition, s);
    methods_are_reached_by_name(Method::PhaseUpdate, s);
    methods_are_reached_by_name(Method::WorkCreate, s);
    methods_are_reached_by_name(Method::WorkGet, s);
    methods_are_reached_by_name(Method::WorkList, s);
    methods_are_reached_by_name(Method::WorkTransition, s);
    methods_are_reached_by_name(Method::WorkUpdate, s);
    methods_are_reached_by_name(Method::BundleCreate, s);
    methods_are_reached_by_name(Method::BundleGet, s);
    methods_are_reached_by_name(Method::BundleList, s);
    methods_are_reached_by_name(Method::BundleTransition, s);
    methods_are_reached_by_name(Method::BundleUpdate, s);
    methods_are_reached_by_name(Method::TickCreate, s);
    methods_are_reached_by_name(Method::TickGet, s);
    methods_are_reached_by_name(Method::TickList, s);
    methods_are_reached_by_name(Method::TickTransition, s);
    methods_are_reached_by_name(Method::TickUpdate, s);
    methods_are_reached_by_name(Method::LearningCreate, s);
    methods_are_reached_by_name(Method::LearningGet, s);
    methods_are_reached_by_name(Method::LearningList, s);
    methods_are_reached_by_name(Method::LearningUpdate, s);
    methods_are_reached_by_name(Method::LearningReinforce, s);
    methods_are_reached_by_name(Method::LearningContradict, s);
    methods_are_reached_by_name(Method::LearningPromote, s);
    methods_are_reached_by_name(Method::LearningDemote, s);
    methods_are_reached_by_name(Method::LockCreate, s);
    methods_are_reached_by_name(Method::LockGet, s);
    methods_are_reached_by_name(Method::LockList, s);
    methods_are_reached_by_name(Method::LockRelease, s);
    methods_are_reached_by_name(Method::LockExpire, s);
    methods_are_reached_by_name(Method::WorktreeCreate, s);
    methods_are_reached_by_name(Method::WorktreeList, s);
    methods_are_reached_by_name(Method::WorktreeCleanup, s);
    methods_are_reached_by_name(Method::WorktreeRefresh, s);
    methods_are_reached_by_name(Method::IntegratorValidate, s);
    methods_are_reached_by_name(Method::IntegratorPublish, s);
    methods_are_reached_by_name(Method::ValidatorValidate, s);
    methods_are_reached_by_name(Method::ValidatorReport, s);
    methods_are_reached_by_name(Method::ValidatorReports, s);
    methods_are_reached_by_name(Method::CoverageEvaluate, s);
    methods_are_reached_by_name(Method::ToolList, s);
    methods_are_reached_by_name(Method::ToolsRegister, s);
    methods_are_reached_by_name(Method::CoordinatorSetGoal, s);
    methods_are_reached_by_name(Method::CoordinatorClearGoal, s);
    methods_are_reached_by_name(Method::CoordinatorGetGoal, s);
    methods_are_reached_by_name(Method::CoordinatorGetState, s);
    methods_are_reached_by_name(Method::CoordinatorResetState, s);
    methods_are_reached_by_name(Method::CoordinatorInterviewRespond, s);
    methods_are_reached_by_name(Method::CoordinatorAcceptPlan, s);
    methods_are_reached_by_name(Method::CoordinatorInterviewQuestion, s);
    methods_are_reached_by_name(Method::ChatSubmit, s);
    methods_are_reached_by_name(Method::ChatAttach, s);
    methods_are_reached_by_name(Method::ChatHistory, s);
    methods_are_reached_by_name(Method::AgentStart, s);
    methods_are_reached_by_name(Method::AgentStop, s);
    methods_are_reached_by_name(Method::AgentPause, s);
    methods_are_reached_by_name(Method::AgentResume, s);
    methods_are_reached_by_name(Method::AgentStatus, s);
    methods_are_reached_by_name(Method::AgentList, s);
    methods_are_reached_by_name(Method::AgentOutput, s);
}

} // verus!
