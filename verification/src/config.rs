//! The settings of the daemon that its decisions depend on.

use crate::records::ToolEntry;
use crate::status::AgentType;
use vstd::prelude::*;

verus! {

/// The settings of one role of agents.
#[derive(Debug, Clone)]
pub struct RoleConfig {
    /// How many agents of the role may be at work at once.
    pub max_pool: u32,
}

/// The settings of the coordinator.
#[derive(Debug, Clone)]
pub struct CoordinatorConfig {
    pub role: RoleConfig,
}

/// The settings of agents.
#[derive(Debug, Clone)]
pub struct AgentsConfig {
    pub enabled: bool,
    pub implementer: RoleConfig,
    pub reviewer: RoleConfig,
    pub coordinator: CoordinatorConfig,
    pub researcher: RoleConfig,
    /// Start an implementer for each work item that is begun.
    pub auto_start_implementer: bool,
    /// Start an agent to judge each bundle that is triaged.
    pub auto_start_reviewer: bool,
    /// Start the coordinator with the daemon.
    pub auto_start_coordinator: bool,
    /// Workers fetch work items themselves.
    pub pull_based_workers: bool,
    pub worker_pool_size: u32,
    /// The commands that agents can run.
    pub tools: Vec<ToolEntry>,
}

/// The settings of the integrator.
#[derive(Debug, Clone)]
pub struct IntegratorConfig {
    pub enabled: bool,
}

/// The settings of the daemon.
#[derive(Debug, Clone)]
pub struct Config {
    pub agents: AgentsConfig,
    pub integrator: IntegratorConfig,
}

impl Default for Config {
    /// At most six agents implement, two review, one coordinates and four
    /// research. The rest is a choice of this library: nothing runs, and nothing
    /// starts of itself, until it is switched on.
    fn default() -> (r: Self)
        ensures
            r.agents.implementer.max_pool == 6,
            r.agents.reviewer.max_pool == 2,
            r.agents.coordinator.role.max_pool == 1,
            r.agents.researcher.max_pool == 4,
            !r.agents.enabled,
            !r.agents.auto_start_implementer,
            !r.agents.auto_start_reviewer,
            !r.agents.auto_start_coordinator,
            !r.agents.pull_based_workers,
            r.agents.worker_pool_size == 0,
            r.agents.tools@.len() == 0,
            !r.integrator.enabled,
    {
        Config {
            agents: AgentsConfig {
                enabled: false,
                implementer: RoleConfig { max_pool: 6 },
                reviewer: RoleConfig { max_pool: 2 },
                coordinator: CoordinatorConfig { role: RoleConfig { max_pool: 1 } },
                researcher: RoleConfig { max_pool: 4 },
                auto_start_implementer: false,
                auto_start_reviewer: false,
                auto_start_coordinator: false,
                pull_based_workers: false,
                worker_pool_size: 0,
                tools: Vec::new(),
            },
            integrator: IntegratorConfig { enabled: false },
        }
    }
}

/// How many agents of a type may be at work at once.
pub open spec fn pool_limit(agent_type: AgentType, config: Config) -> u32 {
    match agent_type {
        AgentType::Implementer => config.agents.implementer.max_pool,
        AgentType::Reviewer => config.agents.reviewer.max_pool,
        AgentType::Coordinator => config.agents.coordinator.role.max_pool,
        AgentType::Researcher => config.agents.researcher.max_pool,
        AgentType::Integrator => 1,
        AgentType::Chat => 1,
    }
}

/// How many agents of a type may be at work at once.
pub fn max_pool_for(agent_type: AgentType, config: &Config) -> (r: u32)
    ensures
        r == pool_limit(agent_type, *config),
{
    match agent_type {
        AgentType::Implementer => config.agents.implementer.max_pool,
        AgentType::Reviewer => config.agents.reviewer.max_pool,
        AgentType::Coordinator => config.agents.coordinator.role.max_pool,
        AgentType::Researcher => config.agents.researcher.max_pool,
        AgentType::Integrator => 1,
        AgentType::Chat => 1,
    }
}

} // verus!
