//! The records that the daemon holds in memory.

use crate::records::{
    AgentSession, AgentSessionView, Bundle, BundleView, Phase, PhaseView, Plan, PlanView, Spec,
    SpecView, Tick, TickView, ToolEntry, ToolEntryView, Work, WorkView,
};
use crate::table::Table;
use vstd::prelude::*;

verus! {

/// The records that the daemon holds in memory.
pub struct Stores {
    pub plans: Table<Plan>,
    pub specs: Table<Spec>,
    pub phases: Table<Phase>,
    pub works: Table<Work>,
    pub bundles: Table<Bundle>,
    pub ticks: Table<Tick>,
    pub agent_sessions: Table<AgentSession>,
    /// Tools that agents registered since the daemon started.
    pub runtime_tools: Table<ToolEntry>,
}

#[verifier::ext_equal]
pub struct StoresView {
    pub plans: Seq<PlanView>,
    pub specs: Seq<SpecView>,
    pub phases: Seq<PhaseView>,
    pub works: Seq<WorkView>,
    pub bundles: Seq<BundleView>,
    pub ticks: Seq<TickView>,
    pub agent_sessions: Seq<AgentSessionView>,
    pub runtime_tools: Seq<ToolEntryView>,
}

impl View for Stores {
    type V = StoresView;

    open spec fn view(&self) -> StoresView {
        StoresView {
            plans: self.plans@,
            specs: self.specs@,
            phases: self.phases@,
            works: self.works@,
            bundles: self.bundles@,
            ticks: self.ticks@,
            agent_sessions: self.agent_sessions@,
            runtime_tools: self.runtime_tools@,
        }
    }
}

impl Stores {
    /// No records at all.
    pub fn new() -> (r: Self)
        ensures
            r@ == (StoresView {
                plans: Seq::empty(),
                specs: Seq::empty(),
                phases: Seq::empty(),
                works: Seq::empty(),
                bundles: Seq::empty(),
                ticks: Seq::empty(),
                agent_sessions: Seq::empty(),
                runtime_tools: Seq::empty(),
            }),
    {
        Stores {
            plans: Table::new(),
            specs: Table::new(),
            phases: Table::new(),
            works: Table::new(),
            bundles: Table::new(),
            ticks: Table::new(),
            agent_sessions: Table::new(),
            runtime_tools: Table::new(),
        }
    }
}

} // verus!
