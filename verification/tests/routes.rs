//! Methods, and the agents that requests start.

use loopr::config::Config;
use loopr::protocol::DaemonRequest;
use loopr::routes::{auto_start_agents, route, Method};
use loopr::status::AgentType;

fn config() -> Config {
    let mut config = Config::default();
    config.agents.auto_start_implementer = true;
    config.agents.auto_start_reviewer = true;
    config
}

#[test]
fn methods_are_found_by_their_names() {
    for method in [
        Method::SystemHandshake,
        Method::PlanCreate,
        Method::WorkTransition,
        Method::LearningContradict,
        Method::CoordinatorInterviewQuestion,
        Method::ToolsRegister,
        Method::AgentOutput,
    ] {
        let req = DaemonRequest::new(1, method.name(), "{}");
        assert_eq!(route(&req).unwrap(), method);
    }
    assert_eq!(Method::LockExpire.name(), "lock.expire");
}

#[test]
fn other_methods_are_not_found() {
    let e = route(&DaemonRequest::new(1, "plan.destroy", "{}")).unwrap_err();
    assert_eq!(e.code, -32601);
    assert_eq!(e.message, "method not found: plan.destroy");
}

#[test]
fn beginning_a_work_item_starts_an_implementer() {
    let req = DaemonRequest::new(
        1,
        "work.transition",
        r#"{"id": "wk-1", "target_status": "InProgress"}"#,
    );
    let starts = auto_start_agents(&config().agents, &req, false);
    assert_eq!(starts.len(), 1);
    assert_eq!(starts[0].agent_type, AgentType::Implementer);
    assert_eq!(starts[0].work_id, Some("wk-1".to_string()));
    assert_eq!(starts[0].bundle_id, None);
    assert!(auto_start_agents(&config().agents, &req, true).is_empty());
    assert!(auto_start_agents(&Config::default().agents, &req, false).is_empty());
    let mut pulling = config();
    pulling.agents.pull_based_workers = true;
    assert!(auto_start_agents(&pulling.agents, &req, false).is_empty());
}

#[test]
fn triaging_a_bundle_starts_an_agent_to_judge_it() {
    let req = DaemonRequest::new(
        1,
        "bundle.transition",
        r#"{"id": "bd-1", "target_status": "Triaged"}"#,
    );
    let starts = auto_start_agents(&config().agents, &req, false);
    assert_eq!(starts.len(), 1);
    assert_eq!(starts[0].agent_type, AgentType::Reviewer);
    assert_eq!(starts[0].bundle_id, Some("bd-1".to_string()));
    assert_eq!(starts[0].work_id, None);
}

#[test]
fn other_requests_start_nothing() {
    for (method, params) in [
        ("bundle.transition", r#"{"id": "xx-1", "target_status": "Triaged"}"#),
        ("bundle.transition", r#"{"id": "bd-1", "target_status": "Accepted"}"#),
        ("work.transition", r#"{"id": "wk-1", "target_status": "inprogress"}"#),
        ("work.transition", r#"{"target_status": "InProgress"}"#),
        ("work.update", r#"{"id": "wk-1", "target_status": "InProgress"}"#),
        ("agent.start", r#"{"id": "bd-1", "target_status": "Triaged"}"#),
    ] {
        let req = DaemonRequest::new(1, method, params);
        assert!(auto_start_agents(&config().agents, &req, false).is_empty(), "{}", params);
    }
}
