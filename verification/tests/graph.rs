//! Cycles in the dependencies of work items.

use loopr::graph::detect_dependency_cycle;
use loopr::records::Work;
use loopr::table::Table;

fn work(id: &str, title: &str) -> Work {
    Work::new(id.to_string(), "ph-1".to_string(), title.to_string(), 0)
}

fn self_reference() {
    let mut works: Table<Work> = Table::new();
    let w = work("wk-1", "A");
    let id = w.id.clone();
    works.put(w);
    assert!(detect_dependency_cycle(&works, &id, &vec![id.clone()]));
}

fn direct() {
    let mut works: Table<Work> = Table::new();
    let mut a = work("wk-1", "A");
    let b = work("wk-2", "B");
    let a_id = a.id.clone();
    let b_id = b.id.clone();
    a.dependencies = vec![b_id.clone()];
    works.put(a);
    works.put(b);
    assert!(!detect_dependency_cycle(&works, "wk-new", &vec![a_id.clone()]));
    assert!(detect_dependency_cycle(&works, &b_id, &vec![a_id]));
}

fn transitive() {
    let mut works: Table<Work> = Table::new();
    let mut a = work("wk-1", "A");
    let mut b = work("wk-2", "B");
    let c = work("wk-3", "C");
    let a_id = a.id.clone();
    let c_id = c.id.clone();
    a.dependencies = vec![b.id.clone()];
    b.dependencies = vec![c_id.clone()];
    works.put(a);
    works.put(b);
    works.put(c);
    assert!(detect_dependency_cycle(&works, &c_id, &vec![a_id]));
}

fn valid_chain() {
    let mut works: Table<Work> = Table::new();
    let a = work("wk-1", "A");
    let mut b = work("wk-2", "B");
    let b_id = b.id.clone();
    b.dependencies = vec![a.id.clone()];
    works.put(a);
    works.put(b);
    assert!(!detect_dependency_cycle(&works, "wk-c", &vec![b_id]));
}

fn diamond() {
    let mut works: Table<Work> = Table::new();
    let d = work("wk-1", "D");
    let mut b = work("wk-2", "B");
    let mut c = work("wk-3", "C");
    let b_id = b.id.clone();
    let c_id = c.id.clone();
    b.dependencies = vec![d.id.clone()];
    c.dependencies = vec![d.id.clone()];
    works.put(d);
    works.put(b);
    works.put(c);
    assert!(!detect_dependency_cycle(&works, "wk-a", &vec![b_id, c_id]));
}

#[test]
fn mod_test_detect_cycle_self_reference() {
    self_reference();
}

#[test]
fn mod_test_detect_cycle_direct() {
    direct();
}

#[test]
fn mod_test_detect_cycle_transitive() {
    transitive();
}

#[test]
fn mod_test_detect_cycle_valid_chain() {
    valid_chain();
}

#[test]
fn mod_test_detect_cycle_diamond_accepted() {
    diamond();
}

#[test]
fn work_test_detect_cycle_self_reference() {
    self_reference();
}

#[test]
fn work_test_detect_cycle_direct() {
    direct();
}

#[test]
fn work_test_detect_cycle_transitive() {
    transitive();
}

#[test]
fn work_test_detect_cycle_valid_chain() {
    valid_chain();
}

#[test]
fn work_test_detect_cycle_diamond_accepted() {
    diamond();
}

#[test]
fn dependencies_that_are_not_known_lead_nowhere() {
    let works: Table<Work> = Table::new();
    assert!(!detect_dependency_cycle(&works, "wk-1", &vec!["wk-2".to_string()]));
    assert!(!detect_dependency_cycle(&works, "wk-1", &Vec::new()));
}

#[test]
fn a_cycle_elsewhere_is_walked_once() {
    let mut works: Table<Work> = Table::new();
    let mut a = work("wk-1", "A");
    let mut b = work("wk-2", "B");
    a.dependencies = vec!["wk-2".to_string()];
    b.dependencies = vec!["wk-1".to_string()];
    works.put(a);
    works.put(b);
    assert!(!detect_dependency_cycle(&works, "wk-3", &vec!["wk-1".to_string()]));
}
