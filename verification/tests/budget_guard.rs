use ctxguard::budget::{BudgetGuard, GuardAction, OnFull};

#[test]
fn policy_names() {
    assert_eq!(OnFull::from_name("warn"), Some(OnFull::Warn));
    assert_eq!(OnFull::from_name("compress"), Some(OnFull::Compress));
    assert_eq!(OnFull::from_name("kill"), Some(OnFull::Kill));
    assert_eq!(OnFull::from_name("Kill"), None);
    assert_eq!(OnFull::from_name(""), None);
}

#[test]
fn guard_fires_once_at_the_budget() {
    let mut g = BudgetGuard::new(80000, OnFull::Warn);
    assert_eq!(g.observe(1000), GuardAction::Nothing);
    assert_eq!(g.observe(79999), GuardAction::Nothing);
    assert!(!g.triggered);
    assert_eq!(g.observe(80000), GuardAction::Warn);
    assert!(g.triggered);
    assert_eq!(g.observe(90000), GuardAction::Nothing);
    assert_eq!(g.observe(10), GuardAction::Nothing);
    assert!(g.triggered);
}

#[test]
fn guard_actions_follow_policy() {
    let mut c = BudgetGuard::new(150000, OnFull::Compress);
    assert_eq!(c.observe(200000), GuardAction::Compress);
    let mut k = BudgetGuard::new(5, OnFull::Kill);
    assert_eq!(k.observe(5), GuardAction::Kill);
    assert_eq!(k.observe(6), GuardAction::Nothing);
}

#[test]
fn zero_budget_fires_on_first_observation() {
    let mut g = BudgetGuard::new(0, OnFull::Kill);
    assert_eq!(g.observe(0), GuardAction::Kill);
    assert_eq!(g.observe(0), GuardAction::Nothing);
}
