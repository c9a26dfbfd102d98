//! The budget guard of `ctxguard run`: it watches the effective context of a
//! live session and fires once, when the budget is first reached.

use vstd::prelude::*;
use crate::text::str_eq;

verus! {

/// What to do when the budget is hit.
#[derive(Debug, Clone, Copy, PartialEq, Eq, Structural)]
pub enum OnFull {
    /// Print a warning and let the agent go on.
    Warn,
    /// Ask the agent to compact its context.
    Compress,
    /// Stop the agent.
    Kill,
}

/// What the guard asks for after an observation.
#[derive(Debug, Clone, Copy, PartialEq, Eq, Structural)]
pub enum GuardAction {
    Nothing,
    Warn,
    Compress,
    Kill,
}

/// The action that a policy stands for.
pub open spec fn action_for(on_full: OnFull) -> GuardAction {
    match on_full {
        OnFull::Warn => GuardAction::Warn,
        OnFull::Compress => GuardAction::Compress,
        OnFull::Kill => GuardAction::Kill,
    }
}

impl OnFull {
    /// The policy named `warn`, `compress` or `kill`; `None` for any other name.
    pub fn from_name(name: &str) -> (on_full: Option<OnFull>)
        ensures
            on_full == (if name@ == "warn"@ {
                Some(OnFull::Warn)
            } else if name@ == "compress"@ {
                Some(OnFull::Compress)
            } else if name@ == "kill"@ {
                Some(OnFull::Kill)
            } else {
                None
            }),
    {
        if str_eq(name, "warn") {
            Some(OnFull::Warn)
        } else if str_eq(name, "compress") {
            Some(OnFull::Compress)
        } else if str_eq(name, "kill") {
            Some(OnFull::Kill)
        } else {
            None
        }
    }
}

/// A budget, the policy for hitting it, and whether it has been hit.
pub struct BudgetGuard {
    pub budget: u64,
    pub on_full: OnFull,
    pub triggered: bool,
}

/// One observation: the guard fires on the first context at or over the
/// budget, and never again.
pub open spec fn guard_step(guard: BudgetGuard, effective_context: u64) -> (BudgetGuard, GuardAction) {
    if !guard.triggered && effective_context >= guard.budget {
        (BudgetGuard { triggered: true, ..guard }, action_for(guard.on_full))
    } else {
        (guard, GuardAction::Nothing)
    }
}

/// The actions asked for over a series of observations, and the guard after them.
pub open spec fn guard_run(guard: BudgetGuard, contexts: Seq<u64>) -> (BudgetGuard, Seq<GuardAction>)
    decreases contexts.len(),
{
    if contexts.len() == 0 {
        (guard, Seq::empty())
    } else {
        let (before, actions) = guard_run(guard, contexts.drop_last());
        let (after, action) = guard_step(before, contexts.last());
        (after, actions.push(action))
    }
}

impl BudgetGuard {
    /// A guard that has not fired.
    pub fn new(budget: u64, on_full: OnFull) -> (guard: BudgetGuard)
        ensures
            guard == (BudgetGuard { budget, on_full, triggered: false }),
    {
        BudgetGuard { budget, on_full, triggered: false }
    }

    /// Takes the effective context that the session has now reached.
    pub fn observe(&mut self, effective_context: u64) -> (action: GuardAction)
        ensures
            (*final(self), action) == guard_step(*old(self), effective_context),
    {
        if !self.triggered && effective_context >= self.budget {
            self.triggered = true;
            match self.on_full {
                OnFull::Warn => GuardAction::Warn,
                OnFull::Compress => GuardAction::Compress,
                OnFull::Kill => GuardAction::Kill,
            }
        } else {
            GuardAction::Nothing
        }
    }
}

/// Over any series of observations the guard keeps its budget and policy,
/// answers each observation with one action, and is triggered at the end
/// exactly when it was triggered at the start or some context reached the
/// budget.
pub proof fn law_guard_run_shape(guard: BudgetGuard, contexts: Seq<u64>)
    ensures
        guard_run(guard, contexts).0.budget == guard.budget,
        guard_run(guard, contexts).0.on_full == guard.on_full,
        guard_run(guard, contexts).1.len() == contexts.len(),
        guard_run(guard, contexts).0.triggered <==> (guard.triggered || exists|i: int|
            0 <= i < contexts.len() && contexts[i] >= guard.budget),
    decreases contexts.len(),
{
    if contexts.len() > 0 {
        let rest = contexts.drop_last();
        law_guard_run_shape(guard, rest);
        if guard_run(guard, contexts).0.triggered && !guard.triggered {
            if !(exists|i: int| 0 <= i < rest.len() && rest[i] >= guard.budget) {
                assert(contexts[contexts.len() - 1] >= guard.budget);
            }
        }
        if exists|i: int| 0 <= i < contexts.len() && contexts[i] >= guard.budget {
            let i = choose|i: int| 0 <= i < contexts.len() && contexts[i] >= guard.budget;
            if i < rest.len() {
                assert(rest[i] >= guard.budget);
            }
        }
    }
}

/// A fresh guard fires at most once: exactly at the first observation that
/// reaches the budget, with the action of its policy; every other
/// observation is answered with `Nothing`.
pub proof fn law_guard_fires_once(budget: u64, on_full: OnFull, contexts: Seq<u64>)
    ensures
        forall|i: int| 0 <= i < contexts.len() ==> #[trigger] guard_run(
            BudgetGuard { budget, on_full, triggered: false },
            contexts,
        ).1[i] == (if contexts[i] >= budget && (forall|j: int| 0 <= j < i ==> contexts[j] < budget) {
            action_for(on_full)
        } else {
            GuardAction::Nothing
        }),
    decreases contexts.len(),
{
    let g = BudgetGuard { budget, on_full, triggered: false };
    if contexts.len() > 0 {
        let rest = contexts.drop_last();
        law_guard_fires_once(budget, on_full, rest);
        law_guard_run_shape(g, rest);
        let n = contexts.len() - 1;
        assert forall|i: int| 0 <= i < contexts.len() implies #[trigger] guard_run(g, contexts).1[i]
            == (if contexts[i] >= budget && (forall|j: int| 0 <= j < i ==> contexts[j] < budget) {
            action_for(on_full)
        } else {
            GuardAction::Nothing
        }) by {
            if i < n {
                assert(guard_run(g, contexts).1[i] == guard_run(g, rest).1[i]);
                assert(rest[i] == contexts[i]);
                assert forall|j: int| 0 <= j < i implies rest[j] == contexts[j] by {}
            } else {
                if exists|j: int| 0 <= j < rest.len() && rest[j] >= budget {
                    let j = choose|j: int| 0 <= j < rest.len() && rest[j] >= budget;
                    assert(contexts[j] >= budget);
                } else {
                    assert forall|j: int| 0 <= j < i implies contexts[j] < budget by {
                        assert(rest[j] == contexts[j]);
                    }
                }
            }
        }
    }
}

} // verus!
