use vstd::prelude::*;

use crate::chamber::{Chamber, Neighbourhood};

verus! {

/// `rule` gives at most one result for each neighbourhood.
pub open spec fn deterministic_rule<T, F: Fn(Neighbourhood<T>) -> T>(rule: F) -> bool {
    forall|nb: Neighbourhood<T>, r1: T, r2: T|
        #[trigger] rule.ensures((nb,), r1) && #[trigger] rule.ensures((nb,), r2) ==> r1 == r2
}

/// `sum` gives at most one result for each pair of arguments.
pub open spec fn deterministic_sum<T, F: Fn(T, T) -> T>(sum: F) -> bool {
    forall|a: T, b: T, r1: T, r2: T|
        #[trigger] sum.ensures((a, b), r1) && #[trigger] sum.ensures((a, b), r2) ==> r1 == r2
}

/// Two chambers that were just built, or just reset, with the same length and
/// the same resting pressure hold exactly the same state.
pub proof fn lemma_fresh_chambers_agree<T>(a: Chamber<T>, b: Chamber<T>)
    requires
        a.wf(),
        b.wf(),
        a.at_rest(),
        b.at_rest(),
        a.current().len() == b.current().len(),
        a.rest_value() == b.rest_value(),
    ensures
        a.same_state(b),
{
}

/// Stepping is deterministic: two chambers in the same state, each advanced
/// once with the same deterministic stencil rule, are again in the same state.
pub proof fn lemma_step_deterministic<T, F: Fn(Neighbourhood<T>) -> T>(
    a: Chamber<T>,
    b: Chamber<T>,
    a_next: Chamber<T>,
    b_next: Chamber<T>,
    rule: F,
)
    requires
        a.wf(),
        a.same_state(b),
        deterministic_rule(rule),
        Chamber::stepped(a, a_next, rule),
        Chamber::stepped(b, b_next, rule),
    ensures
        a_next.same_state(b_next),
{
    assert(a_next.current() =~= b_next.current());
}

/// Injection is deterministic: two chambers in the same state, each given the
/// same amount with the same deterministic addition, are again in the same
/// state.
pub proof fn lemma_injection_deterministic<T, F: Fn(T, T) -> T>(
    a: Chamber<T>,
    b: Chamber<T>,
    a_next: Chamber<T>,
    b_next: Chamber<T>,
    amount: T,
    sum: F,
)
    requires
        a.wf(),
        a.same_state(b),
        deterministic_sum(sum),
        Chamber::injected(a, a_next, amount, sum),
        Chamber::injected(b, b_next, amount, sum),
    ensures
        a_next.same_state(b_next),
{
    assert(a_next.current() =~= b_next.current());
}

} // verus!
