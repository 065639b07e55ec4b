//! Counting over step lists: how often something occurs, what a chain
//! receives, and what stands before what.

use vstd::prelude::*;
use crate::chain::Chain;
use crate::step::{ActionKind, ActionView, StepView};

verus! {

/// One for a step that counts, zero for one that does not.
pub open spec fn indicator(counts: bool) -> nat {
    if counts {
        1
    } else {
        0
    }
}

/// How many steps of `steps` are `wanted`.
pub open spec fn count(steps: Seq<StepView>, wanted: spec_fn(StepView) -> bool) -> nat
    decreases steps.len(),
{
    if steps.len() == 0 {
        0
    } else {
        count(steps.drop_last(), wanted) + indicator(wanted(steps.last()))
    }
}

/// The steps whose action is of kind `kind`.
pub open spec fn of_kind(kind: ActionKind) -> spec_fn(StepView) -> bool {
    |step: StepView| step.action.kind() == kind
}

/// The steps whose action is `action`.
pub open spec fn doing(action: ActionView) -> spec_fn(StepView) -> bool {
    |step: StepView| step.action == action
}

/// The steps that run exactly `command` through the shell.
pub open spec fn executing(command: Seq<char>) -> spec_fn(StepView) -> bool {
    |step: StepView| step.action == (ActionView::Shell { command })
}

/// The steps that run, through the shell, a command that starts with
/// `head`.
pub open spec fn starting(head: Seq<char>) -> spec_fn(StepView) -> bool {
    |step: StepView|
        step.action matches ActionView::Shell { command } && head.is_prefix_of(command)
}

/// Whether the step appends a rule to `chain`.
pub open spec fn appends_to(step: StepView, chain: Chain) -> bool {
    step.action matches ActionView::Append { chain: target, .. } && target == chain
}

/// The rule that an appending step carries; empty for the other steps.
pub open spec fn rule_of(step: StepView) -> Seq<char> {
    match step.action {
        ActionView::Append { rule, .. } => rule,
        _ => Seq::empty(),
    }
}

/// The rules that `steps` append to `chain`, in the order of the steps:
/// what the chain holds once the steps were performed on a chain that was
/// empty before.
pub open spec fn chain_rules(steps: Seq<StepView>, chain: Chain) -> Seq<Seq<char>>
    decreases steps.len(),
{
    if steps.len() == 0 {
        Seq::empty()
    } else if appends_to(steps.last(), chain) {
        chain_rules(steps.drop_last(), chain).push(rule_of(steps.last()))
    } else {
        chain_rules(steps.drop_last(), chain)
    }
}

/// Whether `earlier` stands before `later` in `steps`.
pub open spec fn precedes(steps: Seq<StepView>, earlier: StepView, later: StepView) -> bool {
    exists|i: int, j: int| 0 <= i < j < steps.len() && steps[i] == earlier && steps[j] == later
}

/// Counting after a push adds one where the pushed step is wanted.
pub proof fn lemma_count_push(
    steps: Seq<StepView>,
    step: StepView,
    wanted: spec_fn(StepView) -> bool,
)
    ensures
        count(steps.push(step), wanted) == count(steps, wanted) + indicator(wanted(step)),
{
    assert(steps.push(step).drop_last() =~= steps);
}

/// Counting over two steps.
pub proof fn lemma_count_pair(first: StepView, second: StepView, wanted: spec_fn(StepView) -> bool)
    ensures
        count(seq![first, second], wanted) == indicator(wanted(first)) + indicator(
            wanted(second),
        ),
{
    let none = Seq::<StepView>::empty();
    lemma_count_push(none, first, wanted);
    lemma_count_push(none.push(first), second, wanted);
    assert(none.push(first).push(second) =~= seq![first, second]);
}

/// Counting over a concatenation is adding the counts.
pub proof fn lemma_count_add(
    front: Seq<StepView>,
    back: Seq<StepView>,
    wanted: spec_fn(StepView) -> bool,
)
    ensures
        count(front + back, wanted) == count(front, wanted) + count(back, wanted),
    decreases back.len(),
{
    if back.len() > 0 {
        assert((front + back).drop_last() =~= front + back.drop_last());
        lemma_count_add(front, back.drop_last(), wanted);
    }
}

/// Where every step is wanted, the count is the length.
pub proof fn lemma_count_all(steps: Seq<StepView>, wanted: spec_fn(StepView) -> bool)
    requires
        forall|i: int| 0 <= i < steps.len() ==> wanted(#[trigger] steps[i]),
    ensures
        count(steps, wanted) == steps.len(),
    decreases steps.len(),
{
    if steps.len() > 0 {
        lemma_count_all(steps.drop_last(), wanted);
    }
}

/// Where no step is wanted, the count is zero.
pub proof fn lemma_count_none(steps: Seq<StepView>, wanted: spec_fn(StepView) -> bool)
    requires
        forall|i: int| 0 <= i < steps.len() ==> !wanted(#[trigger] steps[i]),
    ensures
        count(steps, wanted) == 0,
    decreases steps.len(),
{
    if steps.len() > 0 {
        lemma_count_none(steps.drop_last(), wanted);
    }
}

/// The rules of a chain over a concatenation are those of the front, then
/// those of the back.
pub proof fn lemma_chain_rules_add(front: Seq<StepView>, back: Seq<StepView>, chain: Chain)
    ensures
        chain_rules(front + back, chain) == chain_rules(front, chain) + chain_rules(back, chain),
    decreases back.len(),
{
    if back.len() > 0 {
        assert((front + back).drop_last() =~= front + back.drop_last());
        lemma_chain_rules_add(front, back.drop_last(), chain);
    }
}

/// Steps that all append to `chain` give it their rules, one for one.
pub proof fn lemma_chain_rules_all(steps: Seq<StepView>, chain: Chain)
    requires
        forall|i: int| 0 <= i < steps.len() ==> appends_to(#[trigger] steps[i], chain),
    ensures
        chain_rules(steps, chain) == steps.map_values(|step: StepView| rule_of(step)),
    decreases steps.len(),
{
    if steps.len() > 0 {
        lemma_chain_rules_all(steps.drop_last(), chain);
    }
}

/// Steps of which none appends to `chain` give it no rule.
pub proof fn lemma_chain_rules_none(steps: Seq<StepView>, chain: Chain)
    requires
        forall|i: int| 0 <= i < steps.len() ==> !appends_to(#[trigger] steps[i], chain),
    ensures
        chain_rules(steps, chain) == Seq::<Seq<char>>::empty(),
    decreases steps.len(),
{
    if steps.len() > 0 {
        lemma_chain_rules_none(steps.drop_last(), chain);
    }
}

} // verus!
