//! What holds of every compiled topology, whatever the configuration: how
//! many operations of each kind it has, what each chain receives and in
//! which order, and that chains exist before rules are appended.

use vstd::prelude::*;
use crate::chain::Chain;
use crate::config::ConfigView;
use crate::decimal::{decimal, lemma_decimal_injective};
use crate::rules::{
    divert_accept_rule, divert_mark_rule, inbound_rule, input_reply_rule, input_syn_rule, jump,
    jump_return, marked_return, outbound_guard_rule, outbound_redirect_rule, output_divert_rule,
    output_ignore_rule, output_loopback_rule, output_reply_rule, prerouting_external_rule,
    prerouting_local_rule, redirect_rule, set_mark, unmarked_return,
};
use crate::step::{ActionKind, ActionView, Stage, StepView};
use crate::tally::{
    appends_to, chain_rules, count, doing, indicator, lemma_chain_rules_add,
    lemma_chain_rules_all, lemma_chain_rules_none, lemma_count_add, lemma_count_all,
    lemma_count_none, lemma_count_push, of_kind, precedes, rule_of,
};
use crate::topology::{
    appending, chain_steps, creation, divert_steps, hook_steps, inbound_steps, input_hook_steps,
    outbound_steps, output_hook_steps, population, prerouting_hook_steps, redirect_steps,
    topology, tproxy_input_steps, tproxy_output_steps, tproxy_prerouting_steps,
};

verus! {

/// Whether the step is an entry hook: a rule appended to a built-in chain.
pub open spec fn entry_hook() -> spec_fn(StepView) -> bool {
    |step: StepView| step.action matches ActionView::Append { chain, .. } && chain.builtin()
}

/// What `chain` holds once the topology for `c` was applied to a table
/// that held nothing before: its rules, first to last.
pub open spec fn contents(c: ConfigView, chain: Chain) -> Seq<Seq<char>> {
    match chain {
        Chain::Prerouting => seq![jump(Chain::TproxyPrerouting)],
        Chain::Input => seq![jump(Chain::TproxyInput)],
        Chain::Output => seq![jump(Chain::TproxyOutput)],
        Chain::Divert => seq![divert_mark_rule(c), divert_accept_rule()],
        Chain::Redirect => seq![redirect_rule(c)],
        Chain::Inbound => seq![inbound_rule(c)],
        Chain::Outbound => seq![outbound_guard_rule(c), outbound_redirect_rule(c)],
        Chain::TproxyPrerouting => seq![prerouting_local_rule(), prerouting_external_rule(c)],
        Chain::TproxyOutput => seq![
            output_reply_rule(c),
            output_loopback_rule(),
            output_ignore_rule(c),
            output_divert_rule(c),
        ],
        Chain::TproxyInput => seq![input_syn_rule(c), input_reply_rule(c)],
    }
}

/// Steps that all append to the chain `on` give `chain` their rules if it
/// is that chain, and nothing if it is another.
proof fn lemma_rules_of_stage(steps: Seq<StepView>, on: Chain, chain: Chain)
    requires
        forall|i: int| 0 <= i < steps.len() ==> appends_to(#[trigger] steps[i], on),
    ensures
        chain_rules(steps, chain) == if chain == on {
            steps.map_values(|step: StepView| rule_of(step))
        } else {
            Seq::<Seq<char>>::empty()
        },
{
    if chain == on {
        lemma_chain_rules_all(steps, chain);
    } else {
        lemma_chain_rules_none(steps, chain);
    }
}

/// The topology gives each chain exactly its contents, in order: the rules
/// of a chain are appended first to last, and no other step touches the
/// chain.
pub proof fn lemma_topology_fills_chains(c: ConfigView, chain: Chain)
    ensures
        chain_rules(topology(c), chain) == contents(c, chain),
{
    assert(topology(c) =~= chain_steps() + prerouting_hook_steps() + input_hook_steps()
        + output_hook_steps() + divert_steps(c) + redirect_steps(c) + inbound_steps(c)
        + outbound_steps(c) + tproxy_prerouting_steps(c) + tproxy_output_steps(c)
        + tproxy_input_steps(c));
    let t0 = chain_steps();
    let t1 = t0 + prerouting_hook_steps();
    let t2 = t1 + input_hook_steps();
    let t3 = t2 + output_hook_steps();
    let t4 = t3 + divert_steps(c);
    let t5 = t4 + redirect_steps(c);
    let t6 = t5 + inbound_steps(c);
    let t7 = t6 + outbound_steps(c);
    let t8 = t7 + tproxy_prerouting_steps(c);
    let t9 = t8 + tproxy_output_steps(c);
    lemma_chain_rules_add(t0, prerouting_hook_steps(), chain);
    lemma_chain_rules_add(t1, input_hook_steps(), chain);
    lemma_chain_rules_add(t2, output_hook_steps(), chain);
    lemma_chain_rules_add(t3, divert_steps(c), chain);
    lemma_chain_rules_add(t4, redirect_steps(c), chain);
    lemma_chain_rules_add(t5, inbound_steps(c), chain);
    lemma_chain_rules_add(t6, outbound_steps(c), chain);
    lemma_chain_rules_add(t7, tproxy_prerouting_steps(c), chain);
    lemma_chain_rules_add(t8, tproxy_output_steps(c), chain);
    lemma_chain_rules_add(t9, tproxy_input_steps(c), chain);
    lemma_chain_rules_none(chain_steps(), chain);
    lemma_rules_of_stage(prerouting_hook_steps(), Chain::Prerouting, chain);
    lemma_rules_of_stage(input_hook_steps(), Chain::Input, chain);
    lemma_rules_of_stage(output_hook_steps(), Chain::Output, chain);
    lemma_rules_of_stage(divert_steps(c), Chain::Divert, chain);
    lemma_rules_of_stage(redirect_steps(c), Chain::Redirect, chain);
    lemma_rules_of_stage(inbound_steps(c), Chain::Inbound, chain);
    lemma_rules_of_stage(outbound_steps(c), Chain::Outbound, chain);
    lemma_rules_of_stage(tproxy_prerouting_steps(c), Chain::TproxyPrerouting, chain);
    lemma_rules_of_stage(tproxy_output_steps(c), Chain::TproxyOutput, chain);
    lemma_rules_of_stage(tproxy_input_steps(c), Chain::TproxyInput, chain);
}

/// The shape of the topology does not depend on the configuration: it is
/// always 7 chain creations followed by 17 rule appends and nothing else,
/// of which 3 are the entry hooks (one per built-in chain) and the rest
/// populate `DIVERT` (2), `TPROXY_REDIRECT` (1), `INBOUND` (1), `OUTBOUND`
/// (2), `TPROXY_PREROUTING` (2), `TPROXY_OUTPUT` (4) and `TPROXY_INPUT` (2).
pub proof fn lemma_topology_shape(c: ConfigView)
    ensures
        topology(c).len() == 24,
        count(topology(c), of_kind(ActionKind::NewChain)) == 7,
        count(topology(c), of_kind(ActionKind::Append)) == 17,
        count(topology(c), entry_hook()) == 3,
        count(topology(c), of_kind(ActionKind::Shell)) == 0,
        count(topology(c), of_kind(ActionKind::FlushTable)) == 0,
        count(topology(c), of_kind(ActionKind::DeleteTable)) == 0,
        chain_rules(topology(c), Chain::Prerouting).len() == 1,
        chain_rules(topology(c), Chain::Input).len() == 1,
        chain_rules(topology(c), Chain::Output).len() == 1,
        chain_rules(topology(c), Chain::Divert).len() == 2,
        chain_rules(topology(c), Chain::Redirect).len() == 1,
        chain_rules(topology(c), Chain::Inbound).len() == 1,
        chain_rules(topology(c), Chain::Outbound).len() == 2,
        chain_rules(topology(c), Chain::TproxyPrerouting).len() == 2,
        chain_rules(topology(c), Chain::TproxyOutput).len() == 4,
        chain_rules(topology(c), Chain::TproxyInput).len() == 2,
{
    lemma_topology_fills_chains(c, Chain::Prerouting);
    lemma_topology_fills_chains(c, Chain::Input);
    lemma_topology_fills_chains(c, Chain::Output);
    lemma_topology_fills_chains(c, Chain::Divert);
    lemma_topology_fills_chains(c, Chain::Redirect);
    lemma_topology_fills_chains(c, Chain::Inbound);
    lemma_topology_fills_chains(c, Chain::Outbound);
    lemma_topology_fills_chains(c, Chain::TproxyPrerouting);
    lemma_topology_fills_chains(c, Chain::TproxyOutput);
    lemma_topology_fills_chains(c, Chain::TproxyInput);
    lemma_topology_parts(c);
    lemma_topology_hooks(c);
    lemma_topology_kind(c, ActionKind::NewChain);
    lemma_topology_kind(c, ActionKind::Append);
    lemma_topology_kind(c, ActionKind::Shell);
    lemma_topology_kind(c, ActionKind::FlushTable);
    lemma_topology_kind(c, ActionKind::DeleteTable);
}

/// The topology is made of three parts: 7 chain creations, 3 entry hooks
/// and 14 appends to custom chains.
pub proof fn lemma_topology_parts(c: ConfigView)
    ensures
        chain_steps().len() == 7,
        hook_steps().len() == 3,
        population(c).len() == 14,
        topology(c).len() == 24,
        forall|i: int|
            0 <= i < 7 ==> (#[trigger] chain_steps()[i]).action.kind() == ActionKind::NewChain,
        forall|i: int|
            0 <= i < 3 ==> (#[trigger] hook_steps()[i]).action.kind() == ActionKind::Append
                && entry_hook()(hook_steps()[i]),
        forall|i: int|
            0 <= i < 14 ==> (#[trigger] population(c)[i]).action.kind() == ActionKind::Append
                && !entry_hook()(population(c)[i]),
{
}

/// How many steps of each kind the topology holds.
proof fn lemma_topology_kind(c: ConfigView, kind: ActionKind)
    ensures
        count(topology(c), of_kind(kind)) == if kind == ActionKind::NewChain {
            7nat
        } else if kind == ActionKind::Append {
            17nat
        } else {
            0nat
        },
{
    lemma_topology_parts(c);
    lemma_count_add(chain_steps() + hook_steps(), population(c), of_kind(kind));
    lemma_count_add(chain_steps(), hook_steps(), of_kind(kind));
    if kind == ActionKind::NewChain {
        lemma_count_all(chain_steps(), of_kind(kind));
        lemma_count_none(hook_steps(), of_kind(kind));
        lemma_count_none(population(c), of_kind(kind));
    } else if kind == ActionKind::Append {
        lemma_count_none(chain_steps(), of_kind(kind));
        lemma_count_all(hook_steps(), of_kind(kind));
        lemma_count_all(population(c), of_kind(kind));
    } else {
        lemma_count_none(chain_steps(), of_kind(kind));
        lemma_count_none(hook_steps(), of_kind(kind));
        lemma_count_none(population(c), of_kind(kind));
    }
}

/// The topology holds three entry hooks.
proof fn lemma_topology_hooks(c: ConfigView)
    ensures
        count(topology(c), entry_hook()) == 3,
{
    lemma_topology_parts(c);
    lemma_count_add(chain_steps() + hook_steps(), population(c), entry_hook());
    lemma_count_add(chain_steps(), hook_steps(), entry_hook());
    lemma_count_none(chain_steps(), entry_hook());
    lemma_count_all(hook_steps(), entry_hook());
    lemma_count_none(population(c), entry_hook());
}

/// What is neither a chain creation nor a rule append does not occur in
/// the topology.
pub proof fn lemma_topology_lacks(c: ConfigView, wanted: spec_fn(StepView) -> bool)
    requires
        forall|step: StepView| #[trigger]
            wanted(step) ==> step.action.kind() != ActionKind::NewChain && step.action.kind()
                != ActionKind::Append,
    ensures
        count(topology(c), wanted) == 0,
{
    lemma_topology_parts(c);
    lemma_count_add(chain_steps() + hook_steps(), population(c), wanted);
    lemma_count_add(chain_steps(), hook_steps(), wanted);
    lemma_count_none(chain_steps(), wanted);
    lemma_count_none(hook_steps(), wanted);
    lemma_count_none(population(c), wanted);
}

/// A text between a fixed head and a fixed tail is determined by the
/// whole.
proof fn lemma_middle_determined(
    head: Seq<char>,
    first: Seq<char>,
    second: Seq<char>,
    tail: Seq<char>,
)
    requires
        head + first + tail == head + second + tail,
    ensures
        first == second,
{
    let whole = head + first + tail;
    assert(first =~= whole.subrange(head.len() as int, (head.len() + first.len()) as int));
    assert(second =~= (head + second + tail).subrange(
        head.len() as int,
        (head.len() + second.len()) as int,
    ));
}

/// Distinct marks are written apart. Where the ignore mark and the divert
/// mark differ, the mark that `DIVERT` sets is not the ignore mark, the
/// rule of `TPROXY_OUTPUT` that returns on the ignore mark does not return
/// on the divert mark, and the guard of `OUTBOUND` does not spare the
/// ignore mark in place of the divert mark.
pub proof fn lemma_marks_kept_apart(c: ConfigView)
    requires
        c.ignore_mask != c.mask,
    ensures
        divert_mark_rule(c) != set_mark(c.ignore_mask),
        output_ignore_rule(c) != marked_return(c.mask),
        outbound_guard_rule(c) != unmarked_return(c.ignore_mask),
{
    lemma_decimal_injective(c.mask, c.ignore_mask);
    if divert_mark_rule(c) == set_mark(c.ignore_mask) {
        lemma_middle_determined(
            "-j MARK --set-xmark "@,
            decimal(c.mask),
            decimal(c.ignore_mask),
            Seq::empty(),
        );
    }
    if output_ignore_rule(c) == marked_return(c.mask) {
        assert("-m mark --mark "@ + decimal(c.ignore_mask) + (" "@ + jump_return())
            =~= marked_return(c.ignore_mask));
        assert("-m mark --mark "@ + decimal(c.mask) + (" "@ + jump_return()) =~= marked_return(
            c.mask,
        ));
        lemma_middle_determined(
            "-m mark --mark "@,
            decimal(c.ignore_mask),
            decimal(c.mask),
            " "@ + jump_return(),
        );
    }
    if outbound_guard_rule(c) == unmarked_return(c.ignore_mask) {
        assert("-m mark ! --mark "@ + decimal(c.ignore_mask) + (" "@ + jump_return())
            =~= unmarked_return(c.ignore_mask));
        assert("-m mark ! --mark "@ + decimal(c.mask) + (" "@ + jump_return())
            =~= unmarked_return(c.mask));
        lemma_middle_determined(
            "-m mark ! --mark "@,
            decimal(c.mask),
            decimal(c.ignore_mask),
            " "@ + jump_return(),
        );
    }
}

/// In every topology the guard of `OUTBOUND`, which returns on packets
/// without the divert mark, precedes the chain's redirect rule; the two are
/// all that the chain holds.
pub proof fn lemma_outbound_guard_precedes_redirect(c: ConfigView)
    ensures
        chain_rules(topology(c), Chain::Outbound) == seq![
            outbound_guard_rule(c),
            outbound_redirect_rule(c),
        ],
        precedes(
            topology(c),
            appending(Stage::Outbound, Chain::Outbound, outbound_guard_rule(c)),
            appending(Stage::Outbound, Chain::Outbound, outbound_redirect_rule(c)),
        ),
{
    lemma_topology_fills_chains(c, Chain::Outbound);
    lemma_topology_parts(c);
    assert(topology(c)[14] == appending(Stage::Outbound, Chain::Outbound, outbound_guard_rule(c)));
    assert(topology(c)[15] == appending(
        Stage::Outbound,
        Chain::Outbound,
        outbound_redirect_rule(c),
    ));
}

/// In every topology the rule of `TPROXY_OUTPUT` that returns on packets
/// with the ignore mark precedes the rule that forwards to `DIVERT`: they
/// are the third and the fourth of the chain's four rules.
pub proof fn lemma_output_ignore_precedes_divert(c: ConfigView)
    ensures
        chain_rules(topology(c), Chain::TproxyOutput) == seq![
            output_reply_rule(c),
            output_loopback_rule(),
            output_ignore_rule(c),
            output_divert_rule(c),
        ],
        precedes(
            topology(c),
            appending(Stage::TproxyOutput, Chain::TproxyOutput, output_ignore_rule(c)),
            appending(Stage::TproxyOutput, Chain::TproxyOutput, output_divert_rule(c)),
        ),
{
    lemma_topology_fills_chains(c, Chain::TproxyOutput);
    lemma_topology_parts(c);
    assert(topology(c)[20] == appending(
        Stage::TproxyOutput,
        Chain::TproxyOutput,
        output_ignore_rule(c),
    ));
    assert(topology(c)[21] == appending(
        Stage::TproxyOutput,
        Chain::TproxyOutput,
        output_divert_rule(c),
    ));
}

/// Every chain is created before any rule is appended: in the topology
/// each creation stands before each append, every custom chain is created
/// exactly once, and no built-in chain is created.
pub proof fn lemma_chains_created_first(c: ConfigView, chain: Chain)
    ensures
        forall|i: int, j: int|
            0 <= i < topology(c).len() && 0 <= j < topology(c).len() && (#[trigger] topology(
                c,
            )[i]).action.kind() == ActionKind::NewChain && (#[trigger] topology(
                c,
            )[j]).action.kind() == ActionKind::Append ==> i < j,
        count(topology(c), doing(creation(chain).action)) == indicator(!chain.builtin()),
{
    lemma_topology_parts(c);
    let wanted = doing(creation(chain).action);
    lemma_count_add(chain_steps() + hook_steps(), population(c), wanted);
    lemma_count_add(chain_steps(), hook_steps(), wanted);
    lemma_count_none(hook_steps(), wanted);
    lemma_count_none(population(c), wanted);
    lemma_count_created(chain);
}

/// Among the chain creations each custom chain occurs once, and no
/// built-in chain occurs.
proof fn lemma_count_created(chain: Chain)
    ensures
        count(chain_steps(), doing(creation(chain).action)) == indicator(!chain.builtin()),
{
    let wanted = doing(creation(chain).action);
    let s0 = Seq::<StepView>::empty();
    let s1 = s0.push(creation(Chain::Divert));
    let s2 = s1.push(creation(Chain::Redirect));
    let s3 = s2.push(creation(Chain::Inbound));
    let s4 = s3.push(creation(Chain::Outbound));
    let s5 = s4.push(creation(Chain::TproxyPrerouting));
    let s6 = s5.push(creation(Chain::TproxyInput));
    let s7 = s6.push(creation(Chain::TproxyOutput));
    lemma_count_push(s0, creation(Chain::Divert), wanted);
    lemma_count_push(s1, creation(Chain::Redirect), wanted);
    lemma_count_push(s2, creation(Chain::Inbound), wanted);
    lemma_count_push(s3, creation(Chain::Outbound), wanted);
    lemma_count_push(s4, creation(Chain::TproxyPrerouting), wanted);
    lemma_count_push(s5, creation(Chain::TproxyInput), wanted);
    lemma_count_push(s6, creation(Chain::TproxyOutput), wanted);
    assert(s7 =~= chain_steps());
}

} // verus!
