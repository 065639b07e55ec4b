//! The two plans: everything that installing the interception takes, and
//! everything that removing it takes, and how the two relate.

use vstd::prelude::*;
use crate::chain::{Chain, Table};
use crate::config::ConfigView;
use crate::run::{lemma_failure_stops_run, EventView, FailureView, RunView, StatusView};
use crate::shape::{
    contents, lemma_topology_fills_chains, lemma_topology_lacks, lemma_topology_parts,
};
use crate::step::{ActionKind, ActionView, Stage, StepView};
use crate::system::{
    flag_command, flag_steps, lemma_command_heads, lemma_command_shapes, route_command,
    route_removal_steps, route_steps, rule_command, KernelFlag,
};
use crate::tally::{
    chain_rules, count, doing, executing, indicator, starting, lemma_chain_rules_add, lemma_chain_rules_none,
    lemma_count_add, lemma_count_all, lemma_count_none, lemma_count_pair, of_kind,
};
use crate::topology::{teardown, topology};

verus! {

/// Everything that installing the interception for `c` takes, in order:
/// the kernel flags are switched on, the policy routing is installed, and
/// the topology is applied: chains created, entry hooks installed, chains
/// populated.
pub open spec fn deploy_plan(c: ConfigView) -> Seq<StepView> {
    flag_steps(Stage::KernelFlags, true) + route_steps(c) + topology(c)
}

/// Everything that removing the interception for `c` takes, in order: the
/// table is flushed and its custom chains deleted, the policy routing is
/// removed, and the kernel flags are switched off.
pub open spec fn destroy_plan(c: ConfigView) -> Seq<StepView> {
    teardown() + route_removal_steps(c) + flag_steps(Stage::KernelFlagsReset, false)
}

/// The stages of `steps`, step by step.
pub open spec fn stages_of(steps: Seq<StepView>) -> Seq<Stage> {
    steps.map_values(|step: StepView| step.stage)
}

/// The stages of an installation, step by step: kernel flags, policy
/// routing, chain creation, the three entry hooks, then the population of
/// `DIVERT`, `TPROXY_REDIRECT`, `INBOUND`, `OUTBOUND`, `TPROXY_PREROUTING`,
/// `TPROXY_OUTPUT` and `TPROXY_INPUT`.
pub open spec fn deploy_stages() -> Seq<Stage> {
    seq![
        Stage::KernelFlags,
        Stage::KernelFlags,
        Stage::PolicyRoute,
        Stage::PolicyRoute,
        Stage::Chains,
        Stage::Chains,
        Stage::Chains,
        Stage::Chains,
        Stage::Chains,
        Stage::Chains,
        Stage::Chains,
        Stage::PreroutingHook,
        Stage::InputHook,
        Stage::OutputHook,
        Stage::Divert,
        Stage::Divert,
        Stage::Redirect,
        Stage::Inbound,
        Stage::Outbound,
        Stage::Outbound,
        Stage::TproxyPrerouting,
        Stage::TproxyPrerouting,
        Stage::TproxyOutput,
        Stage::TproxyOutput,
        Stage::TproxyOutput,
        Stage::TproxyOutput,
        Stage::TproxyInput,
        Stage::TproxyInput,
    ]
}

/// The stages of a removal, step by step: the table, the policy routing,
/// the kernel flags.
pub open spec fn destroy_stages() -> Seq<Stage> {
    seq![
        Stage::TableRemoval,
        Stage::TableRemoval,
        Stage::PolicyRouteRemoval,
        Stage::PolicyRouteRemoval,
        Stage::KernelFlagsReset,
        Stage::KernelFlagsReset,
    ]
}

/// Whatever the configuration, an installation and a removal go through
/// their stages in the same order, stage after stage, and never back.
pub proof fn lemma_stages_in_order(c: ConfigView)
    ensures
        stages_of(deploy_plan(c)) == deploy_stages(),
        stages_of(destroy_plan(c)) == destroy_stages(),
{
    lemma_topology_parts(c);
    assert(stages_of(destroy_plan(c)) =~= destroy_stages());
    assert(stages_of(deploy_plan(c)).len() == 28);
    assert(stages_of(deploy_plan(c)) =~= deploy_stages());
}

/// An installation is made of 4 shell commands, then 7 chain creations,
/// then 17 rule appends: the topology follows the shell commands.
pub proof fn lemma_deploy_plan_parts(c: ConfigView)
    ensures
        deploy_plan(c).len() == 28,
        deploy_plan(c).skip(4) == topology(c),
        forall|i: int|
            0 <= i < 4 ==> (#[trigger] deploy_plan(c)[i]).action.kind() == ActionKind::Shell,
        forall|i: int|
            4 <= i < 11 ==> (#[trigger] deploy_plan(c)[i]).action.kind() == ActionKind::NewChain,
        forall|i: int|
            11 <= i < 28 ==> (#[trigger] deploy_plan(c)[i]).action.kind() == ActionKind::Append,
{
    lemma_topology_parts(c);
}

/// The shell commands of an installation append no rule: a complete
/// installation gives each chain exactly the contents that the topology
/// gives it.
pub proof fn lemma_deploy_fills_chains(c: ConfigView, chain: Chain)
    ensures
        chain_rules(deploy_plan(c), chain) == contents(c, chain),
{
    let shell = flag_steps(Stage::KernelFlags, true) + route_steps(c);
    lemma_chain_rules_add(shell, topology(c), chain);
    lemma_chain_rules_none(shell, chain);
    lemma_topology_fills_chains(c, chain);
}

/// Installation is not idempotent. Nothing remembers what was applied, so
/// a second installation appends every rule a second time: each chain then
/// holds its contents twice over.
pub proof fn lemma_second_deploy_duplicates(c: ConfigView, chain: Chain)
    ensures
        chain_rules(deploy_plan(c) + deploy_plan(c), chain) == contents(c, chain) + contents(
            c,
            chain,
        ),
{
    lemma_chain_rules_add(deploy_plan(c), deploy_plan(c), chain);
    lemma_deploy_fills_chains(c, chain);
}

/// An installation that stopped early leaves each chain with the first
/// rules of its contents, in order: whatever the number of steps that were
/// performed, no chain holds a rule without those that go before it.
pub proof fn lemma_partial_deploy_keeps_order(c: ConfigView, performed: int, chain: Chain)
    requires
        0 <= performed <= deploy_plan(c).len(),
    ensures
        chain_rules(deploy_plan(c).take(performed), chain).is_prefix_of(contents(c, chain)),
{
    let done = deploy_plan(c).take(performed);
    let left = deploy_plan(c).skip(performed);
    assert(done + left =~= deploy_plan(c));
    lemma_chain_rules_add(done, left, chain);
    lemma_deploy_fills_chains(c, chain);
}

/// A failure of the `n`-th rule append stops the installation. If every
/// step before the `n`-th of the 17 appends went well and the firewall
/// rejects that append, then, whatever is reported afterwards, no later
/// step is performed, and the run has failed with a failure that names the
/// step and says that an append failed.
pub proof fn lemma_append_failure_stops_deploy(c: ConfigView, events: Seq<EventView>, n: int)
    requires
        1 <= n <= 17,
        10 + n < events.len(),
        forall|i: int| 0 <= i < 10 + n ==> !(#[trigger] events[i]).fatal(),
        events[10 + n].fatal(),
    ensures
        deploy_plan(c)[10 + n].action.kind() == ActionKind::Append,
        count(deploy_plan(c).take(10 + n), of_kind(ActionKind::Append)) == n - 1,
        RunView::start(deploy_plan(c)).performed(events) == deploy_plan(c).take(11 + n),
        RunView::start(deploy_plan(c)).after(events).status() == StatusView::Failed(
            FailureView {
                position: (10 + n) as nat,
                stage: deploy_plan(c)[10 + n].stage,
                kind: ActionKind::Append,
                message: events[10 + n].message(),
            },
        ),
{
    lemma_deploy_plan_parts(c);
    lemma_failure_stops_run(deploy_plan(c), events, 10 + n);
    let plan = deploy_plan(c);
    let wanted = of_kind(ActionKind::Append);
    let front = plan.take(11);
    let back = plan.subrange(11, 10 + n);
    assert(plan.take(10 + n) =~= front + back);
    lemma_count_add(front, back, wanted);
    lemma_count_none(front, wanted);
    lemma_count_all(back, wanted);
}

/// An installation followed by its removal.
pub open spec fn cycle(c: ConfigView) -> Seq<StepView> {
    deploy_plan(c) + destroy_plan(c)
}

/// Removal mirrors installation. Over an installation followed by its
/// removal the table is flushed exactly once and deleted exactly once.
/// Exactly one command removes a policy rule and exactly one removes a
/// route, and they name the routing table and the mark of the one command
/// that installed the rule and of the one that installed the route. Each
/// of the two kernel flags is switched on once and off once, and no other
/// command is run.
pub proof fn lemma_destroy_mirrors_deploy(c: ConfigView)
    ensures
        count(cycle(c), of_kind(ActionKind::FlushTable)) == 1,
        count(cycle(c), of_kind(ActionKind::DeleteTable)) == 1,
        count(cycle(c), doing(ActionView::FlushTable { table: Table::Mangle })) == 1,
        count(cycle(c), doing(ActionView::DeleteTable { table: Table::Mangle })) == 1,
        count(cycle(c), starting("ip rule del"@)) == 1,
        count(cycle(c), starting("ip route del"@)) == 1,
        count(cycle(c), executing(rule_command(false, c.mask, c.route_table))) == 1,
        count(cycle(c), executing(route_command(false, c.route_table))) == 1,
        count(cycle(c), starting("ip rule add"@)) == 1,
        count(cycle(c), starting("ip route add"@)) == 1,
        count(cycle(c), executing(rule_command(true, c.mask, c.route_table))) == 1,
        count(cycle(c), executing(route_command(true, c.route_table))) == 1,
        count(cycle(c), executing(flag_command(KernelFlag::Reflect, true))) == 1,
        count(cycle(c), executing(flag_command(KernelFlag::Reflect, false))) == 1,
        count(cycle(c), executing(flag_command(KernelFlag::Accept, true))) == 1,
        count(cycle(c), executing(flag_command(KernelFlag::Accept, false))) == 1,
        count(cycle(c), of_kind(ActionKind::Shell)) == 8,
{
    lemma_cycle_table(c);
    lemma_cycle_routing_heads(c);
    lemma_cycle_routing(c);
    lemma_cycle_flags(c);
}

/// Over an installation and its removal the table is flushed once and
/// deleted once.
proof fn lemma_cycle_table(c: ConfigView)
    ensures
        count(cycle(c), of_kind(ActionKind::FlushTable)) == 1,
        count(cycle(c), of_kind(ActionKind::DeleteTable)) == 1,
        count(cycle(c), doing(ActionView::FlushTable { table: Table::Mangle })) == 1,
        count(cycle(c), doing(ActionView::DeleteTable { table: Table::Mangle })) == 1,
        count(cycle(c), of_kind(ActionKind::Shell)) == 8,
{
    lemma_count_cycle(c, of_kind(ActionKind::FlushTable));
    lemma_count_cycle(c, of_kind(ActionKind::DeleteTable));
    lemma_count_cycle(c, of_kind(ActionKind::Shell));
    lemma_count_cycle(c, doing(ActionView::FlushTable { table: Table::Mangle }));
    lemma_count_cycle(c, doing(ActionView::DeleteTable { table: Table::Mangle }));
}

/// Over an installation and its removal one command each installs the
/// policy rule, installs the route, removes the rule and removes the
/// route.
proof fn lemma_cycle_routing_heads(c: ConfigView)
    ensures
        count(cycle(c), starting("ip rule del"@)) == 1,
        count(cycle(c), starting("ip route del"@)) == 1,
        count(cycle(c), starting("ip rule add"@)) == 1,
        count(cycle(c), starting("ip route add"@)) == 1,
{
    lemma_command_heads(c.mask, c.route_table);
    lemma_count_cycle(c, starting("ip rule del"@));
    lemma_count_cycle(c, starting("ip route del"@));
    lemma_count_cycle(c, starting("ip rule add"@));
    lemma_count_cycle(c, starting("ip route add"@));
}

/// Over an installation and its removal each of the four routing commands
/// for the configured mark and table is run once.
proof fn lemma_cycle_routing(c: ConfigView)
    ensures
        count(cycle(c), executing(rule_command(false, c.mask, c.route_table))) == 1,
        count(cycle(c), executing(route_command(false, c.route_table))) == 1,
        count(cycle(c), executing(rule_command(true, c.mask, c.route_table))) == 1,
        count(cycle(c), executing(route_command(true, c.route_table))) == 1,
{
    lemma_command_shapes(true, true, c.mask, c.route_table);
    lemma_command_shapes(false, false, c.mask, c.route_table);
    lemma_count_cycle(c, executing(rule_command(true, c.mask, c.route_table)));
    lemma_count_cycle(c, executing(rule_command(false, c.mask, c.route_table)));
    lemma_count_cycle(c, executing(route_command(true, c.route_table)));
    lemma_count_cycle(c, executing(route_command(false, c.route_table)));
}

/// Over an installation and its removal each kernel flag is switched on
/// once and off once.
proof fn lemma_cycle_flags(c: ConfigView)
    ensures
        count(cycle(c), executing(flag_command(KernelFlag::Reflect, true))) == 1,
        count(cycle(c), executing(flag_command(KernelFlag::Reflect, false))) == 1,
        count(cycle(c), executing(flag_command(KernelFlag::Accept, true))) == 1,
        count(cycle(c), executing(flag_command(KernelFlag::Accept, false))) == 1,
{
    lemma_command_shapes(true, true, c.mask, c.route_table);
    lemma_command_shapes(false, false, c.mask, c.route_table);
    lemma_count_cycle(c, executing(flag_command(KernelFlag::Reflect, true)));
    lemma_count_cycle(c, executing(flag_command(KernelFlag::Reflect, false)));
    lemma_count_cycle(c, executing(flag_command(KernelFlag::Accept, true)));
    lemma_count_cycle(c, executing(flag_command(KernelFlag::Accept, false)));
}

/// What is neither a chain creation nor a rule append is counted, over an
/// installation followed by a removal, among the ten steps around the
/// topology.
proof fn lemma_count_cycle(c: ConfigView, wanted: spec_fn(StepView) -> bool)
    requires
        forall|step: StepView| #[trigger]
            wanted(step) ==> step.action.kind() != ActionKind::NewChain && step.action.kind()
                != ActionKind::Append,
    ensures
        count(cycle(c), wanted) == count(flag_steps(Stage::KernelFlags, true), wanted) + count(route_steps(c), wanted) + count(teardown(), wanted) + count(
            route_removal_steps(c),
            wanted,
        ) + count(flag_steps(Stage::KernelFlagsReset, false), wanted),
        count(flag_steps(Stage::KernelFlags, true), wanted) == indicator(
            wanted(flag_steps(Stage::KernelFlags, true)[0]),
        ) + indicator(wanted(flag_steps(Stage::KernelFlags, true)[1])),
        count(route_steps(c), wanted) == indicator(wanted(route_steps(c)[0])) + indicator(
            wanted(route_steps(c)[1]),
        ),
        count(teardown(), wanted) == indicator(wanted(teardown()[0])) + indicator(
            wanted(teardown()[1]),
        ),
        count(route_removal_steps(c), wanted) == indicator(wanted(route_removal_steps(c)[0]))
            + indicator(wanted(route_removal_steps(c)[1])),
        count(flag_steps(Stage::KernelFlagsReset, false), wanted) == indicator(
            wanted(flag_steps(Stage::KernelFlagsReset, false)[0]),
        ) + indicator(wanted(flag_steps(Stage::KernelFlagsReset, false)[1])),
{
    let flags_on = flag_steps(Stage::KernelFlags, true);
    let flags_off = flag_steps(Stage::KernelFlagsReset, false);
    lemma_topology_lacks(c, wanted);
    lemma_count_add(deploy_plan(c), destroy_plan(c), wanted);
    lemma_count_add(flags_on + route_steps(c), topology(c), wanted);
    lemma_count_add(flags_on, route_steps(c), wanted);
    lemma_count_add(teardown() + route_removal_steps(c), flags_off, wanted);
    lemma_count_add(teardown(), route_removal_steps(c), wanted);
    lemma_count_pair(flags_on[0], flags_on[1], wanted);
    lemma_count_pair(route_steps(c)[0], route_steps(c)[1], wanted);
    lemma_count_pair(teardown()[0], teardown()[1], wanted);
    lemma_count_pair(route_removal_steps(c)[0], route_removal_steps(c)[1], wanted);
    lemma_count_pair(flags_off[0], flags_off[1], wanted);
}

} // verus!
