//! The rule compiler: from a configuration to the ordered firewall
//! operations of the intercept topology.
//!
//! Every operation addresses the `mangle` table. The seven custom chains are
//! created first; each built-in chain then gets one jump appended to its
//! entry chain; last the custom chains are populated, one after the other.
//! Within a chain the order of the rules is part of the contract: the kernel
//! walks them first to last.

use vstd::prelude::*;
use crate::chain::{Chain, Table};
use crate::config::ConfigView;
use crate::hijack::Hijacker;
use crate::rules::{
    divert_accept_rule, divert_mark_rule, inbound_rule, input_reply_rule, input_syn_rule, jump,
    jump_text, outbound_guard_rule, outbound_redirect_rule, output_divert_rule,
    output_ignore_rule, output_loopback_rule, output_reply_rule, prerouting_external_rule,
    prerouting_local_rule, redirect_rule,
};
use crate::step::{steps_view, Action, ActionView, Stage, Step, StepView};

verus! {

/// The step that creates `chain` in the `mangle` table.
pub open spec fn creation(chain: Chain) -> StepView {
    StepView {
        stage: Stage::Chains,
        action: ActionView::NewChain { table: Table::Mangle, chain },
    }
}

/// The step of `stage` that appends `rule` to `chain` in the `mangle` table.
pub open spec fn appending(stage: Stage, chain: Chain, rule: Seq<char>) -> StepView {
    StepView { stage, action: ActionView::Append { table: Table::Mangle, chain, rule } }
}

/// Creation of the seven custom chains.
pub open spec fn chain_steps() -> Seq<StepView> {
    seq![
        creation(Chain::Divert),
        creation(Chain::Redirect),
        creation(Chain::Inbound),
        creation(Chain::Outbound),
        creation(Chain::TproxyPrerouting),
        creation(Chain::TproxyInput),
        creation(Chain::TproxyOutput),
    ]
}

/// The jump from `PREROUTING` into its entry chain.
pub open spec fn prerouting_hook_steps() -> Seq<StepView> {
    seq![appending(Stage::PreroutingHook, Chain::Prerouting, jump(Chain::TproxyPrerouting))]
}

/// The jump from `INPUT` into its entry chain.
pub open spec fn input_hook_steps() -> Seq<StepView> {
    seq![appending(Stage::InputHook, Chain::Input, jump(Chain::TproxyInput))]
}

/// The jump from `OUTPUT` into its entry chain.
pub open spec fn output_hook_steps() -> Seq<StepView> {
    seq![appending(Stage::OutputHook, Chain::Output, jump(Chain::TproxyOutput))]
}

/// The rules of `DIVERT`.
pub open spec fn divert_steps(c: ConfigView) -> Seq<StepView> {
    seq![
        appending(Stage::Divert, Chain::Divert, divert_mark_rule(c)),
        appending(Stage::Divert, Chain::Divert, divert_accept_rule()),
    ]
}

/// The rule of `TPROXY_REDIRECT`.
pub open spec fn redirect_steps(c: ConfigView) -> Seq<StepView> {
    seq![appending(Stage::Redirect, Chain::Redirect, redirect_rule(c))]
}

/// The rule of `INBOUND`.
pub open spec fn inbound_steps(c: ConfigView) -> Seq<StepView> {
    seq![appending(Stage::Inbound, Chain::Inbound, inbound_rule(c))]
}

/// The rules of `OUTBOUND`: the guard, then the redirect.
pub open spec fn outbound_steps(c: ConfigView) -> Seq<StepView> {
    seq![
        appending(Stage::Outbound, Chain::Outbound, outbound_guard_rule(c)),
        appending(Stage::Outbound, Chain::Outbound, outbound_redirect_rule(c)),
    ]
}

/// The rules of `TPROXY_PREROUTING`.
pub open spec fn tproxy_prerouting_steps(c: ConfigView) -> Seq<StepView> {
    seq![
        appending(Stage::TproxyPrerouting, Chain::TproxyPrerouting, prerouting_local_rule()),
        appending(Stage::TproxyPrerouting, Chain::TproxyPrerouting, prerouting_external_rule(c)),
    ]
}

/// The rules of `TPROXY_OUTPUT`.
pub open spec fn tproxy_output_steps(c: ConfigView) -> Seq<StepView> {
    seq![
        appending(Stage::TproxyOutput, Chain::TproxyOutput, output_reply_rule(c)),
        appending(Stage::TproxyOutput, Chain::TproxyOutput, output_loopback_rule()),
        appending(Stage::TproxyOutput, Chain::TproxyOutput, output_ignore_rule(c)),
        appending(Stage::TproxyOutput, Chain::TproxyOutput, output_divert_rule(c)),
    ]
}

/// The rules of `TPROXY_INPUT`.
pub open spec fn tproxy_input_steps(c: ConfigView) -> Seq<StepView> {
    seq![
        appending(Stage::TproxyInput, Chain::TproxyInput, input_syn_rule(c)),
        appending(Stage::TproxyInput, Chain::TproxyInput, input_reply_rule(c)),
    ]
}

/// The three entry hooks: each built-in chain gets one jump to its entry
/// chain.
pub open spec fn hook_steps() -> Seq<StepView> {
    prerouting_hook_steps() + input_hook_steps() + output_hook_steps()
}

/// The population of the seven custom chains, chain after chain.
pub open spec fn population(c: ConfigView) -> Seq<StepView> {
    divert_steps(c) + redirect_steps(c) + inbound_steps(c) + outbound_steps(c)
        + tproxy_prerouting_steps(c) + tproxy_output_steps(c) + tproxy_input_steps(c)
}

/// The complete intercept topology for `c`, in the order of application:
/// the chains are created, the entry hooks installed, the chains populated.
pub open spec fn topology(c: ConfigView) -> Seq<StepView> {
    chain_steps() + hook_steps() + population(c)
}

/// The removal of the topology: the table is flushed, then its custom
/// chains are deleted. The whole table goes, whatever it held.
pub open spec fn teardown() -> Seq<StepView> {
    seq![
        StepView { stage: Stage::TableRemoval, action: ActionView::FlushTable { table: Table::Mangle } },
        StepView { stage: Stage::TableRemoval, action: ActionView::DeleteTable { table: Table::Mangle } },
    ]
}

/// Puts the step that creates `chain` at the end of `steps`.
fn push_creation(steps: &mut Vec<Step>, chain: Chain)
    ensures
        steps_view(final(steps)@) == steps_view(old(steps)@).push(creation(chain)),
{
    let step = Step { stage: Stage::Chains, action: Action::NewChain { table: Table::Mangle, chain } };
    steps.push(step);
}

/// Puts the step of `stage` that appends `rule` to `chain` at the end of
/// `steps`.
fn push_appending(steps: &mut Vec<Step>, stage: Stage, chain: Chain, rule: String)
    ensures
        steps_view(final(steps)@) == steps_view(old(steps)@).push(appending(stage, chain, rule@)),
{
    let step = Step { stage, action: Action::Append { table: Table::Mangle, chain, rule } };
    steps.push(step);
}

/// Moves the steps of `part` to the end of `steps`.
pub(crate) fn extend(steps: &mut Vec<Step>, part: Vec<Step>)
    ensures
        steps_view(final(steps)@) == steps_view(old(steps)@) + steps_view(part@),
{
    let mut part = part;
    steps.append(&mut part);
}

impl Hijacker {
    /// Creation of the seven custom chains.
    pub fn chain_init(&self) -> (steps: Vec<Step>)
        ensures
            steps_view(steps@) == chain_steps(),
    {
        let mut steps: Vec<Step> = Vec::new();
        push_creation(&mut steps, Chain::Divert);
        push_creation(&mut steps, Chain::Redirect);
        push_creation(&mut steps, Chain::Inbound);
        push_creation(&mut steps, Chain::Outbound);
        push_creation(&mut steps, Chain::TproxyPrerouting);
        push_creation(&mut steps, Chain::TproxyInput);
        push_creation(&mut steps, Chain::TproxyOutput);
        steps
    }

    /// The jump appended to `PREROUTING`. It is appended, never inserted at
    /// the head, so that rules already in the chain keep their place.
    pub fn prerouting_init(&self) -> (steps: Vec<Step>)
        ensures
            steps_view(steps@) == prerouting_hook_steps(),
    {
        let mut steps: Vec<Step> = Vec::new();
        let rule = jump_text(Chain::TproxyPrerouting);
        push_appending(&mut steps, Stage::PreroutingHook, Chain::Prerouting, rule);
        steps
    }

    /// The jump appended to `INPUT`.
    pub fn input_init(&self) -> (steps: Vec<Step>)
        ensures
            steps_view(steps@) == input_hook_steps(),
    {
        let mut steps: Vec<Step> = Vec::new();
        let rule = jump_text(Chain::TproxyInput);
        push_appending(&mut steps, Stage::InputHook, Chain::Input, rule);
        steps
    }

    /// The jump appended to `OUTPUT`.
    pub fn output_init(&self) -> (steps: Vec<Step>)
        ensures
            steps_view(steps@) == output_hook_steps(),
    {
        let mut steps: Vec<Step> = Vec::new();
        let rule = jump_text(Chain::TproxyOutput);
        push_appending(&mut steps, Stage::OutputHook, Chain::Output, rule);
        steps
    }

    /// The rules of `DIVERT`, in order: mark the packet with the divert
    /// mark, then accept it.
    pub fn divert_process(&self) -> (steps: Vec<Step>)
        ensures
            steps_view(steps@) == divert_steps(self.conf@),
    {
        let mut steps: Vec<Step> = Vec::new();
        let stage = Stage::Divert;
        let chain = Chain::Divert;
        push_appending(&mut steps, stage, chain, self.conf.divert_mark_rule());
        push_appending(&mut steps, stage, chain, self.conf.divert_accept_rule());
        steps
    }

    /// The rule of `TPROXY_REDIRECT`: TCP packets go to the proxy socket on
    /// `127.0.0.1:proxy_port`, tagged with the divert mark. The packet's
    /// destination address is not rewritten.
    pub fn redirect_process(&self) -> (steps: Vec<Step>)
        ensures
            steps_view(steps@) == redirect_steps(self.conf@),
    {
        let mut steps: Vec<Step> = Vec::new();
        push_appending(&mut steps, Stage::Redirect, Chain::Redirect, self.conf.redirect_rule());
        steps
    }

    /// The rule of `INBOUND`: TCP traffic for the intercepted port goes to
    /// the redirect.
    pub fn inbound_process(&self) -> (steps: Vec<Step>)
        ensures
            steps_view(steps@) == inbound_steps(self.conf@),
    {
        let mut steps: Vec<Step> = Vec::new();
        push_appending(&mut steps, Stage::Inbound, Chain::Inbound, self.conf.inbound_rule());
        steps
    }

    /// The rules of `OUTBOUND`, in order: the guard that leaves alone every
    /// packet without the divert mark, then the redirect of TCP traffic for
    /// the intercepted port. Were the guard second, all outbound traffic for
    /// that port would be redirected.
    pub fn outbound_process(&self) -> (steps: Vec<Step>)
        ensures
            steps_view(steps@) == outbound_steps(self.conf@),
    {
        let mut steps: Vec<Step> = Vec::new();
        let stage = Stage::Outbound;
        let chain = Chain::Outbound;
        push_appending(&mut steps, stage, chain, self.conf.outbound_guard_rule());
        push_appending(&mut steps, stage, chain, self.conf.outbound_redirect_rule());
        steps
    }

    /// The rules of `TPROXY_PREROUTING`, in order: local traffic revisiting
    /// the stack over loopback goes to `OUTBOUND`; traffic that arrived on
    /// the intercepted interface goes to `INBOUND`. Neither touches packets
    /// bound for the loopback network.
    pub fn tproxy_prerouting_process(&self) -> (steps: Vec<Step>)
        ensures
            steps_view(steps@) == tproxy_prerouting_steps(self.conf@),
    {
        let mut steps: Vec<Step> = Vec::new();
        let stage = Stage::TproxyPrerouting;
        let chain = Chain::TproxyPrerouting;
        push_appending(&mut steps, stage, chain, self.conf.prerouting_local_rule());
        push_appending(&mut steps, stage, chain, self.conf.prerouting_external_rule());
        steps
    }

    /// The rules of `TPROXY_OUTPUT`, in order: mark the proxy's own replies
    /// with the ignore mark; leave loopback traffic alone; leave packets
    /// with the ignore mark alone; send what remains for the intercepted
    /// port to `DIVERT`.
    pub fn tproxy_output_process(&self) -> (steps: Vec<Step>)
        ensures
            steps_view(steps@) == tproxy_output_steps(self.conf@),
    {
        let mut steps: Vec<Step> = Vec::new();
        let stage = Stage::TproxyOutput;
        let chain = Chain::TproxyOutput;
        push_appending(&mut steps, stage, chain, self.conf.output_reply_rule());
        push_appending(&mut steps, stage, chain, self.conf.output_loopback_rule());
        push_appending(&mut steps, stage, chain, self.conf.output_ignore_rule());
        push_appending(&mut steps, stage, chain, self.conf.output_divert_rule());
        steps
    }

    /// The rules of `TPROXY_INPUT`: connections newly opened from outside
    /// to the intercepted port, and return traffic from it, get the ignore
    /// mark on the intercepted interface.
    pub fn tproxy_input_process(&self) -> (steps: Vec<Step>)
        ensures
            steps_view(steps@) == tproxy_input_steps(self.conf@),
    {
        let mut steps: Vec<Step> = Vec::new();
        let stage = Stage::TproxyInput;
        let chain = Chain::TproxyInput;
        push_appending(&mut steps, stage, chain, self.conf.input_syn_rule());
        push_appending(&mut steps, stage, chain, self.conf.input_reply_rule());
        steps
    }

    /// Compiles the configuration into the complete intercept topology:
    /// the creation of the seven custom chains, the three entry hooks, and
    /// the rules of `DIVERT`, `TPROXY_REDIRECT`, `INBOUND`, `OUTBOUND`,
    /// `TPROXY_PREROUTING`, `TPROXY_OUTPUT` and `TPROXY_INPUT`, in that
    /// order. Compilation cannot fail, and the same configuration always
    /// gives the same operations.
    pub fn compile(&self) -> (steps: Vec<Step>)
        ensures
            steps_view(steps@) == topology(self.conf@),
    {
        let mut steps = self.chain_init();
        extend(&mut steps, self.prerouting_init());
        extend(&mut steps, self.input_init());
        extend(&mut steps, self.output_init());
        extend(&mut steps, self.divert_process());
        extend(&mut steps, self.redirect_process());
        extend(&mut steps, self.inbound_process());
        extend(&mut steps, self.outbound_process());
        extend(&mut steps, self.tproxy_prerouting_process());
        extend(&mut steps, self.tproxy_output_process());
        extend(&mut steps, self.tproxy_input_process());
        steps
    }

    /// The removal of the topology: flush the table, then delete its
    /// custom chains. This is no inverse of `compile` step by step: the
    /// table is taken to be dedicated to the topology, and all of its
    /// custom content goes.
    pub fn table_cleanup(&self) -> (steps: Vec<Step>)
        ensures
            steps_view(steps@) == teardown(),
    {
        let mut steps: Vec<Step> = Vec::new();
        let flush = Step {
            stage: Stage::TableRemoval,
            action: Action::FlushTable { table: Table::Mangle },
        };
        steps.push(flush);
        let delete = Step {
            stage: Stage::TableRemoval,
            action: Action::DeleteTable { table: Table::Mangle },
        };
        steps.push(delete);
        steps
    }
}

} // verus!
