//! Steps: the single actions that installing or removing the topology is
//! made of, each tagged with the stage it belongs to.

use vstd::prelude::*;
use crate::chain::{Chain, Table};

verus! {

/// The stages of installing and removing the topology, in no particular
/// order. A failure is reported with the stage it happened in.
#[derive(Clone, Copy, PartialEq, Eq, Debug, Structural)]
pub enum Stage {
    /// Switching on the kernel flags that make sockets reflect and accept
    /// firewall marks.
    KernelFlags,
    /// Installing the policy rule and the local route of the dedicated
    /// routing table.
    PolicyRoute,
    /// Creating the seven custom chains.
    Chains,
    /// Hooking `TPROXY_PREROUTING` below `PREROUTING`.
    PreroutingHook,
    /// Hooking `TPROXY_INPUT` below `INPUT`.
    InputHook,
    /// Hooking `TPROXY_OUTPUT` below `OUTPUT`.
    OutputHook,
    /// Populating `DIVERT`.
    Divert,
    /// Populating `TPROXY_REDIRECT`.
    Redirect,
    /// Populating `INBOUND`.
    Inbound,
    /// Populating `OUTBOUND`.
    Outbound,
    /// Populating `TPROXY_PREROUTING`.
    TproxyPrerouting,
    /// Populating `TPROXY_OUTPUT`.
    TproxyOutput,
    /// Populating `TPROXY_INPUT`.
    TproxyInput,
    /// Flushing and deleting the table's custom content.
    TableRemoval,
    /// Removing the local route and the policy rule.
    PolicyRouteRemoval,
    /// Switching the kernel flags off again.
    KernelFlagsReset,
}

/// What kind of action a step asks for.
#[derive(Clone, Copy, PartialEq, Eq, Debug, Structural)]
pub enum ActionKind {
    /// A shell command.
    Shell,
    /// Creation of a chain.
    NewChain,
    /// Appending a rule to a chain.
    Append,
    /// Flushing a table.
    FlushTable,
    /// Deleting the custom chains of a table.
    DeleteTable,
}

/// One action against the firewall or the shell.
#[derive(Debug, PartialEq, Eq)]
pub enum Action {
    /// Run `command` through `sh -c`.
    Shell { command: String },
    /// Create `chain` in `table`.
    NewChain { table: Table, chain: Chain },
    /// Append `rule` at the end of `chain` in `table`.
    Append { table: Table, chain: Chain, rule: String },
    /// Remove every rule from every chain of `table`.
    FlushTable { table: Table },
    /// Delete every custom chain of `table`.
    DeleteTable { table: Table },
}

/// The mathematical content of an [`Action`].
pub enum ActionView {
    Shell { command: Seq<char> },
    NewChain { table: Table, chain: Chain },
    Append { table: Table, chain: Chain, rule: Seq<char> },
    FlushTable { table: Table },
    DeleteTable { table: Table },
}

impl ActionView {
    /// The kind of the action.
    pub open spec fn kind(self) -> ActionKind {
        match self {
            ActionView::Shell { .. } => ActionKind::Shell,
            ActionView::NewChain { .. } => ActionKind::NewChain,
            ActionView::Append { .. } => ActionKind::Append,
            ActionView::FlushTable { .. } => ActionKind::FlushTable,
            ActionView::DeleteTable { .. } => ActionKind::DeleteTable,
        }
    }

    /// Whether the action addresses the firewall rather than the shell.
    pub open spec fn firewall(self) -> bool {
        self.kind() != ActionKind::Shell
    }
}

impl View for Action {
    type V = ActionView;

    open spec fn view(&self) -> ActionView {
        match *self {
            Action::Shell { command } => ActionView::Shell { command: command@ },
            Action::NewChain { table, chain } => ActionView::NewChain { table, chain },
            Action::Append { table, chain, rule } => ActionView::Append { table, chain, rule: rule@ },
            Action::FlushTable { table } => ActionView::FlushTable { table },
            Action::DeleteTable { table } => ActionView::DeleteTable { table },
        }
    }
}

impl Action {
    /// The kind of the action.
    pub fn kind(&self) -> (kind: ActionKind)
        ensures
            kind == self@.kind(),
    {
        match self {
            Action::Shell { .. } => ActionKind::Shell,
            Action::NewChain { .. } => ActionKind::NewChain,
            Action::Append { .. } => ActionKind::Append,
            Action::FlushTable { .. } => ActionKind::FlushTable,
            Action::DeleteTable { .. } => ActionKind::DeleteTable,
        }
    }
}

/// One action together with the stage it belongs to.
#[derive(Debug, PartialEq, Eq)]
pub struct Step {
    pub stage: Stage,
    pub action: Action,
}

/// The mathematical content of a [`Step`].
pub struct StepView {
    pub stage: Stage,
    pub action: ActionView,
}

impl View for Step {
    type V = StepView;

    open spec fn view(&self) -> StepView {
        StepView { stage: self.stage, action: self.action@ }
    }
}

/// The contents of a list of steps.
pub open spec fn steps_view(steps: Seq<Step>) -> Seq<StepView> {
    steps.map_values(|step: Step| step@)
}

} // verus!
