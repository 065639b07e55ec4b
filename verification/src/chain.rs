//! The closed vocabulary of the intercept topology: its one table and its
//! ten chains.

use vstd::prelude::*;
use vstd::string::*;

verus! {

/// The firewall table that holds the topology.
#[derive(Clone, Copy, PartialEq, Eq, Debug, Structural)]
pub enum Table {
    /// The packet-alteration table.
    Mangle,
}

impl Table {
    /// The table's name as the firewall knows it.
    pub open spec fn text(self) -> Seq<char> {
        "mangle"@
    }

    /// The table's name as the firewall knows it.
    pub fn name(self) -> (name: &'static str)
        ensures
            name@ == self.text(),
    {
        "mangle"
    }
}

/// A chain of the topology: one of the three built-in chains that the
/// kernel walks, or one of the seven custom chains hung below them.
#[derive(Clone, Copy, PartialEq, Eq, Debug, Structural)]
pub enum Chain {
    /// Built-in: packets as they arrive.
    Prerouting,
    /// Built-in: packets bound for a local socket.
    Input,
    /// Built-in: packets produced locally.
    Output,
    /// Marks a packet for diversion and accepts it.
    Divert,
    /// Hands TCP packets to the proxy socket.
    Redirect,
    /// Traffic that arrived from outside.
    Inbound,
    /// Local traffic revisiting the stack over loopback.
    Outbound,
    /// Entry chain below `PREROUTING`.
    TproxyPrerouting,
    /// Entry chain below `INPUT`.
    TproxyInput,
    /// Entry chain below `OUTPUT`.
    TproxyOutput,
}

impl Chain {
    /// The chain's name as the firewall knows it.
    pub open spec fn text(self) -> Seq<char> {
        match self {
            Chain::Prerouting => "PREROUTING"@,
            Chain::Input => "INPUT"@,
            Chain::Output => "OUTPUT"@,
            Chain::Divert => "DIVERT"@,
            Chain::Redirect => "TPROXY_REDIRECT"@,
            Chain::Inbound => "INBOUND"@,
            Chain::Outbound => "OUTBOUND"@,
            Chain::TproxyPrerouting => "TPROXY_PREROUTING"@,
            Chain::TproxyInput => "TPROXY_INPUT"@,
            Chain::TproxyOutput => "TPROXY_OUTPUT"@,
        }
    }

    /// Whether the kernel provides the chain, so that it is never created.
    pub open spec fn builtin(self) -> bool {
        self == Chain::Prerouting || self == Chain::Input || self == Chain::Output
    }

    /// The chain's name as the firewall knows it.
    pub fn name(self) -> (name: &'static str)
        ensures
            name@ == self.text(),
    {
        match self {
            Chain::Prerouting => "PREROUTING",
            Chain::Input => "INPUT",
            Chain::Output => "OUTPUT",
            Chain::Divert => "DIVERT",
            Chain::Redirect => "TPROXY_REDIRECT",
            Chain::Inbound => "INBOUND",
            Chain::Outbound => "OUTBOUND",
            Chain::TproxyPrerouting => "TPROXY_PREROUTING",
            Chain::TproxyInput => "TPROXY_INPUT",
            Chain::TproxyOutput => "TPROXY_OUTPUT",
        }
    }

    /// Whether the kernel provides the chain.
    pub fn is_builtin(self) -> (builtin: bool)
        ensures
            builtin == self.builtin(),
    {
        match self {
            Chain::Prerouting | Chain::Input | Chain::Output => true,
            _ => false,
        }
    }

    /// No two chains share a name: creating the seven custom chains never
    /// asks the firewall for a name twice, nor for the name of a built-in
    /// chain.
    pub proof fn lemma_names_distinct(a: Chain, b: Chain)
        ensures
            a.text() == b.text() <==> a == b,
    {
        reveal_strlit("PREROUTING");
        reveal_strlit("INPUT");
        reveal_strlit("OUTPUT");
        reveal_strlit("DIVERT");
        reveal_strlit("TPROXY_REDIRECT");
        reveal_strlit("INBOUND");
        reveal_strlit("OUTBOUND");
        reveal_strlit("TPROXY_PREROUTING");
        reveal_strlit("TPROXY_INPUT");
        reveal_strlit("TPROXY_OUTPUT");
        if a != b && a.text() == b.text() {
            assert(a.text().len() == b.text().len());
            assert(a.text()[0] == b.text()[0]);
        }
    }
}

} // verus!
