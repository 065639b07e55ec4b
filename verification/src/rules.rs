//! The rule expressions of the topology: what each rule matches and where
//! it sends the packet, as the text that the firewall reads.

use vstd::prelude::*;
use vstd::string::*;
use crate::chain::Chain;
use crate::config::{Config, ConfigView};
use crate::decimal::{decimal, push_decimal};

verus! {

/// The destination network of loopback traffic.
pub open spec fn loopback_net() -> Seq<char> {
    "127.0.0.0/8"@
}

/// The TCP flags that the flag-matching rules examine.
pub open spec fn examined_flags() -> Seq<char> {
    "SYN,ACK,FIN,RST,URG,PSH"@
}

/// Rule target: jump to `target`.
pub open spec fn jump(target: Chain) -> Seq<char> {
    "-j "@ + target.text()
}

/// Rule target: stop walking the current chain.
pub open spec fn jump_return() -> Seq<char> {
    "-j RETURN"@
}

/// Rule target: give the packet the mark `mark`.
pub open spec fn set_mark(mark: int) -> Seq<char> {
    "-j MARK --set-xmark "@ + decimal(mark)
}

/// Rule: stop walking the chain for packets that carry the mark `mark`.
pub open spec fn marked_return(mark: int) -> Seq<char> {
    "-m mark --mark "@ + decimal(mark) + " "@ + jump_return()
}

/// Rule: stop walking the chain for packets that do not carry the mark
/// `mark`.
pub open spec fn unmarked_return(mark: int) -> Seq<char> {
    "-m mark ! --mark "@ + decimal(mark) + " "@ + jump_return()
}

/// Rule match: TCP packets bound for `port`.
pub open spec fn tcp_to(port: Seq<char>) -> Seq<char> {
    "-p tcp -m tcp --dport "@ + port
}

/// Rule match: TCP packets sent from `port`.
pub open spec fn tcp_from(port: Seq<char>) -> Seq<char> {
    "-p tcp -m tcp --sport "@ + port
}

/// Rule match: of the examined TCP flags exactly `set` are set.
pub open spec fn flags_are(set: Seq<char>) -> Seq<char> {
    " --tcp-flags "@ + examined_flags() + " "@ + set
}

/// Rule match: packets not bound for the loopback network that arrived on
/// `interface`.
pub open spec fn foreign_on(interface: Seq<char>) -> Seq<char> {
    "! -d "@ + loopback_net() + " -i "@ + interface
}

/// `DIVERT`, first rule: mark the packet for diversion.
pub open spec fn divert_mark_rule(c: ConfigView) -> Seq<char> {
    set_mark(c.mask)
}

/// `DIVERT`, second rule: accept the packet.
pub open spec fn divert_accept_rule() -> Seq<char> {
    "-j ACCEPT"@
}

/// `TPROXY_REDIRECT`: hand TCP packets to the proxy socket on
/// `127.0.0.1:proxy_port`, tagged with the divert mark.
pub open spec fn redirect_rule(c: ConfigView) -> Seq<char> {
    "-p tcp -j TPROXY --on-port "@ + c.proxy_port + " --on-ip 127.0.0.1 --tproxy-mark "@ + decimal(
        c.mask,
    )
}

/// `INBOUND`: send TCP traffic for the intercepted port to the redirect.
pub open spec fn inbound_rule(c: ConfigView) -> Seq<char> {
    tcp_to(c.redirect_port) + " "@ + jump(Chain::Redirect)
}

/// `OUTBOUND`, first rule: the guard that leaves alone every packet that
/// does not carry the divert mark.
pub open spec fn outbound_guard_rule(c: ConfigView) -> Seq<char> {
    unmarked_return(c.mask)
}

/// `OUTBOUND`, second rule: send TCP traffic for the intercepted port to the
/// redirect.
pub open spec fn outbound_redirect_rule(c: ConfigView) -> Seq<char> {
    tcp_to(c.redirect_port) + " "@ + jump(Chain::Redirect)
}

/// `TPROXY_PREROUTING`, first rule: local traffic revisiting the stack over
/// loopback goes to `OUTBOUND`.
pub open spec fn prerouting_local_rule() -> Seq<char> {
    foreign_on("lo"@) + " "@ + jump(Chain::Outbound)
}

/// `TPROXY_PREROUTING`, second rule: traffic that arrived on the
/// intercepted interface goes to `INBOUND`.
pub open spec fn prerouting_external_rule(c: ConfigView) -> Seq<char> {
    foreign_on(c.eth_name) + " "@ + jump(Chain::Inbound)
}

/// `TPROXY_OUTPUT`, first rule: the proxy's own replies (SYN+ACK from the
/// intercepted port) get the ignore mark.
pub open spec fn output_reply_rule(c: ConfigView) -> Seq<char> {
    tcp_from(c.redirect_port) + flags_are("SYN,ACK"@) + " "@ + set_mark(c.ignore_mask)
}

/// `TPROXY_OUTPUT`, second rule: whatever leaves over loopback is left
/// alone.
pub open spec fn output_loopback_rule() -> Seq<char> {
    "-o lo "@ + jump_return()
}

/// `TPROXY_OUTPUT`, third rule: the guard that leaves alone every packet
/// that carries the ignore mark.
pub open spec fn output_ignore_rule(c: ConfigView) -> Seq<char> {
    marked_return(c.ignore_mask)
}

/// `TPROXY_OUTPUT`, fourth rule: remaining TCP traffic for the intercepted
/// port goes to `DIVERT`.
pub open spec fn output_divert_rule(c: ConfigView) -> Seq<char> {
    tcp_to(c.redirect_port) + " "@ + jump(Chain::Divert)
}

/// `TPROXY_INPUT`, first rule: connections newly opened from outside (SYN
/// alone) to the intercepted port on the intercepted interface get the
/// ignore mark.
pub open spec fn input_syn_rule(c: ConfigView) -> Seq<char> {
    "-i "@ + c.eth_name + " "@ + tcp_to(c.redirect_port) + flags_are("SYN"@) + " "@ + set_mark(
        c.ignore_mask,
    )
}

/// `TPROXY_INPUT`, second rule: return traffic from the intercepted port on
/// the intercepted interface gets the ignore mark.
pub open spec fn input_reply_rule(c: ConfigView) -> Seq<char> {
    "-i "@ + c.eth_name + " "@ + tcp_from(c.redirect_port) + " "@ + set_mark(c.ignore_mask)
}

/// Appends the jump to `target` to `out`.
fn push_jump(out: &mut String, target: Chain)
    ensures
        final(out)@ == old(out)@ + jump(target),
{
    out.append("-j ");
    out.append(target.name());
}

/// Appends the mark-setting target to `out`.
fn push_set_mark(out: &mut String, mark: isize)
    ensures
        final(out)@ == old(out)@ + set_mark(mark as int),
{
    out.append("-j MARK --set-xmark ");
    push_decimal(mark, out);
}

/// Appends the match of TCP packets bound for `port` to `out`.
fn push_tcp_to(out: &mut String, port: &str)
    ensures
        final(out)@ == old(out)@ + tcp_to(port@),
{
    out.append("-p tcp -m tcp --dport ");
    out.append(port);
}

/// Appends the match of TCP packets sent from `port` to `out`.
fn push_tcp_from(out: &mut String, port: &str)
    ensures
        final(out)@ == old(out)@ + tcp_from(port@),
{
    out.append("-p tcp -m tcp --sport ");
    out.append(port);
}

/// Appends the match of the TCP flags `set` to `out`.
fn push_flags_are(out: &mut String, set: &str)
    ensures
        final(out)@ == old(out)@ + flags_are(set@),
{
    out.append(" --tcp-flags ");
    out.append("SYN,ACK,FIN,RST,URG,PSH");
    out.append(" ");
    out.append(set);
}

/// Appends the match of foreign-bound packets arriving on `interface` to
/// `out`.
fn push_foreign_on(out: &mut String, interface: &str)
    ensures
        final(out)@ == old(out)@ + foreign_on(interface@),
{
    out.append("! -d ");
    out.append("127.0.0.0/8");
    out.append(" -i ");
    out.append(interface);
}

/// The rule that jumps to `target`.
pub fn jump_text(target: Chain) -> (rule: String)
    ensures
        rule@ == jump(target),
{
    let mut rule = String::new();
    push_jump(&mut rule, target);
    rule
}

/// The rule that returns on packets which carry `mark`.
pub fn marked_return_text(mark: isize) -> (rule: String)
    ensures
        rule@ == marked_return(mark as int),
{
    let mut rule = String::new();
    rule.append("-m mark --mark ");
    push_decimal(mark, &mut rule);
    rule.append(" ");
    rule.append("-j RETURN");
    rule
}

/// The rule that returns on packets which do not carry `mark`.
pub fn unmarked_return_text(mark: isize) -> (rule: String)
    ensures
        rule@ == unmarked_return(mark as int),
{
    let mut rule = String::new();
    rule.append("-m mark ! --mark ");
    push_decimal(mark, &mut rule);
    rule.append(" ");
    rule.append("-j RETURN");
    rule
}

/// The rule that sends TCP traffic for `port` to `target`.
fn port_to_chain_text(port: &str, target: Chain) -> (rule: String)
    ensures
        rule@ == tcp_to(port@) + " "@ + jump(target),
{
    let mut rule = String::new();
    push_tcp_to(&mut rule, port);
    rule.append(" ");
    push_jump(&mut rule, target);
    rule
}

/// The rule that sends foreign-bound traffic arriving on `interface` to
/// `target`.
fn interface_to_chain_text(interface: &str, target: Chain) -> (rule: String)
    ensures
        rule@ == foreign_on(interface@) + " "@ + jump(target),
{
    let mut rule = String::new();
    push_foreign_on(&mut rule, interface);
    rule.append(" ");
    push_jump(&mut rule, target);
    rule
}

impl Config {
    /// The first rule of `DIVERT`.
    pub fn divert_mark_rule(&self) -> (rule: String)
        ensures
            rule@ == divert_mark_rule(self@),
    {
        let mut rule = String::new();
        push_set_mark(&mut rule, self.mask);
        rule
    }

    /// The second rule of `DIVERT`.
    pub fn divert_accept_rule(&self) -> (rule: String)
        ensures
            rule@ == divert_accept_rule(),
    {
        let mut rule = String::new();
        rule.append("-j ACCEPT");
        rule
    }

    /// The rule of `TPROXY_REDIRECT`.
    pub fn redirect_rule(&self) -> (rule: String)
        ensures
            rule@ == redirect_rule(self@),
    {
        let mut rule = String::new();
        rule.append("-p tcp -j TPROXY --on-port ");
        rule.append(self.proxy_port);
        rule.append(" --on-ip 127.0.0.1 --tproxy-mark ");
        push_decimal(self.mask, &mut rule);
        rule
    }

    /// The rule of `INBOUND`.
    pub fn inbound_rule(&self) -> (rule: String)
        ensures
            rule@ == inbound_rule(self@),
    {
        port_to_chain_text(self.redirect_port, Chain::Redirect)
    }

    /// The first rule of `OUTBOUND`, the guard.
    pub fn outbound_guard_rule(&self) -> (rule: String)
        ensures
            rule@ == outbound_guard_rule(self@),
    {
        unmarked_return_text(self.mask)
    }

    /// The second rule of `OUTBOUND`, the redirect.
    pub fn outbound_redirect_rule(&self) -> (rule: String)
        ensures
            rule@ == outbound_redirect_rule(self@),
    {
        port_to_chain_text(self.redirect_port, Chain::Redirect)
    }

    /// The first rule of `TPROXY_PREROUTING`.
    pub fn prerouting_local_rule(&self) -> (rule: String)
        ensures
            rule@ == prerouting_local_rule(),
    {
        interface_to_chain_text("lo", Chain::Outbound)
    }

    /// The second rule of `TPROXY_PREROUTING`.
    pub fn prerouting_external_rule(&self) -> (rule: String)
        ensures
            rule@ == prerouting_external_rule(self@),
    {
        interface_to_chain_text(self.eth_name, Chain::Inbound)
    }

    /// The first rule of `TPROXY_OUTPUT`.
    pub fn output_reply_rule(&self) -> (rule: String)
        ensures
            rule@ == output_reply_rule(self@),
    {
        let mut rule = String::new();
        push_tcp_from(&mut rule, self.redirect_port);
        push_flags_are(&mut rule, "SYN,ACK");
        rule.append(" ");
        push_set_mark(&mut rule, self.ignore_mask);
        rule
    }

    /// The second rule of `TPROXY_OUTPUT`.
    pub fn output_loopback_rule(&self) -> (rule: String)
        ensures
            rule@ == output_loopback_rule(),
    {
        let mut rule = String::new();
        rule.append("-o lo ");
        rule.append("-j RETURN");
        rule
    }

    /// The third rule of `TPROXY_OUTPUT`, the guard.
    pub fn output_ignore_rule(&self) -> (rule: String)
        ensures
            rule@ == output_ignore_rule(self@),
    {
        marked_return_text(self.ignore_mask)
    }

    /// The fourth rule of `TPROXY_OUTPUT`.
    pub fn output_divert_rule(&self) -> (rule: String)
        ensures
            rule@ == output_divert_rule(self@),
    {
        port_to_chain_text(self.redirect_port, Chain::Divert)
    }

    /// The first rule of `TPROXY_INPUT`.
    pub fn input_syn_rule(&self) -> (rule: String)
        ensures
            rule@ == input_syn_rule(self@),
    {
        let mut rule = String::new();
        rule.append("-i ");
        rule.append(self.eth_name);
        rule.append(" ");
        push_tcp_to(&mut rule, self.redirect_port);
        push_flags_are(&mut rule, "SYN");
        rule.append(" ");
        push_set_mark(&mut rule, self.ignore_mask);
        rule
    }

    /// The second rule of `TPROXY_INPUT`.
    pub fn input_reply_rule(&self) -> (rule: String)
        ensures
            rule@ == input_reply_rule(self@),
    {
        let mut rule = String::new();
        rule.append("-i ");
        rule.append(self.eth_name);
        rule.append(" ");
        push_tcp_from(&mut rule, self.redirect_port);
        rule.append(" ");
        push_set_mark(&mut rule, self.ignore_mask);
        rule
    }
}

} // verus!
