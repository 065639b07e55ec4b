//! The side effects outside the firewall that TPROXY needs: two kernel
//! flags, and the policy rule and local route that deliver marked packets
//! to the loopback interface. Each is a shell command.

use vstd::prelude::*;
use vstd::string::*;
use crate::config::ConfigView;
use crate::decimal::{decimal, push_decimal};
use crate::hijack::Hijacker;
use crate::step::{steps_view, Action, ActionView, Stage, Step, StepView};

verus! {

/// The two kernel flags that make the stack honour firewall marks on
/// related and established sockets.
#[derive(Clone, Copy, PartialEq, Eq, Debug, Structural)]
pub enum KernelFlag {
    /// Replies carry the mark of the packet they answer.
    Reflect,
    /// Accepted sockets inherit the mark of the packet that opened the
    /// connection.
    Accept,
}

impl KernelFlag {
    /// The file through which the flag is set.
    pub open spec fn text(self) -> Seq<char> {
        match self {
            KernelFlag::Reflect => "/proc/sys/net/ipv4/fwmark_reflect"@,
            KernelFlag::Accept => "/proc/sys/net/ipv4/tcp_fwmark_accept"@,
        }
    }

    /// The file through which the flag is set.
    pub fn path(self) -> (path: &'static str)
        ensures
            path@ == self.text(),
    {
        match self {
            KernelFlag::Reflect => "/proc/sys/net/ipv4/fwmark_reflect",
            KernelFlag::Accept => "/proc/sys/net/ipv4/tcp_fwmark_accept",
        }
    }
}

/// What is written to a flag to switch it on or off.
pub open spec fn switch(on: bool) -> Seq<char> {
    if on {
        "1"@
    } else {
        "0"@
    }
}

/// The command that switches `flag` on or off.
pub open spec fn flag_command(flag: KernelFlag, on: bool) -> Seq<char> {
    "echo "@ + switch(on) + " > "@ + flag.text()
}

/// The word by which `ip` installs or removes an entry.
pub open spec fn verb(install: bool) -> Seq<char> {
    if install {
        "add"@
    } else {
        "del"@
    }
}

/// The command that installs or removes the policy rule sending packets
/// marked `mark` to the routing table `table`.
pub open spec fn rule_command(install: bool, mark: int, table: Seq<char>) -> Seq<char> {
    "ip rule "@ + verb(install) + " fwmark "@ + decimal(mark) + " lookup "@ + table
}

/// The command that installs or removes, in the routing table `table`, the
/// route that delivers every destination locally through loopback.
pub open spec fn route_command(install: bool, table: Seq<char>) -> Seq<char> {
    "ip route "@ + verb(install) + " local 0.0.0.0/0 dev lo table "@ + table
}

/// The step of `stage` that runs `command` through the shell.
pub open spec fn running(stage: Stage, command: Seq<char>) -> StepView {
    StepView { stage, action: ActionView::Shell { command } }
}

/// Switching both kernel flags on or off, as the steps of `stage`.
pub open spec fn flag_steps(stage: Stage, on: bool) -> Seq<StepView> {
    seq![
        running(stage, flag_command(KernelFlag::Reflect, on)),
        running(stage, flag_command(KernelFlag::Accept, on)),
    ]
}

/// Installing the policy routing: the rule first, then the route.
pub open spec fn route_steps(c: ConfigView) -> Seq<StepView> {
    seq![
        running(Stage::PolicyRoute, rule_command(true, c.mask, c.route_table)),
        running(Stage::PolicyRoute, route_command(true, c.route_table)),
    ]
}

/// Removing the policy routing: the route first, then the rule.
pub open spec fn route_removal_steps(c: ConfigView) -> Seq<StepView> {
    seq![
        running(Stage::PolicyRouteRemoval, route_command(false, c.route_table)),
        running(Stage::PolicyRouteRemoval, rule_command(false, c.mask, c.route_table)),
    ]
}

/// The commands are told apart by their first words. A flag command starts
/// with `e` and names what it writes at index 5; the two flags give
/// different commands. A rule command reads `u` and a route command `o` at
/// index 4; the verb starts at index 8 of a rule command and at index 9 of
/// a route command.
pub proof fn lemma_command_shapes(install: bool, on: bool, mark: int, table: Seq<char>)
    ensures
        forall|flag: KernelFlag|
            (#[trigger] flag_command(flag, on)).len() > 5 && flag_command(flag, on)[0] == 'e'
                && flag_command(flag, on)[5] == if on {
                '1'
            } else {
                '0'
            },
        flag_command(KernelFlag::Reflect, on) != flag_command(KernelFlag::Accept, on),
        rule_command(install, mark, table).len() > 10,
        rule_command(install, mark, table)[0] == 'i',
        rule_command(install, mark, table)[4] == 'u',
        rule_command(install, mark, table)[8] == if install {
            'a'
        } else {
            'd'
        },
        route_command(install, table).len() > 10,
        route_command(install, table)[0] == 'i',
        route_command(install, table)[4] == 'o',
        route_command(install, table)[9] == if install {
            'a'
        } else {
            'd'
        },
{
    reveal_strlit("echo ");
    reveal_strlit("1");
    reveal_strlit("0");
    reveal_strlit(" > ");
    reveal_strlit("/proc/sys/net/ipv4/fwmark_reflect");
    reveal_strlit("/proc/sys/net/ipv4/tcp_fwmark_accept");
    reveal_strlit("ip rule ");
    reveal_strlit("ip route ");
    reveal_strlit("add");
    reveal_strlit("del");
    reveal_strlit(" fwmark ");
    reveal_strlit(" local 0.0.0.0/0 dev lo table ");
    assert(flag_command(KernelFlag::Reflect, on).len() == 42);
    assert(flag_command(KernelFlag::Accept, on).len() == 45);
}

/// A text starts with whatever it was made by adding to.
proof fn lemma_head(head: Seq<char>, rest: Seq<char>)
    ensures
        head.is_prefix_of(head + rest),
{
    assert((head + rest).subrange(0, head.len() as int) =~= head);
}

/// A text does not start with `head` if it differs from it at index `at`.
proof fn lemma_not_head(head: Seq<char>, text: Seq<char>, at: int)
    requires
        0 <= at < head.len(),
        at < text.len() ==> text[at] != head[at],
    ensures
        !head.is_prefix_of(text),
{
    if head.is_prefix_of(text) {
        assert(text.subrange(0, head.len() as int)[at] == head[at]);
    }
}

/// How the commands start: a rule command with `ip rule` and its verb, a
/// route command with `ip route` and its verb, and neither a flag command
/// nor a command of the other kind with any of these.
pub proof fn lemma_command_heads(mark: int, table: Seq<char>)
    ensures
        forall|install: bool|
            "ip rule add"@.is_prefix_of(#[trigger] rule_command(install, mark, table))
                == install,
        forall|install: bool|
            "ip rule del"@.is_prefix_of(#[trigger] rule_command(install, mark, table))
                == !install,
        forall|install: bool|
            "ip route add"@.is_prefix_of(#[trigger] route_command(install, table)) == install,
        forall|install: bool|
            "ip route del"@.is_prefix_of(#[trigger] route_command(install, table))
                == !install,
        forall|install: bool|
            !"ip route add"@.is_prefix_of(#[trigger] rule_command(install, mark, table))
                && !"ip route del"@.is_prefix_of(rule_command(install, mark, table)),
        forall|install: bool|
            !"ip rule add"@.is_prefix_of(#[trigger] route_command(install, table))
                && !"ip rule del"@.is_prefix_of(route_command(install, table)),
        forall|flag: KernelFlag, on: bool|
            !"ip rule add"@.is_prefix_of(#[trigger] flag_command(flag, on))
                && !"ip rule del"@.is_prefix_of(flag_command(flag, on))
                && !"ip route add"@.is_prefix_of(flag_command(flag, on))
                && !"ip route del"@.is_prefix_of(flag_command(flag, on)),
{
    reveal_strlit("ip rule ");
    reveal_strlit("ip route ");
    reveal_strlit("add");
    reveal_strlit("del");
    reveal_strlit("ip rule add");
    reveal_strlit("ip rule del");
    reveal_strlit("ip route add");
    reveal_strlit("ip route del");
    assert("ip rule add"@ =~= "ip rule "@ + "add"@);
    assert("ip rule del"@ =~= "ip rule "@ + "del"@);
    assert("ip route add"@ =~= "ip route "@ + "add"@);
    assert("ip route del"@ =~= "ip route "@ + "del"@);
    assert forall|install: bool|
        ("ip rule add"@.is_prefix_of(#[trigger] rule_command(install, mark, table)) == install)
            && ("ip rule del"@.is_prefix_of(rule_command(install, mark, table)) == !install)
            && !"ip route add"@.is_prefix_of(rule_command(install, mark, table))
            && !"ip route del"@.is_prefix_of(rule_command(install, mark, table)) by {
        let command = rule_command(install, mark, table);
        let rest = " fwmark "@ + decimal(mark) + " lookup "@ + table;
        lemma_command_shapes(install, true, mark, table);
        assert(command =~= "ip rule "@ + verb(install) + rest);
        lemma_head("ip rule "@ + verb(install), rest);
        lemma_not_head("ip rule "@ + verb(!install), command, 8);
        lemma_not_head("ip route add"@, command, 4);
        lemma_not_head("ip route del"@, command, 4);
    }
    assert forall|install: bool|
        ("ip route add"@.is_prefix_of(#[trigger] route_command(install, table)) == install)
            && ("ip route del"@.is_prefix_of(route_command(install, table)) == !install)
            && !"ip rule add"@.is_prefix_of(route_command(install, table))
            && !"ip rule del"@.is_prefix_of(route_command(install, table)) by {
        let command = route_command(install, table);
        let rest = " local 0.0.0.0/0 dev lo table "@ + table;
        lemma_command_shapes(install, true, mark, table);
        assert(command =~= "ip route "@ + verb(install) + rest);
        lemma_head("ip route "@ + verb(install), rest);
        lemma_not_head("ip route "@ + verb(!install), command, 9);
        lemma_not_head("ip rule add"@, command, 4);
        lemma_not_head("ip rule del"@, command, 4);
    }
    assert forall|flag: KernelFlag, on: bool|
        !"ip rule add"@.is_prefix_of(#[trigger] flag_command(flag, on))
            && !"ip rule del"@.is_prefix_of(flag_command(flag, on))
            && !"ip route add"@.is_prefix_of(flag_command(flag, on))
            && !"ip route del"@.is_prefix_of(flag_command(flag, on)) by {
        let command = flag_command(flag, on);
        lemma_command_shapes(true, on, mark, table);
        lemma_not_head("ip rule add"@, command, 0);
        lemma_not_head("ip rule del"@, command, 0);
        lemma_not_head("ip route add"@, command, 0);
        lemma_not_head("ip route del"@, command, 0);
    }
}

/// The word by which `ip` installs or removes an entry.
fn verb_text(install: bool) -> (word: &'static str)
    ensures
        word@ == verb(install),
{
    if install {
        "add"
    } else {
        "del"
    }
}

/// The command that switches `flag` on or off.
pub fn flag_command_text(flag: KernelFlag, on: bool) -> (command: String)
    ensures
        command@ == flag_command(flag, on),
{
    let mut command = String::new();
    command.append("echo ");
    command.append(
        if on {
            "1"
        } else {
            "0"
        },
    );
    command.append(" > ");
    command.append(flag.path());
    command
}

/// The command that installs or removes the policy rule sending packets
/// marked `mark` to the routing table `table`.
pub fn rule_command_text(install: bool, mark: isize, table: &str) -> (command: String)
    ensures
        command@ == rule_command(install, mark as int, table@),
{
    let mut command = String::new();
    command.append("ip rule ");
    command.append(verb_text(install));
    command.append(" fwmark ");
    push_decimal(mark, &mut command);
    command.append(" lookup ");
    command.append(table);
    command
}

/// The command that installs or removes, in the routing table `table`, the
/// route that delivers every destination locally through loopback.
pub fn route_command_text(install: bool, table: &str) -> (command: String)
    ensures
        command@ == route_command(install, table@),
{
    let mut command = String::new();
    command.append("ip route ");
    command.append(verb_text(install));
    command.append(" local 0.0.0.0/0 dev lo table ");
    command.append(table);
    command
}

/// Puts the step of `stage` that runs `command` at the end of `steps`.
fn push_running(steps: &mut Vec<Step>, stage: Stage, command: String)
    ensures
        steps_view(final(steps)@) == steps_view(old(steps)@).push(running(stage, command@)),
{
    let step = Step { stage, action: Action::Shell { command } };
    steps.push(step);
}

/// The two steps of `stage` that switch both kernel flags on or off.
fn flag_switch(stage: Stage, on: bool) -> (steps: Vec<Step>)
    ensures
        steps_view(steps@) == flag_steps(stage, on),
{
    let mut steps: Vec<Step> = Vec::new();
    push_running(&mut steps, stage, flag_command_text(KernelFlag::Reflect, on));
    push_running(&mut steps, stage, flag_command_text(KernelFlag::Accept, on));
    steps
}

impl Hijacker {
    /// Switching on the two kernel flags that make the stack honour
    /// firewall marks on related and established sockets.
    pub fn proc_init(&self) -> (steps: Vec<Step>)
        ensures
            steps_view(steps@) == flag_steps(Stage::KernelFlags, true),
    {
        flag_switch(Stage::KernelFlags, true)
    }

    /// Installing the policy routing: the rule that sends packets with the
    /// divert mark to the dedicated table, then the route that delivers
    /// whatever that table sees locally through loopback.
    pub fn route_init(&self) -> (steps: Vec<Step>)
        ensures
            steps_view(steps@) == route_steps(self.conf@),
    {
        let mut steps: Vec<Step> = Vec::new();
        let rule = rule_command_text(true, self.conf.mask, self.conf.route_table);
        push_running(&mut steps, Stage::PolicyRoute, rule);
        let route = route_command_text(true, self.conf.route_table);
        push_running(&mut steps, Stage::PolicyRoute, route);
        steps
    }

    /// Removing the policy routing: the route, then the rule, both for the
    /// table and the mark that `route_init` installed them with.
    pub fn route_cleanup(&self) -> (steps: Vec<Step>)
        ensures
            steps_view(steps@) == route_removal_steps(self.conf@),
    {
        let mut steps: Vec<Step> = Vec::new();
        let route = route_command_text(false, self.conf.route_table);
        push_running(&mut steps, Stage::PolicyRouteRemoval, route);
        let rule = rule_command_text(false, self.conf.mask, self.conf.route_table);
        push_running(&mut steps, Stage::PolicyRouteRemoval, rule);
        steps
    }

    /// Switching the two kernel flags off again.
    pub fn proc_reset(&self) -> (steps: Vec<Step>)
        ensures
            steps_view(steps@) == flag_steps(Stage::KernelFlagsReset, false),
    {
        flag_switch(Stage::KernelFlagsReset, false)
    }
}

} // verus!
