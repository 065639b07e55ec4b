use leicester::chain::Table;
use leicester::config::Config;
use leicester::hijack::{Builder, Hijacker};
use leicester::run::{Event, Run, Status};
use leicester::step::{Action, ActionKind, Stage, Step};

fn sample() -> Config {
    Config {
        eth_name: "eth0",
        proxy_port: "17000",
        redirect_port: "9080",
        route_table: "133",
        ignore_mask: 68,
        mask: 1,
    }
}

fn hijacker() -> Hijacker {
    Builder::new(&sample())
}

/// What a recording collaborator saw of one step.
#[derive(Debug, Clone, PartialEq, Eq)]
enum Call {
    Shell(String),
    NewChain(String, String),
    Append(String, String, String),
    FlushTable(String),
    DeleteTable(String),
}

/// A firewall and a shell that perform nothing: they record every call,
/// and fail the call with the index `fail_at`, counted over all calls.
struct Recorder {
    calls: Vec<Call>,
    fail_at: Option<usize>,
    fail_at_append: Option<usize>,
}

impl Recorder {
    fn new() -> Recorder {
        Recorder { calls: Vec::new(), fail_at: None, fail_at_append: None }
    }

    fn failing_at(index: usize) -> Recorder {
        Recorder { calls: Vec::new(), fail_at: Some(index), fail_at_append: None }
    }

    /// A recorder that fails the `nth` append it sees, counted from one.
    fn failing_at_append(nth: usize) -> Recorder {
        Recorder { calls: Vec::new(), fail_at: None, fail_at_append: Some(nth) }
    }

    fn perform(&mut self, step: &Step) -> Event {
        let appends_before = self.count(|call| matches!(call, Call::Append(..)));
        let failing = self.fail_at == Some(self.calls.len())
            || (matches!(step.action, Action::Append { .. })
                && self.fail_at_append == Some(appends_before + 1));
        let (call, shell) = match &step.action {
            Action::Shell { command } => (Call::Shell(command.clone()), true),
            Action::NewChain { table, chain } => {
                (Call::NewChain(table.name().to_string(), chain.name().to_string()), false)
            }
            Action::Append { table, chain, rule } => (
                Call::Append(table.name().to_string(), chain.name().to_string(), rule.clone()),
                false,
            ),
            Action::FlushTable { table } => (Call::FlushTable(table.name().to_string()), false),
            Action::DeleteTable { table } => (Call::DeleteTable(table.name().to_string()), false),
        };
        self.calls.push(call);
        match (failing, shell) {
            (true, true) => Event::NotStarted { message: "injected".to_string() },
            (true, false) => Event::Rejected { message: "injected".to_string() },
            (false, true) => Event::Exited { success: true },
            (false, false) => Event::Applied,
        }
    }

    /// Drives `run` to its end; `true` if it succeeded.
    fn drive(&mut self, run: &mut Run) -> bool {
        loop {
            let event = match run.status() {
                Status::Pending(step) => self.perform(step),
                Status::Succeeded => return true,
                Status::Failed(_) => return false,
            };
            run.advance(event);
        }
    }

    fn count(&self, wanted: impl Fn(&Call) -> bool) -> usize {
        self.calls.iter().filter(|call| wanted(call)).count()
    }
}

fn append_call(chain: &str, rule: &str) -> Call {
    Call::Append("mangle".to_string(), chain.to_string(), rule.to_string())
}

fn full_deploy() -> Vec<Call> {
    let mut calls = vec![
        Call::Shell("echo 1 > /proc/sys/net/ipv4/fwmark_reflect".to_string()),
        Call::Shell("echo 1 > /proc/sys/net/ipv4/tcp_fwmark_accept".to_string()),
        Call::Shell("ip rule add fwmark 1 lookup 133".to_string()),
        Call::Shell("ip route add local 0.0.0.0/0 dev lo table 133".to_string()),
    ];
    for chain in [
        "DIVERT",
        "TPROXY_REDIRECT",
        "INBOUND",
        "OUTBOUND",
        "TPROXY_PREROUTING",
        "TPROXY_INPUT",
        "TPROXY_OUTPUT",
    ] {
        calls.push(Call::NewChain("mangle".to_string(), chain.to_string()));
    }
    calls.extend([
        append_call("PREROUTING", "-j TPROXY_PREROUTING"),
        append_call("INPUT", "-j TPROXY_INPUT"),
        append_call("OUTPUT", "-j TPROXY_OUTPUT"),
        append_call("DIVERT", "-j MARK --set-xmark 1"),
        append_call("DIVERT", "-j ACCEPT"),
        append_call(
            "TPROXY_REDIRECT",
            "-p tcp -j TPROXY --on-port 17000 --on-ip 127.0.0.1 --tproxy-mark 1",
        ),
        append_call("INBOUND", "-p tcp -m tcp --dport 9080 -j TPROXY_REDIRECT"),
        append_call("OUTBOUND", "-m mark ! --mark 1 -j RETURN"),
        append_call("OUTBOUND", "-p tcp -m tcp --dport 9080 -j TPROXY_REDIRECT"),
        append_call("TPROXY_PREROUTING", "! -d 127.0.0.0/8 -i lo -j OUTBOUND"),
        append_call("TPROXY_PREROUTING", "! -d 127.0.0.0/8 -i eth0 -j INBOUND"),
        append_call(
            "TPROXY_OUTPUT",
            "-p tcp -m tcp --sport 9080 --tcp-flags SYN,ACK,FIN,RST,URG,PSH SYN,ACK -j MARK --set-xmark 68",
        ),
        append_call("TPROXY_OUTPUT", "-o lo -j RETURN"),
        append_call("TPROXY_OUTPUT", "-m mark --mark 68 -j RETURN"),
        append_call("TPROXY_OUTPUT", "-p tcp -m tcp --dport 9080 -j DIVERT"),
        append_call(
            "TPROXY_INPUT",
            "-i eth0 -p tcp -m tcp --dport 9080 --tcp-flags SYN,ACK,FIN,RST,URG,PSH SYN -j MARK --set-xmark 68",
        ),
        append_call("TPROXY_INPUT", "-i eth0 -p tcp -m tcp --sport 9080 -j MARK --set-xmark 68"),
    ]);
    calls
}

fn full_destroy() -> Vec<Call> {
    vec![
        Call::FlushTable("mangle".to_string()),
        Call::DeleteTable("mangle".to_string()),
        Call::Shell("ip route del local 0.0.0.0/0 dev lo table 133".to_string()),
        Call::Shell("ip rule del fwmark 1 lookup 133".to_string()),
        Call::Shell("echo 0 > /proc/sys/net/ipv4/fwmark_reflect".to_string()),
        Call::Shell("echo 0 > /proc/sys/net/ipv4/tcp_fwmark_accept".to_string()),
    ]
}

#[test]
fn deploy_performs_every_step_in_order() {
    let mut recorder = Recorder::new();
    let mut run = hijacker().deploy();
    assert!(recorder.drive(&mut run));
    assert_eq!(recorder.calls, full_deploy());
    assert_eq!(recorder.calls.len(), 28);
}

#[test]
fn deploy_stages_follow_the_contract() {
    let run = hijacker().deploy();
    let mut stages: Vec<Stage> = run.plan().iter().map(|step| step.stage).collect();
    stages.dedup();
    assert_eq!(
        stages,
        vec![
            Stage::KernelFlags,
            Stage::PolicyRoute,
            Stage::Chains,
            Stage::PreroutingHook,
            Stage::InputHook,
            Stage::OutputHook,
            Stage::Divert,
            Stage::Redirect,
            Stage::Inbound,
            Stage::Outbound,
            Stage::TproxyPrerouting,
            Stage::TproxyOutput,
            Stage::TproxyInput,
        ]
    );
}

#[test]
fn deploy_plan_is_flags_route_and_topology() {
    let h = hijacker();
    let mut expected = h.proc_init();
    expected.extend(h.route_init());
    expected.extend(h.compile());
    assert_eq!(h.deploy().plan(), &expected);
}

#[test]
fn destroy_performs_every_step_in_order() {
    let mut recorder = Recorder::new();
    let mut run = hijacker().destroy();
    assert!(recorder.drive(&mut run));
    assert_eq!(recorder.calls, full_destroy());
}

#[test]
fn destroy_stages_follow_the_contract() {
    let run = hijacker().destroy();
    let stages: Vec<Stage> = run.plan().iter().map(|step| step.stage).collect();
    assert_eq!(
        stages,
        vec![
            Stage::TableRemoval,
            Stage::TableRemoval,
            Stage::PolicyRouteRemoval,
            Stage::PolicyRouteRemoval,
            Stage::KernelFlagsReset,
            Stage::KernelFlagsReset,
        ]
    );
}

#[test]
fn deploy_then_destroy_cleans_up_once() {
    let h = hijacker();
    let mut recorder = Recorder::new();
    assert!(recorder.drive(&mut h.deploy()));
    assert!(recorder.drive(&mut h.destroy()));
    assert_eq!(recorder.calls.len(), 34);
    assert_eq!(recorder.count(|call| matches!(call, Call::FlushTable(_))), 1);
    assert_eq!(recorder.count(|call| matches!(call, Call::DeleteTable(_))), 1);
    assert_eq!(recorder.count(|call| *call == Call::FlushTable("mangle".to_string())), 1);
    assert_eq!(recorder.count(|call| *call == Call::DeleteTable("mangle".to_string())), 1);
    assert_eq!(
        recorder.count(|call| matches!(call, Call::Shell(c) if c.starts_with("ip rule del"))),
        1
    );
    assert_eq!(
        recorder.count(|call| matches!(call, Call::Shell(c) if c.starts_with("ip route del"))),
        1
    );
    assert_eq!(
        recorder.count(|call| *call == Call::Shell("ip rule del fwmark 1 lookup 133".to_string())),
        1
    );
    assert_eq!(
        recorder.count(|call| {
            *call == Call::Shell("ip route del local 0.0.0.0/0 dev lo table 133".to_string())
        }),
        1
    );
    assert_eq!(
        recorder.count(|call| *call == Call::Shell("ip rule add fwmark 1 lookup 133".to_string())),
        1
    );
    assert_eq!(
        recorder.count(|call| {
            *call == Call::Shell("ip route add local 0.0.0.0/0 dev lo table 133".to_string())
        }),
        1
    );
}

#[test]
fn cleanup_uses_the_table_of_the_configuration() {
    let conf = Config { route_table: "100", mask: 4096, ..sample() };
    let h = Builder::new(&conf);
    let mut recorder = Recorder::new();
    assert!(recorder.drive(&mut h.deploy()));
    assert!(recorder.drive(&mut h.destroy()));
    assert!(recorder.calls.contains(&Call::Shell("ip rule add fwmark 4096 lookup 100".to_string())));
    assert!(recorder.calls.contains(&Call::Shell("ip rule del fwmark 4096 lookup 100".to_string())));
    assert!(recorder
        .calls
        .contains(&Call::Shell("ip route add local 0.0.0.0/0 dev lo table 100".to_string())));
    assert!(recorder
        .calls
        .contains(&Call::Shell("ip route del local 0.0.0.0/0 dev lo table 100".to_string())));
    assert_eq!(recorder.count(|call| matches!(call, Call::Shell(c) if c.contains("133"))), 0);
}

#[test]
fn failure_at_any_append_stops_the_deploy() {
    for nth in 1..=17usize {
        let position = 10 + nth;
        let mut recorder = Recorder::failing_at(position);
        let mut run = hijacker().deploy();
        assert!(!recorder.drive(&mut run));
        assert_eq!(recorder.calls.len(), position + 1);
        assert_eq!(recorder.calls, full_deploy()[..=position].to_vec());
        assert_eq!(recorder.count(|call| matches!(call, Call::Append(..))), nth);
        match run.status() {
            Status::Failed(failure) => {
                assert_eq!(failure.kind, ActionKind::Append);
                assert_eq!(failure.position, position);
                assert_eq!(failure.stage, run.plan()[position].stage);
                assert_eq!(failure.message, "injected");
            }
            other => panic!("the run should have failed, but is {:?}", other),
        }
    }
}

#[test]
fn failure_at_the_nth_append_stops_the_deploy() {
    for nth in 1..=17usize {
        let mut recorder = Recorder::failing_at_append(nth);
        let mut run = hijacker().deploy();
        assert!(!recorder.drive(&mut run));
        assert_eq!(recorder.count(|call| matches!(call, Call::Append(..))), nth);
        assert!(matches!(recorder.calls.last(), Some(Call::Append(..))));
        assert_eq!(recorder.calls, full_deploy()[..recorder.calls.len()].to_vec());
        match run.status() {
            Status::Failed(failure) => {
                assert_eq!(failure.kind, ActionKind::Append);
                assert_eq!(failure.position, recorder.calls.len() - 1);
            }
            other => panic!("the run should have failed, but is {:?}", other),
        }
        let performed = recorder.calls.len();
        run.advance(Event::Applied);
        assert!(matches!(run.status(), Status::Failed(_)));
        assert_eq!(recorder.calls.len(), performed);
    }
}

#[test]
fn an_eighteenth_append_never_comes() {
    let mut recorder = Recorder::failing_at_append(18);
    let mut run = hijacker().deploy();
    assert!(recorder.drive(&mut run));
    assert_eq!(recorder.count(|call| matches!(call, Call::Append(..))), 17);
}

#[test]
fn failure_at_the_first_outbound_append_names_the_stage() {
    let mut recorder = Recorder::failing_at(18);
    let mut run = hijacker().deploy();
    assert!(!recorder.drive(&mut run));
    assert_eq!(
        recorder.calls.last(),
        Some(&append_call("OUTBOUND", "-m mark ! --mark 1 -j RETURN"))
    );
    match run.status() {
        Status::Failed(failure) => {
            assert_eq!(failure.stage, Stage::Outbound);
            assert_eq!(failure.kind, ActionKind::Append);
        }
        other => panic!("the run should have failed, but is {:?}", other),
    }
}

#[test]
fn failure_at_a_chain_creation_stops_the_deploy() {
    let mut recorder = Recorder::failing_at(4);
    let mut run = hijacker().deploy();
    assert!(!recorder.drive(&mut run));
    assert_eq!(recorder.calls.len(), 5);
    assert_eq!(recorder.count(|call| matches!(call, Call::Append(..))), 0);
    match run.status() {
        Status::Failed(failure) => {
            assert_eq!(failure.kind, ActionKind::NewChain);
            assert_eq!(failure.stage, Stage::Chains);
            assert_eq!(failure.position, 4);
        }
        other => panic!("the run should have failed, but is {:?}", other),
    }
}

#[test]
fn shell_that_cannot_start_stops_the_deploy() {
    let mut recorder = Recorder::failing_at(0);
    let mut run = hijacker().deploy();
    assert!(!recorder.drive(&mut run));
    assert_eq!(recorder.calls.len(), 1);
    match run.status() {
        Status::Failed(failure) => {
            assert_eq!(failure.kind, ActionKind::Shell);
            assert_eq!(failure.stage, Stage::KernelFlags);
        }
        other => panic!("the run should have failed, but is {:?}", other),
    }
}

#[test]
fn failed_flush_stops_the_destroy() {
    let mut recorder = Recorder::failing_at(0);
    let mut run = hijacker().destroy();
    assert!(!recorder.drive(&mut run));
    assert_eq!(recorder.calls, vec![Call::FlushTable("mangle".to_string())]);
    match run.status() {
        Status::Failed(failure) => {
            assert_eq!(failure.kind, ActionKind::FlushTable);
            assert_eq!(failure.stage, Stage::TableRemoval);
            assert_eq!(failure.position, 0);
        }
        other => panic!("the run should have failed, but is {:?}", other),
    }
}

#[test]
fn failed_delete_stops_the_destroy() {
    let mut recorder = Recorder::failing_at(1);
    let mut run = hijacker().destroy();
    assert!(!recorder.drive(&mut run));
    assert_eq!(recorder.calls.len(), 2);
    match run.status() {
        Status::Failed(failure) => assert_eq!(failure.kind, ActionKind::DeleteTable),
        other => panic!("the run should have failed, but is {:?}", other),
    }
}

#[test]
fn nonzero_exit_of_a_command_does_not_stop_the_destroy() {
    let mut run = hijacker().destroy();
    let mut performed = 0;
    loop {
        let event = match run.status() {
            Status::Pending(step) => match step.action {
                Action::Shell { .. } => Event::Exited { success: false },
                _ => Event::Applied,
            },
            Status::Succeeded => break,
            Status::Failed(failure) => panic!("unexpected failure {:?}", failure),
        };
        performed += 1;
        run.advance(event);
    }
    assert_eq!(performed, 6);
}

#[test]
fn second_deploy_repeats_every_append() {
    let h = hijacker();
    let mut recorder = Recorder::new();
    assert!(recorder.drive(&mut h.deploy()));
    assert!(recorder.drive(&mut h.deploy()));
    assert_eq!(recorder.calls.len(), 56);
    assert_eq!(recorder.count(|call| matches!(call, Call::Append(..))), 34);
    assert_eq!(recorder.calls[..28], recorder.calls[28..]);
}

#[test]
fn every_step_addresses_the_mangle_table() {
    let h = hijacker();
    let deploy = h.deploy();
    let destroy = h.destroy();
    for step in deploy.plan().iter().chain(destroy.plan().iter()) {
        match &step.action {
            Action::Shell { .. } => {}
            Action::NewChain { table, .. }
            | Action::Append { table, .. }
            | Action::FlushTable { table }
            | Action::DeleteTable { table } => assert_eq!(*table, Table::Mangle),
        }
    }
}
