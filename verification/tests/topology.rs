use leicester::chain::{Chain, Table};
use leicester::config::Config;
use leicester::hijack::{Builder, Hijacker};
use leicester::step::{Action, ActionKind, Stage, Step};

fn sample() -> Config {
    Config {
        eth_name: "eth0",
        proxy_port: "17000",
        redirect_port: "9080",
        route_table: "133",
        ignore_mask: 68,
        mask: 1,
    }
}

fn other() -> Config {
    Config {
        eth_name: "ens33",
        proxy_port: "15001",
        redirect_port: "80",
        route_table: "100",
        ignore_mask: 1337,
        mask: 4096,
    }
}

fn hijacker() -> Hijacker {
    Builder::new(&sample())
}

/// The rules that `steps` append to `chain`, in order.
fn rules_of(steps: &[Step], chain: Chain) -> Vec<String> {
    let mut rules = Vec::new();
    for step in steps {
        if let Action::Append { chain: target, rule, .. } = &step.action {
            if *target == chain {
                rules.push(rule.clone());
            }
        }
    }
    rules
}

fn count_kind(steps: &[Step], kind: ActionKind) -> usize {
    steps.iter().filter(|step| step.action.kind() == kind).count()
}

/// Checks that `steps` are appends of `stage` to `chain` in the mangle
/// table, carrying exactly `rules`.
fn assert_appends(steps: &[Step], stage: Stage, chain: Chain, rules: &[&str]) {
    assert_eq!(steps.len(), rules.len());
    for (step, expected) in steps.iter().zip(rules) {
        assert_eq!(step.stage, stage);
        assert_eq!(
            step.action,
            Action::Append { table: Table::Mangle, chain, rule: expected.to_string() }
        );
    }
}

#[test]
fn builder_copies_the_configuration() {
    let conf = sample();
    let hijacker = Builder::new(&conf);
    assert_eq!(hijacker.conf.eth_name, "eth0");
    assert_eq!(hijacker.conf.proxy_port, "17000");
    assert_eq!(hijacker.conf.redirect_port, "9080");
    assert_eq!(hijacker.conf.route_table, "133");
    assert_eq!(hijacker.conf.ignore_mask, 68);
    assert_eq!(hijacker.conf.mask, 1);
}

#[test]
fn redirect_rule_selects_tproxy() {
    let steps = hijacker().redirect_process();
    assert_appends(
        &steps,
        Stage::Redirect,
        Chain::Redirect,
        &["-p tcp -j TPROXY --on-port 17000 --on-ip 127.0.0.1 --tproxy-mark 1"],
    );
    let compiled = hijacker().compile();
    let rules = rules_of(&compiled, Chain::Redirect);
    assert_eq!(rules.len(), 1);
    assert!(rules[0].contains("-j TPROXY"));
    assert!(rules[0].contains("--on-port 17000 --on-ip 127.0.0.1 --tproxy-mark 1"));
}

#[test]
fn chain_init_creates_the_seven_custom_chains() {
    let steps = hijacker().chain_init();
    let expected = [
        Chain::Divert,
        Chain::Redirect,
        Chain::Inbound,
        Chain::Outbound,
        Chain::TproxyPrerouting,
        Chain::TproxyInput,
        Chain::TproxyOutput,
    ];
    assert_eq!(steps.len(), 7);
    for (step, chain) in steps.iter().zip(expected) {
        assert_eq!(step.stage, Stage::Chains);
        assert_eq!(step.action, Action::NewChain { table: Table::Mangle, chain });
        assert!(!chain.is_builtin());
    }
}

#[test]
fn entry_hooks_jump_to_the_entry_chains() {
    let h = hijacker();
    assert_appends(
        &h.prerouting_init(),
        Stage::PreroutingHook,
        Chain::Prerouting,
        &["-j TPROXY_PREROUTING"],
    );
    assert_appends(&h.input_init(), Stage::InputHook, Chain::Input, &["-j TPROXY_INPUT"]);
    assert_appends(&h.output_init(), Stage::OutputHook, Chain::Output, &["-j TPROXY_OUTPUT"]);
}

#[test]
fn divert_marks_then_accepts() {
    assert_appends(
        &hijacker().divert_process(),
        Stage::Divert,
        Chain::Divert,
        &["-j MARK --set-xmark 1", "-j ACCEPT"],
    );
}

#[test]
fn inbound_sends_the_port_to_the_redirect() {
    assert_appends(
        &hijacker().inbound_process(),
        Stage::Inbound,
        Chain::Inbound,
        &["-p tcp -m tcp --dport 9080 -j TPROXY_REDIRECT"],
    );
}

#[test]
fn outbound_guard_precedes_redirect() {
    assert_appends(
        &hijacker().outbound_process(),
        Stage::Outbound,
        Chain::Outbound,
        &["-m mark ! --mark 1 -j RETURN", "-p tcp -m tcp --dport 9080 -j TPROXY_REDIRECT"],
    );
    let compiled = hijacker().compile();
    let guard = compiled
        .iter()
        .position(|step| {
            step.action
                == Action::Append {
                    table: Table::Mangle,
                    chain: Chain::Outbound,
                    rule: "-m mark ! --mark 1 -j RETURN".to_string(),
                }
        })
        .unwrap();
    let redirect = compiled
        .iter()
        .position(|step| {
            step.action
                == Action::Append {
                    table: Table::Mangle,
                    chain: Chain::Outbound,
                    rule: "-p tcp -m tcp --dport 9080 -j TPROXY_REDIRECT".to_string(),
                }
        })
        .unwrap();
    assert!(guard < redirect);
}

#[test]
fn tproxy_prerouting_rules() {
    assert_appends(
        &hijacker().tproxy_prerouting_process(),
        Stage::TproxyPrerouting,
        Chain::TproxyPrerouting,
        &["! -d 127.0.0.0/8 -i lo -j OUTBOUND", "! -d 127.0.0.0/8 -i eth0 -j INBOUND"],
    );
}

#[test]
fn tproxy_output_rules() {
    assert_appends(
        &hijacker().tproxy_output_process(),
        Stage::TproxyOutput,
        Chain::TproxyOutput,
        &[
            "-p tcp -m tcp --sport 9080 --tcp-flags SYN,ACK,FIN,RST,URG,PSH SYN,ACK -j MARK --set-xmark 68",
            "-o lo -j RETURN",
            "-m mark --mark 68 -j RETURN",
            "-p tcp -m tcp --dport 9080 -j DIVERT",
        ],
    );
}

#[test]
fn tproxy_output_ignore_return_precedes_divert() {
    let compiled = hijacker().compile();
    let rules = rules_of(&compiled, Chain::TproxyOutput);
    let ignore = rules.iter().position(|rule| rule == "-m mark --mark 68 -j RETURN").unwrap();
    let divert =
        rules.iter().position(|rule| rule == "-p tcp -m tcp --dport 9080 -j DIVERT").unwrap();
    assert_eq!(ignore, 2);
    assert_eq!(divert, 3);
    assert!(ignore < divert);
}

#[test]
fn tproxy_input_rules() {
    assert_appends(
        &hijacker().tproxy_input_process(),
        Stage::TproxyInput,
        Chain::TproxyInput,
        &[
            "-i eth0 -p tcp -m tcp --dport 9080 --tcp-flags SYN,ACK,FIN,RST,URG,PSH SYN -j MARK --set-xmark 68",
            "-i eth0 -p tcp -m tcp --sport 9080 -j MARK --set-xmark 68",
        ],
    );
}

#[test]
fn compile_counts_do_not_depend_on_the_configuration() {
    for conf in [sample(), other()] {
        let compiled = Builder::new(&conf).compile();
        assert_eq!(compiled.len(), 24);
        assert_eq!(count_kind(&compiled, ActionKind::NewChain), 7);
        assert_eq!(count_kind(&compiled, ActionKind::Append), 17);
        assert_eq!(count_kind(&compiled, ActionKind::Shell), 0);
        assert_eq!(count_kind(&compiled, ActionKind::FlushTable), 0);
        assert_eq!(count_kind(&compiled, ActionKind::DeleteTable), 0);
        assert_eq!(rules_of(&compiled, Chain::Prerouting).len(), 1);
        assert_eq!(rules_of(&compiled, Chain::Input).len(), 1);
        assert_eq!(rules_of(&compiled, Chain::Output).len(), 1);
        assert_eq!(rules_of(&compiled, Chain::Divert).len(), 2);
        assert_eq!(rules_of(&compiled, Chain::Redirect).len(), 1);
        assert_eq!(rules_of(&compiled, Chain::Inbound).len(), 1);
        assert_eq!(rules_of(&compiled, Chain::Outbound).len(), 2);
        assert_eq!(rules_of(&compiled, Chain::TproxyPrerouting).len(), 2);
        assert_eq!(rules_of(&compiled, Chain::TproxyOutput).len(), 4);
        assert_eq!(rules_of(&compiled, Chain::TproxyInput).len(), 2);
    }
}

#[test]
fn compile_creates_chains_before_appending() {
    let compiled = hijacker().compile();
    for (index, step) in compiled.iter().enumerate() {
        let expected = if index < 7 { ActionKind::NewChain } else { ActionKind::Append };
        assert_eq!(step.action.kind(), expected);
    }
}

#[test]
fn compile_is_the_stages_in_order() {
    let h = hijacker();
    let mut expected = h.chain_init();
    expected.extend(h.prerouting_init());
    expected.extend(h.input_init());
    expected.extend(h.output_init());
    expected.extend(h.divert_process());
    expected.extend(h.redirect_process());
    expected.extend(h.inbound_process());
    expected.extend(h.outbound_process());
    expected.extend(h.tproxy_prerouting_process());
    expected.extend(h.tproxy_output_process());
    expected.extend(h.tproxy_input_process());
    assert_eq!(h.compile(), expected);
}

#[test]
fn compile_is_deterministic() {
    assert_eq!(hijacker().compile(), hijacker().compile());
}

#[test]
fn compile_follows_the_configuration() {
    let compiled = Builder::new(&other()).compile();
    assert_eq!(
        rules_of(&compiled, Chain::Redirect),
        vec!["-p tcp -j TPROXY --on-port 15001 --on-ip 127.0.0.1 --tproxy-mark 4096"]
    );
    assert_eq!(
        rules_of(&compiled, Chain::TproxyPrerouting),
        vec!["! -d 127.0.0.0/8 -i lo -j OUTBOUND", "! -d 127.0.0.0/8 -i ens33 -j INBOUND"]
    );
    assert_eq!(
        rules_of(&compiled, Chain::TproxyOutput)[2],
        "-m mark --mark 1337 -j RETURN"
    );
    assert_eq!(rules_of(&compiled, Chain::Outbound)[0], "-m mark ! --mark 4096 -j RETURN");
}

#[test]
fn compile_writes_negative_marks_with_a_sign() {
    let conf = Config { ignore_mask: -2, mask: -1, ..sample() };
    let compiled = Builder::new(&conf).compile();
    assert_eq!(rules_of(&compiled, Chain::Divert)[0], "-j MARK --set-xmark -1");
    assert_eq!(rules_of(&compiled, Chain::TproxyOutput)[2], "-m mark --mark -2 -j RETURN");
}

#[test]
fn table_cleanup_flushes_then_deletes() {
    let steps = hijacker().table_cleanup();
    assert_eq!(steps.len(), 2);
    assert_eq!(steps[0].stage, Stage::TableRemoval);
    assert_eq!(steps[0].action, Action::FlushTable { table: Table::Mangle });
    assert_eq!(steps[1].stage, Stage::TableRemoval);
    assert_eq!(steps[1].action, Action::DeleteTable { table: Table::Mangle });
}
