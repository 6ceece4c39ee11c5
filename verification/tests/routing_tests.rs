use ironveil::routing::{
    add_routes, check_interface_index, cidr_string, disable_kill_switch, enable_kill_switch,
    interface_index_query, netmask_of, remove_routes, reset_dns, set_dns, split_halves,
    step_verdict, advance, FailureText, OnFailure, Platform, RunAction, RunEvent, Script, Step,
    StepOutcome, Verdict,
};
use ironveil::text::decimal_string;

fn args(v: &[&str]) -> Vec<String> {
    v.iter().map(|s| s.to_string()).collect()
}

fn cmd(program: &str, a: &[&str], on_failure: OnFailure) -> Step {
    Step { announce: None, program: program.to_string(), args: args(a), on_failure }
}

fn announced(notice: &str, program: &str, a: &[&str], on_failure: OnFailure) -> Step {
    Step { announce: Some(notice.to_string()), program: program.to_string(), args: args(a), on_failure }
}

fn abort_program() -> OnFailure {
    OnFailure::Abort(FailureText::ProgramFailed)
}

fn abort_route() -> OnFailure {
    OnFailure::Abort(FailureText::RouteFailed)
}

fn abort_dump() -> OnFailure {
    OnFailure::Abort(FailureText::OutputDump)
}

#[test]
fn decimal_rendering() {
    assert_eq!(decimal_string(0), "0");
    assert_eq!(decimal_string(7), "7");
    assert_eq!(decimal_string(51820), "51820");
    assert_eq!(decimal_string(u64::MAX), "18446744073709551615");
}

#[test]
fn split_halves_render_as_cidr() {
    let (lower, upper) = split_halves();
    assert_eq!(cidr_string(&lower), "0.0.0.0/1");
    assert_eq!(cidr_string(&upper), "128.0.0.0/1");
}

#[test]
fn netmasks_of_prefix_lengths() {
    assert_eq!(netmask_of(1), 0x8000_0000);
    assert_eq!(netmask_of(24), 0xFFFF_FF00);
    assert_eq!(netmask_of(32), 0xFFFF_FFFF);
}

#[test]
fn split_halves_cover_every_address() {
    let (lower, upper) = split_halves();
    for addr in [0u32, 1, 0x7FFF_FFFF, 0x8000_0000, 0xC0A8_0101, u32::MAX] {
        let in_lower = addr >> (32 - lower.len as u32) == lower.network >> (32 - lower.len as u32);
        let in_upper = addr >> (32 - upper.len as u32) == upper.network >> (32 - upper.len as u32);
        assert!(in_lower != in_upper, "address {addr:#x}");
    }
}

#[test]
fn add_routes_on_unix() {
    let s = add_routes(Platform::Unix, "203.0.113.5", "192.168.1.1", "ironveil_client");
    assert_eq!(
        s,
        Script {
            steps: vec![
                cmd("ip", &["route", "replace", "203.0.113.5", "via", "192.168.1.1"], abort_program()),
                cmd("ip", &["route", "replace", "0.0.0.0/1", "dev", "ironveil_client"], abort_program()),
                cmd("ip", &["route", "replace", "128.0.0.0/1", "dev", "ironveil_client"], abort_program()),
                cmd("ip6tables", &["-I", "OUTPUT", "-j", "DROP"], abort_program()),
            ],
            done: "routes added, all traffic going through tunnel".to_string(),
        }
    );
}

#[test]
fn add_routes_on_windows() {
    let s = add_routes(Platform::Windows, "203.0.113.5", "192.168.1.1", "ironveil_client");
    assert_eq!(
        s,
        Script {
            steps: vec![
                announced(
                    "adding route: 203.0.113.5 via 192.168.1.1",
                    "route",
                    &["add", "203.0.113.5", "mask", "255.255.255.255", "192.168.1.1"],
                    abort_route(),
                ),
                announced(
                    "adding 0.0.0.0/1 via if ironveil_client",
                    "route",
                    &["add", "0.0.0.0", "mask", "128.0.0.0", "0.0.0.0", "if", "ironveil_client"],
                    abort_route(),
                ),
                announced(
                    "adding 128.0.0.0/1 via if ironveil_client",
                    "route",
                    &["add", "128.0.0.0", "mask", "128.0.0.0", "0.0.0.0", "if", "ironveil_client"],
                    abort_route(),
                ),
                announced(
                    "blocking outgoing ipv6",
                    "netsh",
                    &["advfirewall", "firewall", "add", "rule", "name=IronVeilBlockIPv6", "dir=out",
                        "action=block", "remoteip=::/0", "enable=yes"],
                    abort_dump(),
                ),
            ],
            done: "routes added, all traffic going through tunnel".to_string(),
        }
    );
}

#[test]
fn remove_routes_on_unix() {
    let s = remove_routes(Platform::Unix, "203.0.113.5", "192.168.1.1", "tun0");
    assert_eq!(
        s,
        Script {
            steps: vec![
                cmd("ip", &["route", "del", "203.0.113.5", "via", "192.168.1.1"], abort_program()),
                cmd("ip", &["route", "del", "0.0.0.0/1", "dev", "tun0"], abort_program()),
                cmd("ip", &["route", "del", "128.0.0.0/1", "dev", "tun0"], abort_program()),
                cmd("ip6tables", &["-D", "OUTPUT", "-j", "DROP"], abort_program()),
            ],
            done: "routes removed".to_string(),
        }
    );
}

#[test]
fn remove_routes_on_windows() {
    let s = remove_routes(Platform::Windows, "203.0.113.5", "192.168.1.1", "tun0");
    assert_eq!(
        s,
        Script {
            steps: vec![
                cmd("route", &["delete", "203.0.113.5", "mask", "255.255.255.255", "192.168.1.1"], abort_route()),
                cmd("route", &["delete", "0.0.0.0", "mask", "128.0.0.0", "0.0.0.0", "if", "tun0"], abort_route()),
                cmd("route", &["delete", "128.0.0.0", "mask", "128.0.0.0", "0.0.0.0", "if", "tun0"], abort_route()),
                cmd("netsh", &["advfirewall", "firewall", "delete", "rule", "name=IronVeilBlockIPv6"], abort_dump()),
            ],
            done: "routes removed".to_string(),
        }
    );
}

#[test]
fn remove_routes_pairs_with_add_routes() {
    for platform in [Platform::Unix, Platform::Windows] {
        let add = add_routes(platform, "10.1.2.3", "10.0.0.1", "wg");
        let rem = remove_routes(platform, "10.1.2.3", "10.0.0.1", "wg");
        assert_eq!(add.steps.len(), rem.steps.len());
        for (a, r) in add.steps.iter().zip(rem.steps.iter()) {
            assert_eq!(a.program, r.program);
            if a.program == "netsh" {
                assert_eq!(&a.args[..4], &["advfirewall", "firewall", "add", "rule"]);
                assert_eq!(r.args, vec!["advfirewall", "firewall", "delete", "rule", a.args[4].as_str()]);
                continue;
            }
            assert_eq!(a.args.len(), r.args.len());
            let differing: Vec<usize> = (0..a.args.len()).filter(|&k| a.args[k] != r.args[k]).collect();
            assert_eq!(differing.len(), 1);
            let k = differing[0];
            let pair = (a.args[k].as_str(), r.args[k].as_str());
            assert!(matches!(pair, ("replace", "del") | ("add", "delete") | ("-I", "-D")), "{pair:?}");
        }
    }
}

#[test]
fn set_dns_on_unix_falls_back_to_resolv_conf() {
    let s = set_dns(Platform::Unix, "ironveil_client", "1.1.1.1");
    assert_eq!(
        s,
        Script {
            steps: vec![cmd(
                "resolvectl",
                &["dns", "ironveil_client", "1.1.1.1"],
                OnFailure::WriteFile("/etc/resolv.conf".to_string(), "nameserver 1.1.1.1\n".to_string()),
            )],
            done: "dns set to 1.1.1.1 on ironveil_client".to_string(),
        }
    );
}

#[test]
fn set_dns_on_windows() {
    let s = set_dns(Platform::Windows, "ironveil_client", "1.1.1.1");
    assert_eq!(
        s,
        Script {
            steps: vec![cmd(
                "netsh",
                &["interface", "ip", "set", "dns", "name=\"ironveil_client\"", "static", "1.1.1.1"],
                OnFailure::Abort(FailureText::Labeled("set dns failed".to_string())),
            )],
            done: "dns set to 1.1.1.1 on ironveil_client".to_string(),
        }
    );
}

#[test]
fn reset_dns_on_both_platforms() {
    assert_eq!(
        reset_dns(Platform::Unix, "tun0"),
        Script {
            steps: vec![cmd(
                "resolvectl",
                &["revert", "tun0"],
                OnFailure::WriteFile("/etc/resolv.conf".to_string(), "nameserver 8.8.8.8\n".to_string()),
            )],
            done: "dns reset".to_string(),
        }
    );
    assert_eq!(
        reset_dns(Platform::Windows, "tun0"),
        Script {
            steps: vec![cmd(
                "netsh",
                &["interface", "ip", "set", "dns", "name=\"tun0\"", "dhcp"],
                OnFailure::Abort(FailureText::Labeled("reset dns failed".to_string())),
            )],
            done: "dns reset".to_string(),
        }
    );
}

#[test]
fn kill_switch_on_unix() {
    assert_eq!(
        enable_kill_switch(Platform::Unix, "203.0.113.5"),
        Script {
            steps: vec![
                cmd("iptables", &["-I", "OUTPUT", "-j", "DROP"], abort_program()),
                cmd("iptables", &["-I", "OUTPUT", "-d", "203.0.113.5", "-j", "ACCEPT"], abort_program()),
                cmd("iptables", &["-I", "OUTPUT", "-o", "tun+", "-j", "ACCEPT"], abort_program()),
            ],
            done: "kill switch enabled".to_string(),
        }
    );
    assert_eq!(
        disable_kill_switch(Platform::Unix),
        Script {
            steps: vec![
                cmd("iptables", &["-D", "OUTPUT", "-j", "DROP"], abort_program()),
                cmd("iptables", &["-D", "OUTPUT", "-o", "tun+", "-j", "ACCEPT"], abort_program()),
            ],
            done: "kill switch disabled".to_string(),
        }
    );
}

#[test]
fn kill_switch_on_windows() {
    assert_eq!(
        enable_kill_switch(Platform::Windows, "203.0.113.5"),
        Script {
            steps: vec![
                cmd(
                    "netsh",
                    &["advfirewall", "firewall", "add", "rule", "name=IronVeilKillSwitchBlock", "dir=out",
                        "action=block", "remoteip=any", "enable=yes"],
                    abort_dump(),
                ),
                cmd(
                    "netsh",
                    &["advfirewall", "firewall", "add", "rule", "name=IronVeilKillSwitchAllow", "dir=out",
                        "action=allow", "remoteip=203.0.113.5", "enable=yes"],
                    abort_dump(),
                ),
            ],
            done: "kill switch enabled".to_string(),
        }
    );
    assert_eq!(
        disable_kill_switch(Platform::Windows),
        Script {
            steps: vec![
                cmd("netsh", &["advfirewall", "firewall", "delete", "rule", "name=IronVeilKillSwitchBlock"], abort_dump()),
                cmd("netsh", &["advfirewall", "firewall", "delete", "rule", "name=IronVeilKillSwitchAllow"], abort_dump()),
            ],
            done: "kill switch disabled".to_string(),
        }
    );
}

#[test]
fn unix_kill_switch_leaves_the_server_rule_in_place() {
    let enable = enable_kill_switch(Platform::Unix, "203.0.113.5");
    let disable = disable_kill_switch(Platform::Unix);
    let server_rule = &enable.steps[1].args;
    for step in &disable.steps {
        let mut undone = server_rule.clone();
        undone[0] = "-D".to_string();
        assert_ne!(step.args, undone);
    }
}

#[test]
fn verdict_of_success_is_continue() {
    let s = add_routes(Platform::Unix, "1.2.3.4", "10.0.0.1", "tun0");
    assert_eq!(step_verdict(&s.steps[0], &StepOutcome::Succeeded), Verdict::Continue);
}

#[test]
fn verdict_messages_of_failed_commands() {
    let failed = StepOutcome::Failed("boom".to_string(), "out".to_string());
    let unix = add_routes(Platform::Unix, "1.2.3.4", "10.0.0.1", "tun0");
    assert_eq!(step_verdict(&unix.steps[0], &failed), Verdict::Fail("ip failed: boom".to_string()));
    let win = add_routes(Platform::Windows, "1.2.3.4", "10.0.0.1", "tun0");
    assert_eq!(step_verdict(&win.steps[0], &failed), Verdict::Fail("route command failed: boom".to_string()));
    let ks = enable_kill_switch(Platform::Windows, "1.2.3.4");
    assert_eq!(step_verdict(&ks.steps[0], &failed), Verdict::Fail("boom out".to_string()));
    let dns = set_dns(Platform::Windows, "tun0", "1.1.1.1");
    assert_eq!(step_verdict(&dns.steps[0], &failed), Verdict::Fail("set dns failed: boom".to_string()));
    let rdns = reset_dns(Platform::Windows, "tun0");
    assert_eq!(step_verdict(&rdns.steps[0], &failed), Verdict::Fail("reset dns failed: boom".to_string()));
}

#[test]
fn verdict_when_a_command_cannot_start() {
    let not_started = StepOutcome::NotStarted("No such file or directory (os error 2)".to_string());
    let unix = add_routes(Platform::Unix, "1.2.3.4", "10.0.0.1", "tun0");
    assert_eq!(
        step_verdict(&unix.steps[3], &not_started),
        Verdict::Fail("No such file or directory (os error 2)".to_string())
    );
    let dns = set_dns(Platform::Unix, "tun0", "9.9.9.9");
    assert_eq!(
        step_verdict(&dns.steps[0], &not_started),
        Verdict::Fallback("/etc/resolv.conf".to_string(), "nameserver 9.9.9.9\n".to_string())
    );
}

#[test]
fn verdict_of_failed_resolvectl_is_fallback() {
    let dns = reset_dns(Platform::Unix, "tun0");
    let failed = StepOutcome::Failed("no link".to_string(), String::new());
    assert_eq!(
        step_verdict(&dns.steps[0], &failed),
        Verdict::Fallback("/etc/resolv.conf".to_string(), "nameserver 8.8.8.8\n".to_string())
    );
}

#[test]
fn interface_index_query_and_check() {
    let (program, a) = interface_index_query("ironveil_client");
    assert_eq!(program, "powershell");
    assert_eq!(a, args(&["-Command", "(Get-NetAdapter -Name 'ironveil_client').ifIndex"]));
    assert_eq!(check_interface_index("tun0", 7), Ok(7));
    assert_eq!(check_interface_index("tun0", 0), Err("interface tun0 not found".to_string()));
}

fn three_step_script(second: OnFailure) -> Script {
    Script {
        steps: vec![
            announced("first", "a", &["1"], abort_program()),
            cmd("b", &["2"], second),
            cmd("c", &["3"], abort_program()),
        ],
        done: "all done".to_string(),
    }
}

#[test]
fn run_goes_through_every_step_then_succeeds() {
    let script = three_step_script(abort_program());
    let (at, action) = advance(&script, 0, RunEvent::Start);
    assert_eq!((at, action), (0, RunAction::Run(0, Some("first".to_string()))));
    let (at, action) = advance(&script, 0, RunEvent::StepDone(StepOutcome::Succeeded));
    assert_eq!((at, action), (1, RunAction::Run(1, None)));
    let (at, action) = advance(&script, 1, RunEvent::StepDone(StepOutcome::Succeeded));
    assert_eq!((at, action), (2, RunAction::Run(2, None)));
    let (at, action) = advance(&script, 2, RunEvent::StepDone(StepOutcome::Succeeded));
    assert_eq!((at, action), (3, RunAction::Succeed("all done".to_string())));
}

#[test]
fn run_stops_at_the_first_failure() {
    let script = three_step_script(abort_program());
    let (at, action) = advance(
        &script,
        1,
        RunEvent::StepDone(StepOutcome::Failed("boom".to_string(), String::new())),
    );
    assert_eq!((at, action), (1, RunAction::Fail("b failed: boom".to_string())));
}

#[test]
fn run_writes_the_fallback_file_and_goes_on() {
    let script = three_step_script(OnFailure::WriteFile("/tmp/x".to_string(), "data".to_string()));
    let (at, action) = advance(
        &script,
        1,
        RunEvent::StepDone(StepOutcome::Failed("no".to_string(), String::new())),
    );
    assert_eq!((at, action), (1, RunAction::WriteFile("/tmp/x".to_string(), "data".to_string())));
    let (at, action) = advance(&script, 1, RunEvent::FileWritten(Ok(())));
    assert_eq!((at, action), (2, RunAction::Run(2, None)));
}

#[test]
fn run_fails_with_the_reason_a_fallback_write_failed() {
    let script = three_step_script(OnFailure::WriteFile("/tmp/x".to_string(), "data".to_string()));
    let (at, action) = advance(&script, 1, RunEvent::FileWritten(Err("denied".to_string())));
    assert_eq!((at, action), (1, RunAction::Fail("denied".to_string())));
}

#[test]
fn empty_script_succeeds_at_once() {
    let script = Script { steps: vec![], done: "nothing to do".to_string() };
    assert_eq!(
        advance(&script, 0, RunEvent::Start),
        (0, RunAction::Succeed("nothing to do".to_string()))
    );
}
