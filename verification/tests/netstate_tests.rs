use std::collections::HashMap;

use ironveil::routing::{
    add_routes, disable_kill_switch, enable_kill_switch, remove_routes, Platform, Script,
};

#[derive(Clone, Debug, PartialEq)]
struct State {
    routes: HashMap<String, (String, String)>,
    ip4_output: Vec<Vec<String>>,
    ip6_output: Vec<Vec<String>>,
}

fn chain_effect(chain: &mut Vec<Vec<String>>, args: &[String]) -> bool {
    if args.len() < 2 || args[1] != "OUTPUT" {
        return false;
    }
    let rule = args[2..].to_vec();
    match args[0].as_str() {
        "-I" => {
            chain.insert(0, rule);
            true
        }
        "-D" => match chain.iter().position(|r| *r == rule) {
            Some(i) => {
                chain.remove(i);
                true
            }
            None => false,
        },
        _ => false,
    }
}

fn run(state: &mut State, script: &Script) -> bool {
    for step in &script.steps {
        let a = &step.args;
        let ok = match step.program.as_str() {
            "ip" if a[1] == "replace" => {
                state.routes.insert(a[2].clone(), (a[3].clone(), a[4].clone()));
                true
            }
            "ip" if a[1] == "del" => {
                if state.routes.get(&a[2]) == Some(&(a[3].clone(), a[4].clone())) {
                    state.routes.remove(&a[2]);
                    true
                } else {
                    false
                }
            }
            "iptables" => chain_effect(&mut state.ip4_output, a),
            "ip6tables" => chain_effect(&mut state.ip6_output, a),
            _ => false,
        };
        if !ok {
            return false;
        }
    }
    true
}

fn initial() -> State {
    let mut routes = HashMap::new();
    routes.insert("default".to_string(), ("via".to_string(), "192.168.1.1".to_string()));
    State {
        routes,
        ip4_output: vec![vec!["-p".to_string(), "icmp".to_string(), "-j".to_string(), "ACCEPT".to_string()]],
        ip6_output: vec![vec!["-j".to_string(), "DROP".to_string()]],
    }
}

#[test]
fn removing_routes_restores_the_state() {
    let before = initial();
    let mut state = before.clone();
    assert!(run(&mut state, &add_routes(Platform::Unix, "203.0.113.5", "192.168.1.1", "tun0")));
    assert_eq!(state.routes.len(), 4);
    assert_eq!(state.ip6_output.len(), 2);
    assert!(run(&mut state, &remove_routes(Platform::Unix, "203.0.113.5", "192.168.1.1", "tun0")));
    assert_eq!(state, before);
}

#[test]
fn kill_switch_round_trip_leaves_the_server_rule() {
    let before = initial();
    let mut state = before.clone();
    assert!(run(&mut state, &enable_kill_switch(Platform::Unix, "203.0.113.5")));
    assert!(run(&mut state, &disable_kill_switch(Platform::Unix)));
    let mut expected = before.clone();
    expected.ip4_output.insert(
        0,
        vec!["-d".to_string(), "203.0.113.5".to_string(), "-j".to_string(), "ACCEPT".to_string()],
    );
    assert_eq!(state, expected);
}
