//! A model of what the Unix scripts change on the system: the routing table
//! (`ip route`) and the `OUTPUT` chains of `iptables` and `ip6tables`; and
//! the laws of the scripts over it.
use vstd::prelude::*;
use crate::routing::{
    add_routes_model, disable_kill_switch_model, enable_kill_switch_model, lower_half,
    remove_routes_model, upper_half, Platform, StepModel,
};
use crate::text::decimal;

verus! {

/// The parts of a Unix system's network state that the scripts touch.
pub struct UnixNetState {
    /// The routing table: for each destination, how it is reached (`via`
    /// or `dev`) and through what.
    pub routes: Map<Seq<char>, (Seq<char>, Seq<char>)>,
    /// The rules of `iptables`' `OUTPUT` chain, first to last; a rule is its
    /// arguments after the chain's name.
    pub ip4_output: Seq<Seq<Seq<char>>>,
    /// The rules of `ip6tables`' `OUTPUT` chain, first to last.
    pub ip6_output: Seq<Seq<Seq<char>>>,
}

/// `chain` without the first rule equal to `rule`; `None` where there is no
/// such rule (then `-D` fails).
pub open spec fn remove_first(chain: Seq<Seq<Seq<char>>>, rule: Seq<Seq<char>>) -> Option<
    Seq<Seq<Seq<char>>>,
>
    decreases chain.len(),
{
    if chain.len() == 0 {
        None
    } else if chain[0] == rule {
        Some(chain.drop_first())
    } else {
        match remove_first(chain.drop_first(), rule) {
            Some(rest) => Some(seq![chain[0]] + rest),
            None => None,
        }
    }
}

/// The effect of one `-I` or `-D` on an `OUTPUT` chain.
pub open spec fn chain_effect(chain: Seq<Seq<Seq<char>>>, args: Seq<Seq<char>>) -> Option<
    Seq<Seq<Seq<char>>>,
> {
    if args.len() >= 2 && args[1] == "OUTPUT"@ {
        let rule = args.subrange(2, args.len() as int);
        if args[0] == "-I"@ {
            Some(seq![rule] + chain)
        } else if args[0] == "-D"@ {
            remove_first(chain, rule)
        } else {
            None
        }
    } else {
        None
    }
}

/// The state after a command, or `None` where the command fails (or is not
/// one of `ip route replace|del`, `iptables`, `ip6tables`).
pub open spec fn apply_unix(state: UnixNetState, step: StepModel) -> Option<UnixNetState> {
    let a = step.args;
    if step.program == "ip"@ {
        if a.len() == 5 && a[0] == "route"@ && a[1] == "replace"@ {
            Some(UnixNetState { routes: state.routes.insert(a[2], (a[3], a[4])), ..state })
        } else if a.len() == 5 && a[0] == "route"@ && a[1] == "del"@ && state.routes.contains_key(
            a[2],
        ) && state.routes[a[2]] == (a[3], a[4]) {
            Some(UnixNetState { routes: state.routes.remove(a[2]), ..state })
        } else {
            None
        }
    } else if step.program == "iptables"@ {
        match chain_effect(state.ip4_output, a) {
            Some(c) => Some(UnixNetState { ip4_output: c, ..state }),
            None => None,
        }
    } else if step.program == "ip6tables"@ {
        match chain_effect(state.ip6_output, a) {
            Some(c) => Some(UnixNetState { ip6_output: c, ..state }),
            None => None,
        }
    } else {
        None
    }
}

/// The state after running the commands in order, and whether all of them
/// succeeded: the run stops at the first command that fails, and the state
/// is then what the commands before it made of it.
pub open spec fn run_unix(state: UnixNetState, steps: Seq<StepModel>) -> (UnixNetState, bool)
    decreases steps.len(),
{
    if steps.len() == 0 {
        (state, true)
    } else {
        match apply_unix(state, steps[0]) {
            Some(next) => run_unix(next, steps.drop_first()),
            None => (state, false),
        }
    }
}

proof fn lemma_literals()
    ensures
        "ip"@ != "iptables"@,
        "ip"@ != "ip6tables"@,
        "iptables"@ != "ip6tables"@,
        "replace"@ != "del"@,
        "-I"@ != "-D"@,
        lower_half().cidr() != upper_half().cidr(),
{
    reveal_strlit("ip");
    reveal_strlit("iptables");
    reveal_strlit("ip6tables");
    reveal_strlit("replace");
    reveal_strlit("del");
    reveal_strlit("-I");
    reveal_strlit("-D");
    assert("ip"@.len() != "iptables"@.len());
    assert("ip"@.len() != "ip6tables"@.len());
    assert("iptables"@[2] != "ip6tables"@[2]);
    assert("replace"@.len() != "del"@.len());
    assert("-I"@[1] != "-D"@[1]);
    reveal_with_fuel(decimal, 3);
    assert(lower_half().cidr()[0] == '0');
    assert(upper_half().cidr()[0] == '1');
}

/// Removing the routes gives the system back the routing table and the
/// `ip6tables` chain it had before they were added: where the table held no
/// route to the server or to either half of the address space (and the
/// server's address is neither half), adding succeeds, and removing after
/// it succeeds and restores the state.
pub proof fn lemma_remove_routes_restores_state(
    state: UnixNetState,
    server_ip: Seq<char>,
    gateway: Seq<char>,
    tun_interface: Seq<char>,
)
    requires
        !state.routes.contains_key(server_ip),
        !state.routes.contains_key(lower_half().cidr()),
        !state.routes.contains_key(upper_half().cidr()),
        server_ip != lower_half().cidr(),
        server_ip != upper_half().cidr(),
    ensures
        run_unix(state, add_routes_model(Platform::Unix, server_ip, gateway, tun_interface).steps)
            matches (mid, true) && run_unix(
            mid,
            remove_routes_model(Platform::Unix, server_ip, gateway, tun_interface).steps,
        ) == (state, true),
{
    lemma_literals();
    let add = add_routes_model(Platform::Unix, server_ip, gateway, tun_interface).steps;
    let rem = remove_routes_model(Platform::Unix, server_ip, gateway, tun_interface).steps;
    let low = lower_half().cidr();
    let up = upper_half().cidr();
    let r1 = state.routes.insert(server_ip, ("via"@, gateway));
    let r2 = r1.insert(low, ("dev"@, tun_interface));
    let r3 = r2.insert(up, ("dev"@, tun_interface));
    let drop = seq!["-j"@, "DROP"@];
    let s1 = UnixNetState { routes: r1, ..state };
    let s2 = UnixNetState { routes: r2, ..state };
    let s3 = UnixNetState { routes: r3, ..state };
    let s4 = UnixNetState { ip6_output: seq![drop] + state.ip6_output, ..s3 };
    assert(add[3].args.subrange(2, 4) =~= drop);
    assert(apply_unix(state, add[0]) == Some(s1));
    assert(apply_unix(s1, add[1]) == Some(s2));
    assert(apply_unix(s2, add[2]) == Some(s3));
    assert(apply_unix(s3, add[3]) == Some(s4));
    reveal_with_fuel(run_unix, 5);
    assert(add.drop_first().drop_first().drop_first().drop_first() =~= Seq::<StepModel>::empty());
    assert(add.drop_first()[0] == add[1]);
    assert(add.drop_first().drop_first()[0] == add[2]);
    assert(add.drop_first().drop_first().drop_first()[0] == add[3]);
    assert(run_unix(state, add) == (s4, true));
    let t1 = UnixNetState { routes: r3.remove(server_ip), ..s4 };
    let t2 = UnixNetState { routes: r3.remove(server_ip).remove(low), ..s4 };
    let t3 = UnixNetState { routes: r3.remove(server_ip).remove(low).remove(up), ..s4 };
    assert(rem[3].args.subrange(2, 4) =~= drop);
    assert(remove_first(seq![drop] + state.ip6_output, drop) == Some(state.ip6_output)) by {
        assert((seq![drop] + state.ip6_output).drop_first() =~= state.ip6_output);
    }
    assert(apply_unix(s4, rem[0]) == Some(t1));
    assert(apply_unix(t1, rem[1]) == Some(t2));
    assert(apply_unix(t2, rem[2]) == Some(t3));
    assert(r3.remove(server_ip).remove(low).remove(up) =~= state.routes);
    assert(apply_unix(t3, rem[3]) == Some(state));
    assert(rem.drop_first().drop_first().drop_first().drop_first() =~= Seq::<StepModel>::empty());
    assert(rem.drop_first()[0] == rem[1]);
    assert(rem.drop_first().drop_first()[0] == rem[2]);
    assert(rem.drop_first().drop_first().drop_first()[0] == rem[3]);
    assert(run_unix(s4, rem) == (state, true));
}

/// Lifting the kill switch after enabling it gives `iptables`' `OUTPUT`
/// chain back but for the rule that accepts traffic to the server, which
/// stays at its head; routes and the `ip6tables` chain are untouched.
pub proof fn lemma_kill_switch_round_trip(state: UnixNetState, server_ip: Seq<char>)
    ensures
        run_unix(state, enable_kill_switch_model(Platform::Unix, server_ip).steps) matches (mid, true)
            && run_unix(mid, disable_kill_switch_model(Platform::Unix).steps) == (
            UnixNetState {
                ip4_output: seq![seq!["-d"@, server_ip, "-j"@, "ACCEPT"@]] + state.ip4_output,
                ..state
            },
            true,
        ),
{
    lemma_literals();
    let en = enable_kill_switch_model(Platform::Unix, server_ip).steps;
    let dis = disable_kill_switch_model(Platform::Unix).steps;
    let drop = seq!["-j"@, "DROP"@];
    let to_server = seq!["-d"@, server_ip, "-j"@, "ACCEPT"@];
    let via_tun = seq!["-o"@, "tun+"@, "-j"@, "ACCEPT"@];
    let c = state.ip4_output;
    assert(en[0].args.subrange(2, en[0].args.len() as int) =~= drop);
    assert(en[1].args.subrange(2, en[1].args.len() as int) =~= to_server);
    assert(en[2].args.subrange(2, en[2].args.len() as int) =~= via_tun);
    assert(dis[0].args.subrange(2, dis[0].args.len() as int) =~= drop);
    assert(dis[1].args.subrange(2, dis[1].args.len() as int) =~= via_tun);
    let s1 = UnixNetState { ip4_output: seq![drop] + c, ..state };
    let s2 = UnixNetState { ip4_output: seq![to_server] + (seq![drop] + c), ..state };
    let s3 = UnixNetState { ip4_output: seq![via_tun] + (seq![to_server] + (seq![drop] + c)), ..state };
    assert(apply_unix(state, en[0]) == Some(s1));
    assert(apply_unix(s1, en[1]) == Some(s2));
    assert(apply_unix(s2, en[2]) == Some(s3));
    reveal_with_fuel(run_unix, 4);
    assert(en.drop_first().drop_first().drop_first() =~= Seq::<StepModel>::empty());
    assert(en.drop_first()[0] == en[1]);
    assert(en.drop_first().drop_first()[0] == en[2]);
    assert(run_unix(state, en) == (s3, true));
    let chain = s3.ip4_output;
    let after_drop = seq![via_tun] + (seq![to_server] + c);
    assert(remove_first(chain, drop) == Some(after_drop)) by {
        reveal_with_fuel(remove_first, 3);
        assert(via_tun.len() != drop.len());
        assert(to_server.len() != drop.len());
        assert(chain[0] == via_tun);
        assert(chain.drop_first() =~= seq![to_server] + (seq![drop] + c));
        assert(chain.drop_first()[0] == to_server);
        assert(chain.drop_first().drop_first() =~= seq![drop] + c);
        assert((seq![drop] + c)[0] == drop);
        assert((seq![drop] + c).drop_first() =~= c);
        assert(remove_first(seq![drop] + c, drop) == Some(c));
        assert(remove_first(chain.drop_first(), drop) == Some(seq![to_server] + c)) by {
            assert(seq![to_server] + c =~= seq![chain.drop_first()[0]] + c);
        }
        assert(after_drop =~= seq![chain[0]] + (seq![to_server] + c));
    }
    let end = UnixNetState { ip4_output: seq![to_server] + c, ..state };
    assert(remove_first(after_drop, via_tun) == Some(seq![to_server] + c)) by {
        assert(after_drop[0] == via_tun);
        assert(after_drop.drop_first() =~= seq![to_server] + c);
    }
    assert(apply_unix(s3, dis[0]) == Some(UnixNetState { ip4_output: after_drop, ..state }));
    assert(apply_unix(UnixNetState { ip4_output: after_drop, ..state }, dis[1]) == Some(end));
    assert(dis.drop_first().drop_first() =~= Seq::<StepModel>::empty());
    assert(dis.drop_first()[0] == dis[1]);
    assert(run_unix(s3, dis) == (end, true));
}

} // verus!
