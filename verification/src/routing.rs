//! Route, DNS and kill-switch management, as scripts of system commands.
//!
//! Each operation of the VPN client (add or remove the tunnel routes, set
//! or reset DNS, enable or disable the kill switch) is a [`Script`]: a list
//! of commands to run in order, each with what to do when it fails, and a
//! closing notice. The library builds the scripts for each platform and
//! decides, from the outcome of each command, whether the script goes on,
//! fails with a message, or falls back to writing a file. Running the
//! commands is the caller's work.
use vstd::prelude::*;
use vstd::arithmetic::power2::{pow2, lemma2_to64, lemma_pow2_unfold};
use crate::text::{decimal, ipv4_text, push_char, push_decimal, push_ipv4};

verus! {

/// The operating system family whose tools a script uses.
#[derive(Clone, Copy, Debug, PartialEq, Eq, Structural)]
pub enum Platform {
    Unix,
    Windows,
}

/// An IPv4 prefix: a network address and a prefix length.
#[derive(Clone, Copy, Debug, PartialEq, Eq, Structural)]
pub struct Ipv4Prefix {
    pub network: u32,
    pub len: u8,
}

impl Ipv4Prefix {
    /// Whether `addr` lies in this prefix (for a length of at most 32).
    pub open spec fn contains(self, addr: u32) -> bool {
        addr as nat / pow2((32 - self.len) as nat) == self.network as nat / pow2(
            (32 - self.len) as nat,
        )
    }

    /// The CIDR rendering `a.b.c.d/len`.
    pub open spec fn cidr(self) -> Seq<char> {
        ipv4_text(self.network) + seq!['/'] + decimal(self.len as nat)
    }
}

/// The lower half of the IPv4 space, `0.0.0.0/1`.
pub open spec fn lower_half() -> Ipv4Prefix {
    Ipv4Prefix { network: 0, len: 1 }
}

/// The upper half of the IPv4 space, `128.0.0.0/1`.
pub open spec fn upper_half() -> Ipv4Prefix {
    Ipv4Prefix { network: 0x8000_0000, len: 1 }
}

/// The netmask of a prefix length: `len` one bits followed by zero bits.
pub open spec fn netmask(len: nat) -> u32 {
    (pow2(32) - pow2((32 - len) as nat)) as u32
}

/// The two halves that together take all IPv4 traffic into the tunnel.
pub fn split_halves() -> (r: (Ipv4Prefix, Ipv4Prefix))
    ensures
        r.0 == lower_half(),
        r.1 == upper_half(),
{
    (Ipv4Prefix { network: 0, len: 1 }, Ipv4Prefix { network: 0x8000_0000, len: 1 })
}

/// The CIDR rendering of a prefix.
pub fn cidr_string(p: &Ipv4Prefix) -> (s: String)
    ensures
        s@ == p.cidr(),
{
    let mut s = String::new();
    push_ipv4(&mut s, p.network);
    push_char(&mut s, '/');
    push_decimal(&mut s, p.len as u64);
    assert(s@ =~= p.cidr());
    s
}

/// The netmask of a prefix length between 1 and 32.
pub fn netmask_of(len: u8) -> (m: u32)
    requires
        1 <= len <= 32,
    ensures
        m == netmask(len as nat),
{
    let mut m: u32 = 0;
    let mut i: u8 = 0;
    proof {
        lemma2_to64();
    }
    while i < len
        invariant
            i <= len <= 32,
            m as nat == pow2(32) - pow2((32 - i) as nat),
            pow2(32) == 0x1_0000_0000,
            pow2(31) == 0x8000_0000,
        decreases len - i,
    {
        proof {
            lemma_pow2_unfold((32 - i) as nat);
            lemma_pow2_unfold(32);
            if i + 1 < 32 {
                lemma_pow2_unfold((32 - i - 1) as nat);
            }
        }
        m = m / 2 + 0x8000_0000;
        i = i + 1;
    }
    m
}

/// Every IPv4 address lies in exactly one of the two halves, and each half
/// is more specific than the default route (prefix length 0), so together
/// they take all IPv4 traffic without replacing the default route.
pub proof fn lemma_split_halves_cover(addr: u32)
    ensures
        lower_half().contains(addr) != upper_half().contains(addr),
        lower_half().len > 0,
        upper_half().len > 0,
{
    lemma2_to64();
    assert(pow2((32 - lower_half().len) as nat) == 0x8000_0000);
    assert(pow2((32 - upper_half().len) as nat) == 0x8000_0000);
    assert(addr as nat / 0x8000_0000 < 2);
    assert(0x8000_0000nat / 0x8000_0000 == 1);
}

/// A prefix of length 32 contains exactly its own network address: the
/// host route to the server is the most specific route there is.
pub proof fn lemma_host_prefix_is_single(network: u32, addr: u32)
    ensures
        (Ipv4Prefix { network, len: 32 }).contains(addr) <==> addr == network,
{
    lemma2_to64();
    let p = Ipv4Prefix { network, len: 32 };
    assert(pow2((32 - p.len) as nat) == 1);
    assert(addr as nat / 1 == addr as nat);
    assert(network as nat / 1 == network as nat);
}


/// How the failure of a command is told in the script's error.
#[derive(Debug, PartialEq, Eq)]
pub enum FailureText {
    /// `"<program> failed: <stderr>"`
    ProgramFailed,
    /// `"route command failed: <stderr>"`
    RouteFailed,
    /// `"<stderr> <stdout>"`
    OutputDump,
    /// `"<label>: <stderr>"`
    Labeled(String),
}

pub enum FailureTextModel {
    ProgramFailed,
    RouteFailed,
    OutputDump,
    Labeled(Seq<char>),
}

impl View for FailureText {
    type V = FailureTextModel;

    open spec fn view(&self) -> FailureTextModel {
        match self {
            FailureText::ProgramFailed => FailureTextModel::ProgramFailed,
            FailureText::RouteFailed => FailureTextModel::RouteFailed,
            FailureText::OutputDump => FailureTextModel::OutputDump,
            FailureText::Labeled(l) => FailureTextModel::Labeled(l@),
        }
    }
}

/// What a script does when one of its commands fails.
#[derive(Debug, PartialEq, Eq)]
pub enum OnFailure {
    /// Stop, and fail with the message that the `FailureText` describes.
    Abort(FailureText),
    /// Write the given contents to the given path instead, and go on.
    WriteFile(String, String),
}

pub enum OnFailureModel {
    Abort(FailureTextModel),
    WriteFile(Seq<char>, Seq<char>),
}

impl View for OnFailure {
    type V = OnFailureModel;

    open spec fn view(&self) -> OnFailureModel {
        match self {
            OnFailure::Abort(t) => OnFailureModel::Abort(t@),
            OnFailure::WriteFile(path, contents) => OnFailureModel::WriteFile(path@, contents@),
        }
    }
}

/// One command of a script: an optional notice printed before it, the
/// program, its arguments, and what to do when it fails.
#[derive(Debug, PartialEq, Eq)]
pub struct Step {
    pub announce: Option<String>,
    pub program: String,
    pub args: Vec<String>,
    pub on_failure: OnFailure,
}

pub struct StepModel {
    pub announce: Option<Seq<char>>,
    pub program: Seq<char>,
    pub args: Seq<Seq<char>>,
    pub on_failure: OnFailureModel,
}

/// The texts of a sequence of strings.
pub open spec fn texts(v: Seq<String>) -> Seq<Seq<char>> {
    v.map_values(|a: String| a@)
}

impl View for Step {
    type V = StepModel;

    open spec fn view(&self) -> StepModel {
        StepModel {
            announce: match self.announce {
                Some(a) => Some(a@),
                None => None,
            },
            program: self.program@,
            args: texts(self.args@),
            on_failure: self.on_failure@,
        }
    }
}

/// A list of commands to run in order, and the notice printed when all of
/// them have run.
#[derive(Debug, PartialEq, Eq)]
pub struct Script {
    pub steps: Vec<Step>,
    pub done: String,
}

pub struct ScriptModel {
    pub steps: Seq<StepModel>,
    pub done: Seq<char>,
}

impl View for Script {
    type V = ScriptModel;

    open spec fn view(&self) -> ScriptModel {
        ScriptModel { steps: self.steps@.map_values(|s: Step| s@), done: self.done@ }
    }
}

/// A command with no notice before it.
pub open spec fn command(
    program: Seq<char>,
    args: Seq<Seq<char>>,
    on_failure: OnFailureModel,
) -> StepModel {
    StepModel { announce: None, program, args, on_failure }
}

/// A command with a notice printed before it.
pub open spec fn announced(
    notice: Seq<char>,
    program: Seq<char>,
    args: Seq<Seq<char>>,
    on_failure: OnFailureModel,
) -> StepModel {
    StepModel { announce: Some(notice), program, args, on_failure }
}

pub open spec fn abort_program() -> OnFailureModel {
    OnFailureModel::Abort(FailureTextModel::ProgramFailed)
}

pub open spec fn abort_route() -> OnFailureModel {
    OnFailureModel::Abort(FailureTextModel::RouteFailed)
}

pub open spec fn abort_dump() -> OnFailureModel {
    OnFailureModel::Abort(FailureTextModel::OutputDump)
}

fn text_of(s: &str) -> (r: String)
    ensures
        r@ == s@,
{
    String::from_str(s)
}

fn join4(a: &str, b: &str, c: &str, d: &str) -> (r: String)
    ensures
        r@ == a@ + b@ + c@ + d@,
{
    let mut r = String::from_str(a);
    r.append(b);
    r.append(c);
    r.append(d);
    r
}

fn ipv4_string(addr: u32) -> (s: String)
    ensures
        s@ == ipv4_text(addr),
{
    let mut s = String::new();
    push_ipv4(&mut s, addr);
    assert(s@ =~= ipv4_text(addr));
    s
}

fn step(program: &str, args: Vec<String>, on_failure: OnFailure) -> (s: Step)
    ensures
        s@ == command(program@, texts(args@), on_failure@),
{
    Step { announce: None, program: text_of(program), args, on_failure }
}

fn step_after(notice: String, program: &str, args: Vec<String>, on_failure: OnFailure) -> (s: Step)
    ensures
        s@ == announced(notice@, program@, texts(args@), on_failure@),
{
    Step { announce: Some(notice), program: text_of(program), args, on_failure }
}


/// The firewall rule (by name) that blocks all outgoing IPv6 traffic on Windows.
pub open spec fn block_ipv6_args() -> Seq<Seq<char>> {
    seq![
        "advfirewall"@, "firewall"@, "add"@, "rule"@, "name=IronVeilBlockIPv6"@, "dir=out"@,
        "action=block"@, "remoteip=::/0"@, "enable=yes"@,
    ]
}

/// The script that sends all IPv4 traffic into the tunnel: a host route to
/// the server through the local gateway, and the two halves of the address
/// space through the tunnel interface. It also blocks all outgoing IPv6
/// traffic (`ip6tables` on Unix, a firewall rule on Windows), so that none
/// leaks around the tunnel.
pub open spec fn add_routes_model(
    platform: Platform,
    server_ip: Seq<char>,
    gateway: Seq<char>,
    tun_interface: Seq<char>,
) -> ScriptModel {
    match platform {
        Platform::Unix => ScriptModel {
            steps: seq![
                command("ip"@, seq!["route"@, "replace"@, server_ip, "via"@, gateway], abort_program()),
                command("ip"@, seq!["route"@, "replace"@, lower_half().cidr(), "dev"@, tun_interface], abort_program()),
                command("ip"@, seq!["route"@, "replace"@, upper_half().cidr(), "dev"@, tun_interface], abort_program()),
                command("ip6tables"@, seq!["-I"@, "OUTPUT"@, "-j"@, "DROP"@], abort_program()),
            ],
            done: "routes added, all traffic going through tunnel"@,
        },
        Platform::Windows => ScriptModel {
            steps: seq![
                announced(
                    "adding route: "@ + server_ip + " via "@ + gateway,
                    "route"@,
                    seq!["add"@, server_ip, "mask"@, ipv4_text(netmask(32)), gateway],
                    abort_route(),
                ),
                announced(
                    "adding "@ + lower_half().cidr() + " via if "@ + tun_interface,
                    "route"@,
                    seq!["add"@, ipv4_text(lower_half().network), "mask"@, ipv4_text(netmask(1)), "0.0.0.0"@, "if"@, tun_interface],
                    abort_route(),
                ),
                announced(
                    "adding "@ + upper_half().cidr() + " via if "@ + tun_interface,
                    "route"@,
                    seq!["add"@, ipv4_text(upper_half().network), "mask"@, ipv4_text(netmask(1)), "0.0.0.0"@, "if"@, tun_interface],
                    abort_route(),
                ),
                announced(
                    "blocking outgoing ipv6"@,
                    "netsh"@,
                    block_ipv6_args(),
                    abort_dump(),
                ),
            ],
            done: "routes added, all traffic going through tunnel"@,
        },
    }
}

/// The script that routes all traffic through the tunnel (see
/// [`add_routes_model`]).
pub fn add_routes(platform: Platform, server_ip: &str, gateway: &str, tun_interface: &str) -> (s: Script)
    ensures
        s@ == add_routes_model(platform, server_ip@, gateway@, tun_interface@),
{
    let (lower, upper) = split_halves();
    let steps = match platform {
        Platform::Unix => {
            let a0 = vec![text_of("route"), text_of("replace"), text_of(server_ip), text_of("via"), text_of(gateway)];
            let a1 = vec![text_of("route"), text_of("replace"), cidr_string(&lower), text_of("dev"), text_of(tun_interface)];
            let a2 = vec![text_of("route"), text_of("replace"), cidr_string(&upper), text_of("dev"), text_of(tun_interface)];
            let a3 = vec![text_of("-I"), text_of("OUTPUT"), text_of("-j"), text_of("DROP")];
            assert(texts(a0@) =~= seq!["route"@, "replace"@, server_ip@, "via"@, gateway@]);
            assert(texts(a1@) =~= seq!["route"@, "replace"@, lower_half().cidr(), "dev"@, tun_interface@]);
            assert(texts(a2@) =~= seq!["route"@, "replace"@, upper_half().cidr(), "dev"@, tun_interface@]);
            assert(texts(a3@) =~= seq!["-I"@, "OUTPUT"@, "-j"@, "DROP"@]);
            vec![
                step("ip", a0, OnFailure::Abort(FailureText::ProgramFailed)),
                step("ip", a1, OnFailure::Abort(FailureText::ProgramFailed)),
                step("ip", a2, OnFailure::Abort(FailureText::ProgramFailed)),
                step("ip6tables", a3, OnFailure::Abort(FailureText::ProgramFailed)),
            ]
        },
        Platform::Windows => {
            let host_mask = ipv4_string(netmask_of(32));
            let half_mask = netmask_of(1);
            let a0 = vec![text_of("add"), text_of(server_ip), text_of("mask"), host_mask, text_of(gateway)];
            let a1 = vec![text_of("add"), ipv4_string(lower.network), text_of("mask"), ipv4_string(half_mask), text_of("0.0.0.0"), text_of("if"), text_of(tun_interface)];
            let a2 = vec![text_of("add"), ipv4_string(upper.network), text_of("mask"), ipv4_string(half_mask), text_of("0.0.0.0"), text_of("if"), text_of(tun_interface)];
            let a3 = vec![
                text_of("advfirewall"), text_of("firewall"), text_of("add"), text_of("rule"),
                text_of("name=IronVeilBlockIPv6"), text_of("dir=out"), text_of("action=block"),
                text_of("remoteip=::/0"), text_of("enable=yes"),
            ];
            assert(texts(a3@) =~= block_ipv6_args());
            let lower_cidr = cidr_string(&lower);
            let upper_cidr = cidr_string(&upper);
            let n0 = join4("adding route: ", server_ip, " via ", gateway);
            let n1 = join4("adding ", lower_cidr.as_str(), " via if ", tun_interface);
            let n2 = join4("adding ", upper_cidr.as_str(), " via if ", tun_interface);
            assert(texts(a0@) =~= seq!["add"@, server_ip@, "mask"@, ipv4_text(netmask(32)), gateway@]);
            assert(texts(a1@) =~= seq!["add"@, ipv4_text(lower_half().network), "mask"@, ipv4_text(netmask(1)), "0.0.0.0"@, "if"@, tun_interface@]);
            assert(texts(a2@) =~= seq!["add"@, ipv4_text(upper_half().network), "mask"@, ipv4_text(netmask(1)), "0.0.0.0"@, "if"@, tun_interface@]);
            assert(n0@ =~= "adding route: "@ + server_ip@ + " via "@ + gateway@);
            assert(n1@ =~= "adding "@ + lower_half().cidr() + " via if "@ + tun_interface@);
            assert(n2@ =~= "adding "@ + upper_half().cidr() + " via if "@ + tun_interface@);
            vec![
                step_after(n0, "route", a0, OnFailure::Abort(FailureText::RouteFailed)),
                step_after(n1, "route", a1, OnFailure::Abort(FailureText::RouteFailed)),
                step_after(n2, "route", a2, OnFailure::Abort(FailureText::RouteFailed)),
                step_after(text_of("blocking outgoing ipv6"), "netsh", a3, OnFailure::Abort(FailureText::OutputDump)),
            ]
        },
    };
    let s = Script { steps, done: text_of("routes added, all traffic going through tunnel") };
    assert(s@.steps =~= add_routes_model(platform, server_ip@, gateway@, tun_interface@).steps);
    s
}


/// The script that takes the routes of [`add_routes_model`] away again.
pub open spec fn remove_routes_model(
    platform: Platform,
    server_ip: Seq<char>,
    gateway: Seq<char>,
    tun_interface: Seq<char>,
) -> ScriptModel {
    match platform {
        Platform::Unix => ScriptModel {
            steps: seq![
                command("ip"@, seq!["route"@, "del"@, server_ip, "via"@, gateway], abort_program()),
                command("ip"@, seq!["route"@, "del"@, lower_half().cidr(), "dev"@, tun_interface], abort_program()),
                command("ip"@, seq!["route"@, "del"@, upper_half().cidr(), "dev"@, tun_interface], abort_program()),
                command("ip6tables"@, seq!["-D"@, "OUTPUT"@, "-j"@, "DROP"@], abort_program()),
            ],
            done: "routes removed"@,
        },
        Platform::Windows => ScriptModel {
            steps: seq![
                command("route"@, seq!["delete"@, server_ip, "mask"@, ipv4_text(netmask(32)), gateway], abort_route()),
                command("route"@, seq!["delete"@, ipv4_text(lower_half().network), "mask"@, ipv4_text(netmask(1)), "0.0.0.0"@, "if"@, tun_interface], abort_route()),
                command("route"@, seq!["delete"@, ipv4_text(upper_half().network), "mask"@, ipv4_text(netmask(1)), "0.0.0.0"@, "if"@, tun_interface], abort_route()),
                command("netsh"@, seq!["advfirewall"@, "firewall"@, "delete"@, "rule"@, "name=IronVeilBlockIPv6"@], abort_dump()),
            ],
            done: "routes removed"@,
        },
    }
}

/// The script that removes the tunnel routes (see [`remove_routes_model`]).
pub fn remove_routes(platform: Platform, server_ip: &str, gateway: &str, tun_interface: &str) -> (s: Script)
    ensures
        s@ == remove_routes_model(platform, server_ip@, gateway@, tun_interface@),
{
    let (lower, upper) = split_halves();
    let steps = match platform {
        Platform::Unix => {
            let a0 = vec![text_of("route"), text_of("del"), text_of(server_ip), text_of("via"), text_of(gateway)];
            let a1 = vec![text_of("route"), text_of("del"), cidr_string(&lower), text_of("dev"), text_of(tun_interface)];
            let a2 = vec![text_of("route"), text_of("del"), cidr_string(&upper), text_of("dev"), text_of(tun_interface)];
            let a3 = vec![text_of("-D"), text_of("OUTPUT"), text_of("-j"), text_of("DROP")];
            assert(texts(a0@) =~= seq!["route"@, "del"@, server_ip@, "via"@, gateway@]);
            assert(texts(a1@) =~= seq!["route"@, "del"@, lower_half().cidr(), "dev"@, tun_interface@]);
            assert(texts(a2@) =~= seq!["route"@, "del"@, upper_half().cidr(), "dev"@, tun_interface@]);
            assert(texts(a3@) =~= seq!["-D"@, "OUTPUT"@, "-j"@, "DROP"@]);
            vec![
                step("ip", a0, OnFailure::Abort(FailureText::ProgramFailed)),
                step("ip", a1, OnFailure::Abort(FailureText::ProgramFailed)),
                step("ip", a2, OnFailure::Abort(FailureText::ProgramFailed)),
                step("ip6tables", a3, OnFailure::Abort(FailureText::ProgramFailed)),
            ]
        },
        Platform::Windows => {
            let host_mask = ipv4_string(netmask_of(32));
            let half_mask = netmask_of(1);
            let a0 = vec![text_of("delete"), text_of(server_ip), text_of("mask"), host_mask, text_of(gateway)];
            let a1 = vec![text_of("delete"), ipv4_string(lower.network), text_of("mask"), ipv4_string(half_mask), text_of("0.0.0.0"), text_of("if"), text_of(tun_interface)];
            let a2 = vec![text_of("delete"), ipv4_string(upper.network), text_of("mask"), ipv4_string(half_mask), text_of("0.0.0.0"), text_of("if"), text_of(tun_interface)];
            let a3 = vec![
                text_of("advfirewall"), text_of("firewall"), text_of("delete"), text_of("rule"),
                text_of("name=IronVeilBlockIPv6"),
            ];
            assert(texts(a3@) =~= seq!["advfirewall"@, "firewall"@, "delete"@, "rule"@, "name=IronVeilBlockIPv6"@]);
            assert(texts(a0@) =~= seq!["delete"@, server_ip@, "mask"@, ipv4_text(netmask(32)), gateway@]);
            assert(texts(a1@) =~= seq!["delete"@, ipv4_text(lower_half().network), "mask"@, ipv4_text(netmask(1)), "0.0.0.0"@, "if"@, tun_interface@]);
            assert(texts(a2@) =~= seq!["delete"@, ipv4_text(upper_half().network), "mask"@, ipv4_text(netmask(1)), "0.0.0.0"@, "if"@, tun_interface@]);
            vec![
                step("route", a0, OnFailure::Abort(FailureText::RouteFailed)),
                step("route", a1, OnFailure::Abort(FailureText::RouteFailed)),
                step("route", a2, OnFailure::Abort(FailureText::RouteFailed)),
                step("netsh", a3, OnFailure::Abort(FailureText::OutputDump)),
            ]
        },
    };
    let s = Script { steps, done: text_of("routes removed") };
    assert(s@.steps =~= remove_routes_model(platform, server_ip@, gateway@, tun_interface@).steps);
    s
}

/// The script that points the tunnel interface's DNS at `dns_server`. On
/// Unix, when `resolvectl` fails, `/etc/resolv.conf` is overwritten to name
/// that server instead.
pub open spec fn set_dns_model(platform: Platform, tun_name: Seq<char>, dns_server: Seq<char>) -> ScriptModel {
    ScriptModel {
        steps: match platform {
            Platform::Unix => seq![
                command(
                    "resolvectl"@,
                    seq!["dns"@, tun_name, dns_server],
                    OnFailureModel::WriteFile("/etc/resolv.conf"@, "nameserver "@ + dns_server + "\n"@),
                ),
            ],
            Platform::Windows => seq![
                command(
                    "netsh"@,
                    seq!["interface"@, "ip"@, "set"@, "dns"@, "name=\""@ + tun_name + "\""@, "static"@, dns_server],
                    OnFailureModel::Abort(FailureTextModel::Labeled("set dns failed"@)),
                ),
            ],
        },
        done: "dns set to "@ + dns_server + " on "@ + tun_name,
    }
}

/// The script that sets the tunnel's DNS server (see [`set_dns_model`]).
pub fn set_dns(platform: Platform, tun_name: &str, dns_server: &str) -> (s: Script)
    ensures
        s@ == set_dns_model(platform, tun_name@, dns_server@),
{
    let steps = match platform {
        Platform::Unix => {
            let args = vec![text_of("dns"), text_of(tun_name), text_of(dns_server)];
            assert(texts(args@) =~= seq!["dns"@, tun_name@, dns_server@]);
            let mut contents = text_of("nameserver ");
            contents.append(dns_server);
            contents.append("\n");
            vec![step("resolvectl", args, OnFailure::WriteFile(text_of("/etc/resolv.conf"), contents))]
        },
        Platform::Windows => {
            let mut name_arg = text_of("name=\"");
            name_arg.append(tun_name);
            name_arg.append("\"");
            let args = vec![
                text_of("interface"), text_of("ip"), text_of("set"), text_of("dns"), name_arg,
                text_of("static"), text_of(dns_server),
            ];
            assert(texts(args@) =~= seq!["interface"@, "ip"@, "set"@, "dns"@, "name=\""@ + tun_name@ + "\""@, "static"@, dns_server@]);
            vec![step("netsh", args, OnFailure::Abort(FailureText::Labeled(text_of("set dns failed"))))]
        },
    };
    let s = Script { steps, done: join4("dns set to ", dns_server, " on ", tun_name) };
    assert(s@.steps =~= set_dns_model(platform, tun_name@, dns_server@).steps);
    s
}

/// The script that gives the interface its DNS settings back. On Unix, when
/// `resolvectl` fails, `/etc/resolv.conf` is overwritten to name 8.8.8.8.
pub open spec fn reset_dns_model(platform: Platform, tun_name: Seq<char>) -> ScriptModel {
    ScriptModel {
        steps: match platform {
            Platform::Unix => seq![
                command(
                    "resolvectl"@,
                    seq!["revert"@, tun_name],
                    OnFailureModel::WriteFile("/etc/resolv.conf"@, "nameserver 8.8.8.8\n"@),
                ),
            ],
            Platform::Windows => seq![
                command(
                    "netsh"@,
                    seq!["interface"@, "ip"@, "set"@, "dns"@, "name=\""@ + tun_name + "\""@, "dhcp"@],
                    OnFailureModel::Abort(FailureTextModel::Labeled("reset dns failed"@)),
                ),
            ],
        },
        done: "dns reset"@,
    }
}

/// The script that resets the tunnel's DNS (see [`reset_dns_model`]).
pub fn reset_dns(platform: Platform, tun_name: &str) -> (s: Script)
    ensures
        s@ == reset_dns_model(platform, tun_name@),
{
    let steps = match platform {
        Platform::Unix => {
            let args = vec![text_of("revert"), text_of(tun_name)];
            assert(texts(args@) =~= seq!["revert"@, tun_name@]);
            vec![step(
                "resolvectl",
                args,
                OnFailure::WriteFile(text_of("/etc/resolv.conf"), text_of("nameserver 8.8.8.8\n")),
            )]
        },
        Platform::Windows => {
            let mut name_arg = text_of("name=\"");
            name_arg.append(tun_name);
            name_arg.append("\"");
            let args = vec![
                text_of("interface"), text_of("ip"), text_of("set"), text_of("dns"), name_arg, text_of("dhcp"),
            ];
            assert(texts(args@) =~= seq!["interface"@, "ip"@, "set"@, "dns"@, "name=\""@ + tun_name@ + "\""@, "dhcp"@]);
            vec![step("netsh", args, OnFailure::Abort(FailureText::Labeled(text_of("reset dns failed"))))]
        },
    };
    let s = Script { steps, done: text_of("dns reset") };
    assert(s@.steps =~= reset_dns_model(platform, tun_name@).steps);
    s
}


/// The script of the kill switch: block all outgoing traffic except that
/// to the server and that through tunnel interfaces.
pub open spec fn enable_kill_switch_model(platform: Platform, server_ip: Seq<char>) -> ScriptModel {
    ScriptModel {
        steps: match platform {
            Platform::Unix => seq![
                command("iptables"@, seq!["-I"@, "OUTPUT"@, "-j"@, "DROP"@], abort_program()),
                command("iptables"@, seq!["-I"@, "OUTPUT"@, "-d"@, server_ip, "-j"@, "ACCEPT"@], abort_program()),
                command("iptables"@, seq!["-I"@, "OUTPUT"@, "-o"@, "tun+"@, "-j"@, "ACCEPT"@], abort_program()),
            ],
            Platform::Windows => seq![
                command(
                    "netsh"@,
                    seq![
                        "advfirewall"@, "firewall"@, "add"@, "rule"@, "name=IronVeilKillSwitchBlock"@,
                        "dir=out"@, "action=block"@, "remoteip=any"@, "enable=yes"@,
                    ],
                    abort_dump(),
                ),
                command(
                    "netsh"@,
                    seq![
                        "advfirewall"@, "firewall"@, "add"@, "rule"@, "name=IronVeilKillSwitchAllow"@,
                        "dir=out"@, "action=allow"@, "remoteip="@ + server_ip, "enable=yes"@,
                    ],
                    abort_dump(),
                ),
            ],
        },
        done: "kill switch enabled"@,
    }
}

/// The script that enables the kill switch (see [`enable_kill_switch_model`]).
pub fn enable_kill_switch(platform: Platform, server_ip: &str) -> (s: Script)
    ensures
        s@ == enable_kill_switch_model(platform, server_ip@),
{
    let steps = match platform {
        Platform::Unix => {
            let a0 = vec![text_of("-I"), text_of("OUTPUT"), text_of("-j"), text_of("DROP")];
            let a1 = vec![text_of("-I"), text_of("OUTPUT"), text_of("-d"), text_of(server_ip), text_of("-j"), text_of("ACCEPT")];
            let a2 = vec![text_of("-I"), text_of("OUTPUT"), text_of("-o"), text_of("tun+"), text_of("-j"), text_of("ACCEPT")];
            assert(texts(a0@) =~= seq!["-I"@, "OUTPUT"@, "-j"@, "DROP"@]);
            assert(texts(a1@) =~= seq!["-I"@, "OUTPUT"@, "-d"@, server_ip@, "-j"@, "ACCEPT"@]);
            assert(texts(a2@) =~= seq!["-I"@, "OUTPUT"@, "-o"@, "tun+"@, "-j"@, "ACCEPT"@]);
            vec![
                step("iptables", a0, OnFailure::Abort(FailureText::ProgramFailed)),
                step("iptables", a1, OnFailure::Abort(FailureText::ProgramFailed)),
                step("iptables", a2, OnFailure::Abort(FailureText::ProgramFailed)),
            ]
        },
        Platform::Windows => {
            let mut remote = text_of("remoteip=");
            remote.append(server_ip);
            let a0 = vec![
                text_of("advfirewall"), text_of("firewall"), text_of("add"), text_of("rule"),
                text_of("name=IronVeilKillSwitchBlock"), text_of("dir=out"), text_of("action=block"),
                text_of("remoteip=any"), text_of("enable=yes"),
            ];
            let a1 = vec![
                text_of("advfirewall"), text_of("firewall"), text_of("add"), text_of("rule"),
                text_of("name=IronVeilKillSwitchAllow"), text_of("dir=out"), text_of("action=allow"),
                remote, text_of("enable=yes"),
            ];
            assert(texts(a0@) =~= seq![
                "advfirewall"@, "firewall"@, "add"@, "rule"@, "name=IronVeilKillSwitchBlock"@,
                "dir=out"@, "action=block"@, "remoteip=any"@, "enable=yes"@,
            ]);
            assert(texts(a1@) =~= seq![
                "advfirewall"@, "firewall"@, "add"@, "rule"@, "name=IronVeilKillSwitchAllow"@,
                "dir=out"@, "action=allow"@, "remoteip="@ + server_ip@, "enable=yes"@,
            ]);
            vec![
                step("netsh", a0, OnFailure::Abort(FailureText::OutputDump)),
                step("netsh", a1, OnFailure::Abort(FailureText::OutputDump)),
            ]
        },
    };
    let s = Script { steps, done: text_of("kill switch enabled") };
    assert(s@.steps =~= enable_kill_switch_model(platform, server_ip@).steps);
    s
}

/// The script that lifts the kill switch. On Unix it deletes the blocking
/// rule and the rule for tunnel interfaces; the rule that accepts traffic
/// to the server stays.
pub open spec fn disable_kill_switch_model(platform: Platform) -> ScriptModel {
    ScriptModel {
        steps: match platform {
            Platform::Unix => seq![
                command("iptables"@, seq!["-D"@, "OUTPUT"@, "-j"@, "DROP"@], abort_program()),
                command("iptables"@, seq!["-D"@, "OUTPUT"@, "-o"@, "tun+"@, "-j"@, "ACCEPT"@], abort_program()),
            ],
            Platform::Windows => seq![
                command(
                    "netsh"@,
                    seq!["advfirewall"@, "firewall"@, "delete"@, "rule"@, "name=IronVeilKillSwitchBlock"@],
                    abort_dump(),
                ),
                command(
                    "netsh"@,
                    seq!["advfirewall"@, "firewall"@, "delete"@, "rule"@, "name=IronVeilKillSwitchAllow"@],
                    abort_dump(),
                ),
            ],
        },
        done: "kill switch disabled"@,
    }
}

/// The script that disables the kill switch (see [`disable_kill_switch_model`]).
pub fn disable_kill_switch(platform: Platform) -> (s: Script)
    ensures
        s@ == disable_kill_switch_model(platform),
{
    let steps = match platform {
        Platform::Unix => {
            let a0 = vec![text_of("-D"), text_of("OUTPUT"), text_of("-j"), text_of("DROP")];
            let a1 = vec![text_of("-D"), text_of("OUTPUT"), text_of("-o"), text_of("tun+"), text_of("-j"), text_of("ACCEPT")];
            assert(texts(a0@) =~= seq!["-D"@, "OUTPUT"@, "-j"@, "DROP"@]);
            assert(texts(a1@) =~= seq!["-D"@, "OUTPUT"@, "-o"@, "tun+"@, "-j"@, "ACCEPT"@]);
            vec![
                step("iptables", a0, OnFailure::Abort(FailureText::ProgramFailed)),
                step("iptables", a1, OnFailure::Abort(FailureText::ProgramFailed)),
            ]
        },
        Platform::Windows => {
            let a0 = vec![
                text_of("advfirewall"), text_of("firewall"), text_of("delete"), text_of("rule"),
                text_of("name=IronVeilKillSwitchBlock"),
            ];
            let a1 = vec![
                text_of("advfirewall"), text_of("firewall"), text_of("delete"), text_of("rule"),
                text_of("name=IronVeilKillSwitchAllow"),
            ];
            assert(texts(a0@) =~= seq!["advfirewall"@, "firewall"@, "delete"@, "rule"@, "name=IronVeilKillSwitchBlock"@]);
            assert(texts(a1@) =~= seq!["advfirewall"@, "firewall"@, "delete"@, "rule"@, "name=IronVeilKillSwitchAllow"@]);
            vec![
                step("netsh", a0, OnFailure::Abort(FailureText::OutputDump)),
                step("netsh", a1, OnFailure::Abort(FailureText::OutputDump)),
            ]
        },
    };
    let s = Script { steps, done: text_of("kill switch disabled") };
    assert(s@.steps =~= disable_kill_switch_model(platform).steps);
    s
}

/// The program and arguments that ask Windows for the index of the
/// network adapter `name`.
pub fn interface_index_query(name: &str) -> (r: (String, Vec<String>))
    ensures
        r.0@ == "powershell"@,
        texts(r.1@) == seq!["-Command"@, "(Get-NetAdapter -Name '"@ + name@ + "').ifIndex"@],
{
    let mut query = text_of("(Get-NetAdapter -Name '");
    query.append(name);
    query.append("').ifIndex");
    let args = vec![text_of("-Command"), query];
    assert(texts(args@) =~= seq!["-Command"@, "(Get-NetAdapter -Name '"@ + name@ + "').ifIndex"@]);
    (text_of("powershell"), args)
}

/// The interface index that the system reported for `name`: an index of 0
/// means that no interface of that name exists.
pub fn check_interface_index(name: &str, index: u32) -> (r: Result<u32, String>)
    ensures
        index != 0 ==> r == Ok::<u32, String>(index),
        index == 0 ==> (r matches Err(m) && m@ == "interface "@ + name@ + " not found"@),
{
    if index == 0 {
        let mut m = text_of("interface ");
        m.append(name);
        m.append(" not found");
        Err(m)
    } else {
        Ok(index)
    }
}

/// How a command of a script went.
#[derive(Debug, PartialEq, Eq)]
pub enum StepOutcome {
    /// It ran and reported success.
    Succeeded,
    /// It ran and reported failure, with what it wrote to standard error
    /// and standard output.
    Failed(String, String),
    /// It could not be started; the text says why.
    NotStarted(String),
}

pub enum StepOutcomeModel {
    Succeeded,
    Failed(Seq<char>, Seq<char>),
    NotStarted(Seq<char>),
}

impl View for StepOutcome {
    type V = StepOutcomeModel;

    open spec fn view(&self) -> StepOutcomeModel {
        match self {
            StepOutcome::Succeeded => StepOutcomeModel::Succeeded,
            StepOutcome::Failed(e, o) => StepOutcomeModel::Failed(e@, o@),
            StepOutcome::NotStarted(e) => StepOutcomeModel::NotStarted(e@),
        }
    }
}

/// What a script does after one of its commands.
#[derive(Debug, PartialEq, Eq)]
pub enum Verdict {
    /// Go on with the next command.
    Continue,
    /// Stop; the script fails with this message.
    Fail(String),
    /// Write these contents to this path; if that fails, the script fails
    /// with the reason, else it goes on.
    Fallback(String, String),
}

pub enum VerdictModel {
    Continue,
    Fail(Seq<char>),
    Fallback(Seq<char>, Seq<char>),
}

impl View for Verdict {
    type V = VerdictModel;

    open spec fn view(&self) -> VerdictModel {
        match self {
            Verdict::Continue => VerdictModel::Continue,
            Verdict::Fail(m) => VerdictModel::Fail(m@),
            Verdict::Fallback(p, c) => VerdictModel::Fallback(p@, c@),
        }
    }
}

/// The message of a command that ran and failed.
pub open spec fn failure_message(
    text: FailureTextModel,
    program: Seq<char>,
    stderr: Seq<char>,
    stdout: Seq<char>,
) -> Seq<char> {
    match text {
        FailureTextModel::ProgramFailed => program + " failed: "@ + stderr,
        FailureTextModel::RouteFailed => "route command failed: "@ + stderr,
        FailureTextModel::OutputDump => stderr + " "@ + stdout,
        FailureTextModel::Labeled(label) => label + ": "@ + stderr,
    }
}

/// What follows a command, given how it went.
pub open spec fn verdict_model(step: StepModel, outcome: StepOutcomeModel) -> VerdictModel {
    match outcome {
        StepOutcomeModel::Succeeded => VerdictModel::Continue,
        StepOutcomeModel::Failed(stderr, stdout) => match step.on_failure {
            OnFailureModel::Abort(text) => VerdictModel::Fail(
                failure_message(text, step.program, stderr, stdout),
            ),
            OnFailureModel::WriteFile(path, contents) => VerdictModel::Fallback(path, contents),
        },
        StepOutcomeModel::NotStarted(reason) => match step.on_failure {
            OnFailureModel::Abort(_) => VerdictModel::Fail(reason),
            OnFailureModel::WriteFile(path, contents) => VerdictModel::Fallback(path, contents),
        },
    }
}

/// Decides what follows a command of a script, given how it went.
pub fn step_verdict(step: &Step, outcome: &StepOutcome) -> (v: Verdict)
    ensures
        v@ == verdict_model(step@, outcome@),
{
    match outcome {
        StepOutcome::Succeeded => Verdict::Continue,
        StepOutcome::Failed(stderr, stdout) => match &step.on_failure {
            OnFailure::Abort(text) => {
                let mut m = String::new();
                match text {
                    FailureText::ProgramFailed => {
                        m.append(step.program.as_str());
                        m.append(" failed: ");
                        m.append(stderr.as_str());
                    },
                    FailureText::RouteFailed => {
                        m.append("route command failed: ");
                        m.append(stderr.as_str());
                    },
                    FailureText::OutputDump => {
                        m.append(stderr.as_str());
                        m.append(" ");
                        m.append(stdout.as_str());
                    },
                    FailureText::Labeled(label) => {
                        m.append(label.as_str());
                        m.append(": ");
                        m.append(stderr.as_str());
                    },
                }
                Verdict::Fail(m)
            },
            OnFailure::WriteFile(path, contents) => Verdict::Fallback(path.clone(), contents.clone()),
        },
        StepOutcome::NotStarted(reason) => match &step.on_failure {
            OnFailure::Abort(_) => Verdict::Fail(reason.clone()),
            OnFailure::WriteFile(path, contents) => Verdict::Fallback(path.clone(), contents.clone()),
        },
    }
}


/// Whether `verb` is a verb that puts something in place.
pub open spec fn adding_verb(verb: Seq<char>) -> bool {
    verb == "replace"@ || verb == "add"@ || verb == "-I"@
}

/// The verb that takes back what an adding verb put in place.
pub open spec fn undo_verb(verb: Seq<char>) -> Seq<char> {
    if verb == "replace"@ {
        "del"@
    } else if verb == "add"@ {
        "delete"@
    } else if verb == "-I"@ {
        "-D"@
    } else {
        verb
    }
}

proof fn lemma_adding_verbs_undo()
    ensures
        adding_verb("replace"@) && undo_verb("replace"@) == "del"@,
        adding_verb("add"@) && undo_verb("add"@) == "delete"@,
        adding_verb("-I"@) && undo_verb("-I"@) == "-D"@,
{
    reveal_strlit("replace");
    reveal_strlit("add");
    reveal_strlit("-I");
    assert("add"@.len() != "replace"@.len());
    assert("-I"@.len() != "replace"@.len());
    assert("-I"@.len() != "add"@.len());
}

/// Whether the command `undo` takes back what the command `done` put in
/// place: the same program with the same arguments, but for one adding verb
/// turned into its undoing verb; or, for a firewall rule that `done` added
/// by name, the deletion of the rule of that name.
pub open spec fn reverts(undo: StepModel, done: StepModel) -> bool {
    &&& undo.program == done.program
    &&& {
        ||| exists|k: int|
            0 <= k < done.args.len() && adding_verb(#[trigger] done.args[k]) && undo.args
                == done.args.update(k, undo_verb(done.args[k]))
        ||| done.args.len() >= 5 && done.args.subrange(0, 4) == seq![
            "advfirewall"@,
            "firewall"@,
            "add"@,
            "rule"@,
        ] && undo.args == seq!["advfirewall"@, "firewall"@, "delete"@, "rule"@, done.args[4]]
    }
}

/// Removing the routes takes back, command by command, what adding them put
/// in place.
pub proof fn lemma_remove_routes_reverts_add_routes(
    platform: Platform,
    server_ip: Seq<char>,
    gateway: Seq<char>,
    tun_interface: Seq<char>,
)
    ensures
        remove_routes_model(platform, server_ip, gateway, tun_interface).steps.len()
            == add_routes_model(platform, server_ip, gateway, tun_interface).steps.len(),
        forall|i: int|
            0 <= i < add_routes_model(platform, server_ip, gateway, tun_interface).steps.len()
                ==> reverts(
                #[trigger] remove_routes_model(platform, server_ip, gateway, tun_interface).steps[i],
                add_routes_model(platform, server_ip, gateway, tun_interface).steps[i],
            ),
{
    let add = add_routes_model(platform, server_ip, gateway, tun_interface);
    let rem = remove_routes_model(platform, server_ip, gateway, tun_interface);
    lemma_adding_verbs_undo();
    assert forall|i: int| 0 <= i < add.steps.len() implies reverts(rem.steps[i], add.steps[i]) by {
        let a = add.steps[i];
        let r = rem.steps[i];
        match platform {
            Platform::Unix => {
                if i < 3 {
                    assert(adding_verb(a.args[1]));
                    assert(r.args =~= a.args.update(1, undo_verb(a.args[1])));
                } else {
                    assert(adding_verb(a.args[0]));
                    assert(r.args =~= a.args.update(0, undo_verb(a.args[0])));
                }
            },
            Platform::Windows => {
                if i < 3 {
                    assert(adding_verb(a.args[0]));
                    assert(r.args =~= a.args.update(0, undo_verb(a.args[0])));
                } else {
                    assert(a.args.subrange(0, 4) =~= seq!["advfirewall"@, "firewall"@, "add"@, "rule"@]);
                    assert(r.args =~= seq!["advfirewall"@, "firewall"@, "delete"@, "rule"@, a.args[4]]);
                }
            },
        }
    }
}

/// Every command that lifts the kill switch takes back one that enabled it.
pub proof fn lemma_disable_kill_switch_reverts_enable(platform: Platform, server_ip: Seq<char>)
    ensures
        forall|i: int|
            0 <= i < disable_kill_switch_model(platform).steps.len() ==> exists|j: int|
                0 <= j < enable_kill_switch_model(platform, server_ip).steps.len() && reverts(
                    #[trigger] disable_kill_switch_model(platform).steps[i],
                    enable_kill_switch_model(platform, server_ip).steps[j],
                ),
{
    let en = enable_kill_switch_model(platform, server_ip);
    let dis = disable_kill_switch_model(platform);
    lemma_adding_verbs_undo();
    assert forall|i: int| 0 <= i < dis.steps.len() implies exists|j: int|
        0 <= j < en.steps.len() && reverts(#[trigger] dis.steps[i], en.steps[j]) by {
        match platform {
            Platform::Unix => {
                let j = if i == 0 { 0int } else { 2int };
                assert(adding_verb(en.steps[j].args[0]));
                assert(dis.steps[i].args =~= en.steps[j].args.update(0, undo_verb(en.steps[j].args[0])));
                assert(reverts(dis.steps[i], en.steps[j]));
            },
            Platform::Windows => {
                let j = i;
                assert(en.steps[j].args.subrange(0, 4) =~= seq!["advfirewall"@, "firewall"@, "add"@, "rule"@]);
                assert(dis.steps[i].args =~= seq!["advfirewall"@, "firewall"@, "delete"@, "rule"@, en.steps[j].args[4]]);
                assert(reverts(dis.steps[i], en.steps[j]));
            },
        }
    }
}

/// On Windows, lifting the kill switch takes back every rule that enabling it
/// added. (On Unix it does not: the rule that accepts traffic to the server
/// stays, see [`lemma_kill_switch_leaves_server_rule`].)
pub proof fn lemma_disable_kill_switch_reverts_all_on_windows(server_ip: Seq<char>)
    ensures
        forall|j: int|
            0 <= j < enable_kill_switch_model(Platform::Windows, server_ip).steps.len() ==> exists|i: int|
                0 <= i < disable_kill_switch_model(Platform::Windows).steps.len() && reverts(
                    disable_kill_switch_model(Platform::Windows).steps[i],
                    #[trigger] enable_kill_switch_model(Platform::Windows, server_ip).steps[j],
                ),
{
    let en = enable_kill_switch_model(Platform::Windows, server_ip);
    let dis = disable_kill_switch_model(Platform::Windows);
    assert forall|j: int| 0 <= j < en.steps.len() implies exists|i: int|
        0 <= i < dis.steps.len() && reverts(dis.steps[i], #[trigger] en.steps[j]) by {
        assert(en.steps[j].args.subrange(0, 4) =~= seq!["advfirewall"@, "firewall"@, "add"@, "rule"@]);
        assert(dis.steps[j].args =~= seq!["advfirewall"@, "firewall"@, "delete"@, "rule"@, en.steps[j].args[4]]);
        assert(reverts(dis.steps[j], en.steps[j]));
    }
}

/// On Unix no command of the disabling script takes back the rule that the
/// enabling script inserted to accept traffic to the server.
pub proof fn lemma_kill_switch_leaves_server_rule(server_ip: Seq<char>)
    ensures
        forall|i: int|
            0 <= i < disable_kill_switch_model(Platform::Unix).steps.len() ==> !reverts(
                #[trigger] disable_kill_switch_model(Platform::Unix).steps[i],
                enable_kill_switch_model(Platform::Unix, server_ip).steps[1],
            ),
{
    let en = enable_kill_switch_model(Platform::Unix, server_ip).steps[1];
    let dis = disable_kill_switch_model(Platform::Unix);
    reveal_strlit("-I");
    reveal_strlit("-D");
    reveal_strlit("-d");
    reveal_strlit("-o");
    reveal_strlit("advfirewall");
    assert forall|i: int| 0 <= i < dis.steps.len() implies !reverts(#[trigger] dis.steps[i], en) by {
        let d = dis.steps[i];
        if i == 0 {
            assert(d.args.len() != en.args.len());
        } else {
            assert forall|k: int| 0 <= k < en.args.len() implies d.args != en.args.update(k, undo_verb(en.args[k])) by {
                assert("-D"@[1] != "-I"@[1]);
                assert("-o"@[1] != "-d"@[1]);
                if k == 2 {
                    assert(d.args[0] != en.args.update(k, undo_verb(en.args[k]))[0]);
                } else {
                    assert(d.args[2] != en.args.update(k, undo_verb(en.args[k]))[2]);
                }
            }
        }
        assert(en.args[0].len() != "advfirewall"@.len());
        assert(en.args.subrange(0, 4)[0] == en.args[0]);
    }
}


/// What happened since the runner of a script last acted.
#[derive(Debug, PartialEq, Eq)]
pub enum RunEvent {
    /// The run begins.
    Start,
    /// The command at the current position ran (or not), as told.
    StepDone(StepOutcome),
    /// The fallback file of the current position was written, or not, with
    /// the reason.
    FileWritten(Result<(), String>),
}

pub enum RunEventModel {
    Start,
    StepDone(StepOutcomeModel),
    FileWritten(Result<(), Seq<char>>),
}

impl View for RunEvent {
    type V = RunEventModel;

    open spec fn view(&self) -> RunEventModel {
        match self {
            RunEvent::Start => RunEventModel::Start,
            RunEvent::StepDone(o) => RunEventModel::StepDone(o@),
            RunEvent::FileWritten(Ok(())) => RunEventModel::FileWritten(Ok(())),
            RunEvent::FileWritten(Err(e)) => RunEventModel::FileWritten(Err(e@)),
        }
    }
}

/// What the runner of a script does next.
#[derive(Debug, PartialEq, Eq)]
pub enum RunAction {
    /// Print the notice, if any, then run the command at this position.
    Run(usize, Option<String>),
    /// Write these contents to this path.
    WriteFile(String, String),
    /// The script succeeded; print this notice.
    Succeed(String),
    /// The script failed with this message. Commands that ran before stay
    /// in effect: nothing is undone.
    Fail(String),
}

pub enum RunActionModel {
    Run(nat, Option<Seq<char>>),
    WriteFile(Seq<char>, Seq<char>),
    Succeed(Seq<char>),
    Fail(Seq<char>),
}

impl View for RunAction {
    type V = RunActionModel;

    open spec fn view(&self) -> RunActionModel {
        match self {
            RunAction::Run(i, n) => RunActionModel::Run(
                *i as nat,
                match n {
                    Some(t) => Some(t@),
                    None => None,
                },
            ),
            RunAction::WriteFile(p, c) => RunActionModel::WriteFile(p@, c@),
            RunAction::Succeed(m) => RunActionModel::Succeed(m@),
            RunAction::Fail(m) => RunActionModel::Fail(m@),
        }
    }
}

/// Moving on to position `next`: run its command, or succeed after the last.
pub open spec fn proceed_model(script: ScriptModel, next: nat) -> (nat, RunActionModel) {
    if next < script.steps.len() {
        (next, RunActionModel::Run(next, script.steps[next as int].announce))
    } else {
        (next, RunActionModel::Succeed(script.done))
    }
}

/// The next position and action of a run of `script` at position `at`,
/// given what happened: the commands run in order; the run stops at the
/// first command that fails without a fallback, with that command's
/// message; a fallback file is written instead where a command has one, and
/// a failed write fails the run with its reason; after the last command the
/// run succeeds with the script's closing notice.
pub open spec fn advance_model(script: ScriptModel, at: nat, event: RunEventModel) -> (
    nat,
    RunActionModel,
) {
    match event {
        RunEventModel::Start => proceed_model(script, 0),
        RunEventModel::StepDone(outcome) => match verdict_model(script.steps[at as int], outcome) {
            VerdictModel::Continue => proceed_model(script, at + 1),
            VerdictModel::Fail(m) => (at, RunActionModel::Fail(m)),
            VerdictModel::Fallback(p, c) => (at, RunActionModel::WriteFile(p, c)),
        },
        RunEventModel::FileWritten(Ok(())) => proceed_model(script, at + 1),
        RunEventModel::FileWritten(Err(e)) => (at, RunActionModel::Fail(e)),
    }
}

fn proceed(script: &Script, count: usize, next: usize) -> (r: (usize, RunAction))
    requires
        count == script.steps@.len(),
        next <= count,
    ensures
        (r.0 as nat, r.1@) == proceed_model(script@, next as nat),
{
    if next < count {
        let announce = match &script.steps[next].announce {
            Some(n) => Some(n.clone()),
            None => None,
        };
        (next, RunAction::Run(next, announce))
    } else {
        (next, RunAction::Succeed(script.done.clone()))
    }
}

/// Decides the next position and action of a run of `script` that stands at
/// position `at` (see [`advance_model`]). Before the run starts `at` is
/// ignored; after it, `at` is the position of the last `Run` or `WriteFile`.
pub fn advance(script: &Script, at: usize, event: RunEvent) -> (r: (usize, RunAction))
    requires
        event is Start || at < script.steps@.len(),
    ensures
        (r.0 as nat, r.1@) == advance_model(script@, at as nat, event@),
        r.1@ matches RunActionModel::Run(i, n) ==> r.0 == i && i < script@.steps.len() && n
            == script@.steps[i as int].announce,
        r.1@ matches RunActionModel::Succeed(m) ==> m == script@.done && r.0 == script@.steps.len(),
        event@ matches RunEventModel::FileWritten(Ok(())) ==> r.0 == at + 1,
        event@ matches RunEventModel::StepDone(StepOutcomeModel::Succeeded) ==> r.0 == at + 1,
{
    let count = script.steps.len();
    match event {
        RunEvent::Start => proceed(script, count, 0),
        RunEvent::StepDone(outcome) => match step_verdict(&script.steps[at], &outcome) {
            Verdict::Continue => proceed(script, count, at + 1),
            Verdict::Fail(m) => (at, RunAction::Fail(m)),
            Verdict::Fallback(p, c) => (at, RunAction::WriteFile(p, c)),
        },
        RunEvent::FileWritten(Ok(())) => proceed(script, count, at + 1),
        RunEvent::FileWritten(Err(e)) => (at, RunAction::Fail(e)),
    }
}

/// A run stops at the first command that fails with no fallback, with that
/// command's message, and stays at its position; a fallback file that could
/// not be written fails the run with the reason; a command that succeeds
/// moves the run to the next position.
pub proof fn lemma_run_stops_at_first_failure(
    script: ScriptModel,
    at: nat,
    outcome: StepOutcomeModel,
    reason: Seq<char>,
)
    requires
        at < script.steps.len(),
    ensures
        outcome !is Succeeded && script.steps[at as int].on_failure is Abort ==> advance_model(
            script,
            at,
            RunEventModel::StepDone(outcome),
        ) == (at, RunActionModel::Fail(verdict_model(script.steps[at as int], outcome)->Fail_0)),
        advance_model(script, at, RunEventModel::FileWritten(Err(reason))) == (
            at,
            RunActionModel::Fail(reason),
        ),
        advance_model(script, at, RunEventModel::StepDone(StepOutcomeModel::Succeeded)).0 == at + 1,
{
}

/// Once a fallback file was written the run goes on exactly as after a
/// command that succeeded: with the next command, or, after the last one,
/// with success and the script's closing notice.
pub proof fn lemma_written_fallback_moves_on(script: ScriptModel, at: nat)
    requires
        at < script.steps.len(),
    ensures
        advance_model(script, at, RunEventModel::FileWritten(Ok(()))) == advance_model(
            script,
            at,
            RunEventModel::StepDone(StepOutcomeModel::Succeeded),
        ),
        at + 1 == script.steps.len() ==> advance_model(
            script,
            at,
            RunEventModel::FileWritten(Ok(())),
        ) == (script.steps.len(), RunActionModel::Succeed(script.done)),
        at + 1 < script.steps.len() ==> advance_model(
            script,
            at,
            RunEventModel::FileWritten(Ok(())),
        ) == (at + 1, RunActionModel::Run(at + 1, script.steps[at + 1 as int].announce)),
{
}

/// The runner is only ever told to run a command that the script has, at
/// the position it then stands at, with that command's notice; and it only
/// succeeds once it has gone past the last command.
pub proof fn lemma_run_names_existing_steps(script: ScriptModel, at: nat, event: RunEventModel)
    requires
        event is Start || at < script.steps.len(),
    ensures
        advance_model(script, at, event).1 matches RunActionModel::Run(i, n) ==> {
            &&& i < script.steps.len()
            &&& advance_model(script, at, event).0 == i
            &&& n == script.steps[i as int].announce
        },
        advance_model(script, at, event).1 matches RunActionModel::Succeed(m) ==> {
            &&& m == script.done
            &&& advance_model(script, at, event).0 == script.steps.len()
        },
{
}

/// What follows a command: success always goes on; a command with a
/// fallback file has that file written whenever it fails, however it
/// failed; a command without one fails the script, with the reason where it
/// could not be started, and otherwise with a message that carries what it
/// wrote to standard error (at the end, or, for a dump of its output, at the
/// start, with standard output at the end).
pub proof fn lemma_verdicts(step: StepModel, outcome: StepOutcomeModel)
    ensures
        outcome is Succeeded ==> verdict_model(step, outcome) is Continue,
        step.on_failure matches OnFailureModel::WriteFile(path, contents) ==> (outcome is Succeeded
            || verdict_model(step, outcome) == VerdictModel::Fallback(path, contents)),
        outcome matches StepOutcomeModel::NotStarted(reason) ==> (step.on_failure is Abort
            ==> verdict_model(step, outcome) == VerdictModel::Fail(reason)),
        step.on_failure matches OnFailureModel::Abort(text) ==> (outcome matches StepOutcomeModel::Failed(
            stderr,
            stdout,
        ) ==> (verdict_model(step, outcome) matches VerdictModel::Fail(m) && if text is OutputDump {
            m.subrange(0, stderr.len() as int) == stderr && m.subrange(
                m.len() - stdout.len(),
                m.len() as int,
            ) == stdout
        } else {
            m.len() >= stderr.len() && m.subrange(m.len() - stderr.len(), m.len() as int) == stderr
        })),
{
    if let OnFailureModel::Abort(text) = step.on_failure {
        if let StepOutcomeModel::Failed(stderr, stdout) = outcome {
            let m = failure_message(text, step.program, stderr, stdout);
            match text {
                FailureTextModel::OutputDump => {
                    assert(m.subrange(0, stderr.len() as int) =~= stderr);
                    assert(m.subrange(m.len() - stdout.len(), m.len() as int) =~= stdout);
                },
                FailureTextModel::ProgramFailed => {
                    assert(m.subrange(m.len() - stderr.len(), m.len() as int) =~= stderr);
                },
                FailureTextModel::RouteFailed => {
                    assert(m.subrange(m.len() - stderr.len(), m.len() as int) =~= stderr);
                },
                FailureTextModel::Labeled(_) => {
                    assert(m.subrange(m.len() - stderr.len(), m.len() as int) =~= stderr);
                },
            }
        }
    }
}

} // verus!
