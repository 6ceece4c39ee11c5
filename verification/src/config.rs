//! The configuration model of a VPN endpoint (what `config/*.toml` holds).
use vstd::prelude::*;

verus! {

/// A whole configuration file.
#[derive(Debug, PartialEq, Eq)]
pub struct Config {
    pub interface: Interface,
    pub peer: Peer,
    pub routing: Option<Routing>,
}

/// The local end of the tunnel.
#[derive(Debug, PartialEq, Eq)]
pub struct Interface {
    /// The secret key, in standard base64.
    pub private_key: String,
    /// The address of the TUN device.
    pub address: String,
    /// The UDP port to listen on.
    pub port: Option<u16>,
}

/// The remote end of the tunnel.
#[derive(Debug, PartialEq, Eq)]
pub struct Peer {
    /// The peer's public key, in standard base64.
    pub public_key: String,
    /// Where the peer is reached (`host:port`).
    pub endpoint: Option<String>,
    pub allowed_ips: String,
}

/// The client's routing settings.
#[derive(Debug, PartialEq, Eq)]
pub struct Routing {
    pub gateway: String,
    pub tun_interface: String,
    pub dns_server: String,
    pub real_interface: String,
}

/// The UDP port a server listens on when its configuration names none.
pub const DEFAULT_LISTEN_PORT: u16 = 51820;

impl Interface {
    /// The UDP port to listen on: the configured one, else 51820.
    pub fn listen_port(&self) -> (port: u16)
        ensures
            port == match self.port {
                Some(p) => p,
                None => DEFAULT_LISTEN_PORT,
            },
    {
        match self.port {
            Some(p) => p,
            None => DEFAULT_LISTEN_PORT,
        }
    }
}

/// The client configuration that the setup program writes, with the
/// client's secret key, the server's public key, the preshared key and the
/// server's endpoint filled in.
pub open spec fn client_config_model(
    client_private_key: Seq<char>,
    server_public_key: Seq<char>,
    preshared_key: Seq<char>,
    endpoint: Seq<char>,
) -> Seq<char> {
    "[interface]\n    private_key = \""@ + client_private_key
        + "\"\n    address = \"10.0.0.2\"\n\n    [peer]\n    public_key = \""@ + server_public_key
        + "\"\n    preshared_key = \""@ + preshared_key + "\"\n    endpoint = \""@ + endpoint
        + "\"\n    allowed_ips = \"0.0.0.0/0\"\n\n    [routing]\n    gateway = \"192.168.1.1\" \n    tun_name = \"(PLACEHOLDER)\"\n    dns_server = \"1.1.1.1\"\n    real_interface = \"(PLACEHOLDER)\""@
}

/// The text of the client configuration that the setup program writes (see
/// [`client_config_model`]).
pub fn client_config_text(
    client_private_key: &str,
    server_public_key: &str,
    preshared_key: &str,
    endpoint: &str,
) -> (text: String)
    ensures
        text@ == client_config_model(client_private_key@, server_public_key@, preshared_key@, endpoint@),
{
    let mut t = String::from_str("[interface]\n    private_key = \"");
    t.append(client_private_key);
    t.append("\"\n    address = \"10.0.0.2\"\n\n    [peer]\n    public_key = \"");
    t.append(server_public_key);
    t.append("\"\n    preshared_key = \"");
    t.append(preshared_key);
    t.append("\"\n    endpoint = \"");
    t.append(endpoint);
    t.append(
        "\"\n    allowed_ips = \"0.0.0.0/0\"\n\n    [routing]\n    gateway = \"192.168.1.1\" \n    tun_name = \"(PLACEHOLDER)\"\n    dns_server = \"1.1.1.1\"\n    real_interface = \"(PLACEHOLDER)\"",
    );
    t
}

} // verus!
