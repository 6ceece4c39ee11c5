//! The packet relays of the VPN client and server.
//!
//! A relay owns the WireGuard tunnel. Its caller reads packets from the TUN
//! device and datagrams from the UDP socket, hands each one to the relay,
//! and performs the actions the relay returns, in order.
use vstd::prelude::*;
use crate::tunnel::{
    encapsulation_outcome, tunnel_decapsulate, tunnel_encapsulate, Tunnel, TunnelOp, TunnelResult,
    TunnelResultModel, MAX_PACKET_LEN, WORK_LEN,
};

verus! {

/// The size of the client's TUN and UDP read buffers: the largest packet
/// and datagram the client handles.
pub const CLIENT_BUFFER_LEN: usize = 1504;

/// The size of the server's TUN and UDP read buffers: the largest packet
/// and datagram the server handles.
pub const SERVER_BUFFER_LEN: usize = 65535;

/// What the client does next.
#[derive(Debug, PartialEq, Eq)]
pub enum ClientAction {
    /// Send this datagram to the server.
    SendToServer(Vec<u8>),
    /// Write this packet to the TUN device.
    WriteToTun(Vec<u8>),
    /// Print this line on standard output.
    Print(String),
    /// Print this line on standard error.
    PrintErr(String),
}

pub enum ClientActionModel {
    SendToServer(Seq<u8>),
    WriteToTun(Seq<u8>),
    Print(Seq<char>),
    PrintErr(Seq<char>),
}

impl View for ClientAction {
    type V = ClientActionModel;

    open spec fn view(&self) -> ClientActionModel {
        match self {
            ClientAction::SendToServer(d) => ClientActionModel::SendToServer(d@),
            ClientAction::WriteToTun(d) => ClientActionModel::WriteToTun(d@),
            ClientAction::Print(m) => ClientActionModel::Print(m@),
            ClientAction::PrintErr(m) => ClientActionModel::PrintErr(m@),
        }
    }
}

/// What the server does next; `A` is the type of peer addresses.
#[derive(Debug, PartialEq, Eq)]
pub enum ServerAction<A> {
    /// Send this datagram to this address.
    SendTo(Vec<u8>, A),
    /// Write this packet to the TUN device.
    WriteToTun(Vec<u8>),
    /// Print this line on standard output.
    Print(String),
    /// Print this line on standard error.
    PrintErr(String),
}

pub enum ServerActionModel<A> {
    SendTo(Seq<u8>, A),
    WriteToTun(Seq<u8>),
    Print(Seq<char>),
    PrintErr(Seq<char>),
}

impl<A> View for ServerAction<A> {
    type V = ServerActionModel<A>;

    open spec fn view(&self) -> ServerActionModel<A> {
        match self {
            ServerAction::SendTo(d, a) => ServerActionModel::SendTo(d@, *a),
            ServerAction::WriteToTun(d) => ServerActionModel::WriteToTun(d@),
            ServerAction::Print(m) => ServerActionModel::Print(m@),
            ServerAction::PrintErr(m) => ServerActionModel::PrintErr(m@),
        }
    }
}

pub open spec fn client_views(actions: Seq<ClientAction>) -> Seq<ClientActionModel> {
    actions.map_values(|a: ClientAction| a@)
}

pub open spec fn server_views<A>(actions: Seq<ServerAction<A>>) -> Seq<ServerActionModel<A>> {
    actions.map_values(|a: ServerAction<A>| a@)
}

/// The client's actions after it started the handshake: the initiation, if
/// the tunnel produced one, goes to the server.
pub open spec fn client_handshake_actions(out: TunnelResultModel) -> Seq<ClientActionModel> {
    match out {
        TunnelResultModel::WriteToNetwork(d) => seq![
            ClientActionModel::SendToServer(d),
            ClientActionModel::Print("handshake shoke"@),
        ],
        _ => seq![],
    }
}

/// The client's actions after encapsulating a packet from the TUN device.
pub open spec fn client_outbound_actions(out: TunnelResultModel) -> Seq<ClientActionModel> {
    match out {
        TunnelResultModel::WriteToNetwork(d) => seq![
            ClientActionModel::SendToServer(d),
            ClientActionModel::Print("tun intercepted, encrypted and sent to serv via udp"@),
        ],
        TunnelResultModel::Error(e) => seq![ClientActionModel::PrintErr("encapsulate err: "@ + e)],
        _ => seq![],
    }
}

/// The client's actions after decapsulating a datagram from the server.
pub open spec fn client_inbound_actions(out: TunnelResultModel) -> Seq<ClientActionModel> {
    match out {
        TunnelResultModel::WriteToTunnelV4(d, _) => seq![
            ClientActionModel::Print("wrote decrypted ip packet into tun"@),
            ClientActionModel::WriteToTun(d),
        ],
        TunnelResultModel::WriteToNetwork(d) => seq![
            ClientActionModel::Print("handshake reply sent"@),
            ClientActionModel::SendToServer(d),
        ],
        TunnelResultModel::Error(e) => seq![ClientActionModel::PrintErr("decapsulate error: "@ + e)],
        _ => seq![],
    }
}

/// The server's actions after encapsulating a packet from the TUN device
/// for the peer at `peer`.
pub open spec fn server_outbound_actions<A>(out: TunnelResultModel, peer: A) -> Seq<ServerActionModel<A>> {
    match out {
        TunnelResultModel::WriteToNetwork(d) => seq![
            ServerActionModel::SendTo(d, peer),
            ServerActionModel::Print("tun > encrypted > udp"@),
        ],
        TunnelResultModel::Error(e) => seq![ServerActionModel::PrintErr("encapsulate error: "@ + e)],
        _ => seq![],
    }
}

/// The server's actions after decapsulating a datagram from `from`.
pub open spec fn server_inbound_actions<A>(out: TunnelResultModel, from: A) -> Seq<ServerActionModel<A>> {
    match out {
        TunnelResultModel::WriteToTunnelV4(d, _) => seq![
            ServerActionModel::Print("udp > decrypted > tun"@),
            ServerActionModel::WriteToTun(d),
        ],
        TunnelResultModel::WriteToNetwork(d) => seq![
            ServerActionModel::<A>::Print("handshake response sent"@),
            ServerActionModel::SendTo(d, from),
        ],
        TunnelResultModel::Error(e) => seq![ServerActionModel::PrintErr("decapsulate error: "@ + e)],
        _ => seq![],
    }
}

fn prefixed(prefix: &str, text: String) -> (r: String)
    ensures
        r@ == prefix@ + text@,
{
    let mut r = String::from_str(prefix);
    r.append(text.as_str());
    r
}

/// The client's actions after it started the handshake (see
/// [`client_handshake_actions`]).
pub fn client_handshake_decision(out: TunnelResult) -> (actions: Vec<ClientAction>)
    ensures
        client_views(actions@) == client_handshake_actions(out@),
{
    let actions = match out {
        TunnelResult::WriteToNetwork(d) => vec![
            ClientAction::SendToServer(d),
            ClientAction::Print(String::from_str("handshake shoke")),
        ],
        _ => Vec::new(),
    };
    assert(client_views(actions@) =~= client_handshake_actions(out@));
    actions
}

/// The client's actions after encapsulating a packet (see
/// [`client_outbound_actions`]).
pub fn client_outbound_decision(out: TunnelResult) -> (actions: Vec<ClientAction>)
    ensures
        client_views(actions@) == client_outbound_actions(out@),
{
    let actions = match out {
        TunnelResult::WriteToNetwork(d) => vec![
            ClientAction::SendToServer(d),
            ClientAction::Print(String::from_str("tun intercepted, encrypted and sent to serv via udp")),
        ],
        TunnelResult::Error(e) => vec![ClientAction::PrintErr(prefixed("encapsulate err: ", e))],
        _ => Vec::new(),
    };
    assert(client_views(actions@) =~= client_outbound_actions(out@));
    actions
}

/// The client's actions after decapsulating a datagram (see
/// [`client_inbound_actions`]).
pub fn client_inbound_decision(out: TunnelResult) -> (actions: Vec<ClientAction>)
    ensures
        client_views(actions@) == client_inbound_actions(out@),
{
    let actions = match out {
        TunnelResult::WriteToTunnelV4(d, _) => vec![
            ClientAction::Print(String::from_str("wrote decrypted ip packet into tun")),
            ClientAction::WriteToTun(d),
        ],
        TunnelResult::WriteToNetwork(d) => vec![
            ClientAction::Print(String::from_str("handshake reply sent")),
            ClientAction::SendToServer(d),
        ],
        TunnelResult::Error(e) => vec![ClientAction::PrintErr(prefixed("decapsulate error: ", e))],
        _ => Vec::new(),
    };
    assert(client_views(actions@) =~= client_inbound_actions(out@));
    actions
}

/// The server's actions after encapsulating a packet for `peer` (see
/// [`server_outbound_actions`]).
pub fn server_outbound_decision<A: Copy>(out: TunnelResult, peer: A) -> (actions: Vec<ServerAction<A>>)
    ensures
        server_views(actions@) == server_outbound_actions(out@, peer),
{
    let actions = match out {
        TunnelResult::WriteToNetwork(d) => vec![
            ServerAction::SendTo(d, peer),
            ServerAction::Print(String::from_str("tun > encrypted > udp")),
        ],
        TunnelResult::Error(e) => vec![ServerAction::PrintErr(prefixed("encapsulate error: ", e))],
        _ => Vec::new(),
    };
    assert(server_views(actions@) =~= server_outbound_actions(out@, peer));
    actions
}

/// The server's actions after decapsulating a datagram from `from` (see
/// [`server_inbound_actions`]).
pub fn server_inbound_decision<A: Copy>(out: TunnelResult, from: A) -> (actions: Vec<ServerAction<A>>)
    ensures
        server_views(actions@) == server_inbound_actions(out@, from),
{
    let actions = match out {
        TunnelResult::WriteToTunnelV4(d, _) => vec![
            ServerAction::Print(String::from_str("udp > decrypted > tun")),
            ServerAction::WriteToTun(d),
        ],
        TunnelResult::WriteToNetwork(d) => vec![
            ServerAction::Print(String::from_str("handshake response sent")),
            ServerAction::SendTo(d, from),
        ],
        TunnelResult::Error(e) => vec![ServerAction::PrintErr(prefixed("decapsulate error: ", e))],
        _ => Vec::new(),
    };
    assert(server_views(actions@) =~= server_inbound_actions(out@, from));
    actions
}

/// The relays forward what the tunnel gives them: whatever the tunnel
/// returns, a datagram it hands out is sent to the peer (the server, the
/// peer the server last heard from, or the sender of the datagram just
/// decapsulated), a decrypted IPv4 packet is written to the TUN device, and
/// an error is reported on standard error; nothing else is sent or written.
pub proof fn lemma_relays_forward_tunnel_output<A>(out: TunnelResultModel, peer: A, from: A)
    ensures
        out matches TunnelResultModel::WriteToNetwork(d) ==> {
            &&& client_handshake_actions(out).contains(ClientActionModel::SendToServer(d))
            &&& client_outbound_actions(out).contains(ClientActionModel::SendToServer(d))
            &&& client_inbound_actions(out).contains(ClientActionModel::SendToServer(d))
            &&& server_outbound_actions(out, peer).contains(ServerActionModel::SendTo(d, peer))
            &&& server_inbound_actions(out, from).contains(ServerActionModel::SendTo(d, from))
        },
        out matches TunnelResultModel::WriteToTunnelV4(p, _) ==> {
            &&& client_inbound_actions(out).contains(ClientActionModel::WriteToTun(p))
            &&& server_inbound_actions(out, from).contains(ServerActionModel::<A>::WriteToTun(p))
        },
        out is Done ==> {
            &&& client_handshake_actions(out).len() == 0
            &&& client_outbound_actions(out).len() == 0
            &&& client_inbound_actions(out).len() == 0
            &&& server_outbound_actions(out, peer).len() == 0
            &&& server_inbound_actions(out, from).len() == 0
        },
        out is Error ==> {
            &&& client_outbound_actions(out).len() == 1 && client_outbound_actions(out)[0] is PrintErr
            &&& client_inbound_actions(out).len() == 1 && client_inbound_actions(out)[0] is PrintErr
            &&& server_outbound_actions(out, peer).len() == 1 && server_outbound_actions(
                out,
                peer,
            )[0] is PrintErr
            &&& server_inbound_actions(out, from).len() == 1 && server_inbound_actions(
                out,
                from,
            )[0] is PrintErr
        },
{
    match out {
        TunnelResultModel::WriteToNetwork(d) => {
            assert(client_handshake_actions(out)[0] == ClientActionModel::SendToServer(d));
            assert(client_outbound_actions(out)[0] == ClientActionModel::SendToServer(d));
            assert(client_inbound_actions(out)[1] == ClientActionModel::SendToServer(d));
            assert(server_outbound_actions(out, peer)[0] == ServerActionModel::SendTo(d, peer));
            assert(server_inbound_actions(out, from)[1] == ServerActionModel::SendTo(d, from));
        },
        TunnelResultModel::WriteToTunnelV4(p, _) => {
            assert(client_inbound_actions(out)[1] == ClientActionModel::WriteToTun(p));
            assert(server_inbound_actions(out, from)[1] == ServerActionModel::<A>::WriteToTun(p));
        },
        _ => {},
    }
}

/// What every result of decapsulating `datagram` is: an empty datagram
/// never gives a packet for the TUN device.
pub open spec fn decapsulation_outcome(out: TunnelResultModel, datagram: Seq<u8>) -> bool {
    datagram.len() == 0 ==> !(out is WriteToTunnelV4) && !(out is WriteToTunnelV6)
}

/// The client side of the VPN: one tunnel to one server.
pub struct ClientRelay {
    tunnel: Tunnel,
}

impl ClientRelay {
    /// The relay's tunnel.
    pub closed spec fn tunnel(&self) -> Tunnel {
        self.tunnel
    }

    /// A relay over `tunnel`.
    pub fn new(tunnel: Tunnel) -> (r: ClientRelay)
        ensures
            r.tunnel() == tunnel,
    {
        ClientRelay { tunnel }
    }

    /// Starts the handshake with the server: hands the tunnel an empty
    /// packet to encapsulate.
    pub fn start(&mut self) -> (actions: Vec<ClientAction>)
        ensures
            final(self).tunnel().same_setup(&old(self).tunnel()),
            final(self).tunnel().ops() == old(self).tunnel().ops().push(
                TunnelOp::Encapsulate(Seq::empty(), final(self).tunnel().last_result()),
            ),
            encapsulation_outcome(final(self).tunnel().last_result(), 0),
            client_views(actions@) == client_handshake_actions(final(self).tunnel().last_result()),
            final(self).tunnel().last_result() matches TunnelResultModel::WriteToNetwork(d)
                ==> client_views(actions@)[0] == ClientActionModel::SendToServer(d),
    {
        let empty: [u8; 0] = [];
        let packet = empty.as_slice();
        assert(packet@.len() == 0);
        assert(packet@ =~= Seq::<u8>::empty());
        let out = tunnel_encapsulate(&mut self.tunnel, packet);
        let ghost model = out@;
        let actions = client_handshake_decision(out);
        assert(client_views(actions@) == client_handshake_actions(model));
        actions
    }

    /// Handles a packet read from the TUN device: hands it to the tunnel to
    /// encapsulate.
    pub fn on_tun_packet(&mut self, packet: &[u8]) -> (actions: Vec<ClientAction>)
        requires
            packet@.len() <= MAX_PACKET_LEN,
        ensures
            final(self).tunnel().same_setup(&old(self).tunnel()),
            final(self).tunnel().ops() == old(self).tunnel().ops().push(
                TunnelOp::Encapsulate(packet@, final(self).tunnel().last_result()),
            ),
            encapsulation_outcome(final(self).tunnel().last_result(), packet@.len()),
            client_views(actions@) == client_outbound_actions(final(self).tunnel().last_result()),
            final(self).tunnel().last_result() matches TunnelResultModel::WriteToNetwork(d)
                ==> client_views(actions@)[0] == ClientActionModel::SendToServer(d),
    {
        let out = tunnel_encapsulate(&mut self.tunnel, packet);
        let ghost model = out@;
        let actions = client_outbound_decision(out);
        assert(client_views(actions@) == client_outbound_actions(model));
        actions
    }

    /// Handles a datagram received from the server: hands it to the tunnel
    /// to decapsulate.
    pub fn on_datagram(&mut self, datagram: &[u8]) -> (actions: Vec<ClientAction>)
        requires
            datagram@.len() <= WORK_LEN,
        ensures
            final(self).tunnel().same_setup(&old(self).tunnel()),
            final(self).tunnel().ops() == old(self).tunnel().ops().push(
                TunnelOp::Decapsulate(datagram@, final(self).tunnel().last_result()),
            ),
            decapsulation_outcome(final(self).tunnel().last_result(), datagram@),
            client_views(actions@) == client_inbound_actions(final(self).tunnel().last_result()),
            final(self).tunnel().last_result() matches TunnelResultModel::WriteToNetwork(d)
                ==> client_views(actions@) == seq![
                ClientActionModel::Print("handshake reply sent"@),
                ClientActionModel::SendToServer(d),
            ],
            final(self).tunnel().last_result() matches TunnelResultModel::WriteToTunnelV4(p, _)
                ==> client_views(actions@)[1] == ClientActionModel::WriteToTun(p),
    {
        let out = tunnel_decapsulate(&mut self.tunnel, datagram);
        let ghost model = out@;
        let actions = client_inbound_decision(out);
        assert(client_views(actions@) == client_inbound_actions(model));
        actions
    }
}

/// The server side of the VPN: one tunnel, and the address of the peer that
/// last sent a datagram.
pub struct ServerRelay<A> {
    tunnel: Tunnel,
    peer: Option<A>,
}

impl<A: Copy> ServerRelay<A> {
    /// The address that packets from the TUN device are sent to: that of the
    /// last datagram received, if any.
    pub closed spec fn current_peer(&self) -> Option<A> {
        self.peer
    }

    /// The relay's tunnel.
    pub closed spec fn tunnel(&self) -> Tunnel {
        self.tunnel
    }

    /// A relay over `tunnel` that has heard from no peer yet.
    pub fn new(tunnel: Tunnel) -> (r: ServerRelay<A>)
        ensures
            r.tunnel() == tunnel,
            r.current_peer() is None,
    {
        ServerRelay { tunnel, peer: None }
    }

    /// The address that packets from the TUN device are sent to.
    pub fn peer(&self) -> (p: Option<A>)
        ensures
            p == self.current_peer(),
    {
        self.peer
    }

    /// Handles a packet read from the TUN device. Before any peer is known
    /// the packet is dropped and the tunnel is left as it was; after, the
    /// packet is handed to the tunnel to encapsulate.
    pub fn on_tun_packet(&mut self, packet: &[u8]) -> (actions: Vec<ServerAction<A>>)
        requires
            packet@.len() <= MAX_PACKET_LEN,
        ensures
            final(self).current_peer() == old(self).current_peer(),
            old(self).current_peer() is None ==> actions@.len() == 0 && final(self).tunnel()
                == old(self).tunnel(),
            old(self).current_peer() matches Some(peer) ==> {
                &&& final(self).tunnel().same_setup(&old(self).tunnel())
                &&& final(self).tunnel().ops() == old(self).tunnel().ops().push(
                    TunnelOp::Encapsulate(packet@, final(self).tunnel().last_result()),
                )
                &&& encapsulation_outcome(final(self).tunnel().last_result(), packet@.len())
                &&& server_views(actions@) == server_outbound_actions(
                    final(self).tunnel().last_result(),
                    peer,
                )
                &&& final(self).tunnel().last_result() matches TunnelResultModel::WriteToNetwork(d)
                    ==> server_views(actions@)[0] == ServerActionModel::SendTo(d, peer)
            },
    {
        match self.peer {
            None => Vec::new(),
            Some(peer) => {
                let out = tunnel_encapsulate(&mut self.tunnel, packet);
                let ghost model = out@;
                let actions = server_outbound_decision(out, peer);
                assert(server_views(actions@) == server_outbound_actions(model, peer));
                actions
            },
        }
    }

    /// Handles a datagram received from `from`, which becomes the peer: hands
    /// it to the tunnel to decapsulate.
    pub fn on_datagram(&mut self, datagram: &[u8], from: A) -> (actions: Vec<ServerAction<A>>)
        requires
            datagram@.len() <= WORK_LEN,
        ensures
            final(self).current_peer() == Some(from),
            final(self).tunnel().same_setup(&old(self).tunnel()),
            final(self).tunnel().ops() == old(self).tunnel().ops().push(
                TunnelOp::Decapsulate(datagram@, final(self).tunnel().last_result()),
            ),
            decapsulation_outcome(final(self).tunnel().last_result(), datagram@),
            server_views(actions@) == server_inbound_actions(final(self).tunnel().last_result(), from),
            final(self).tunnel().last_result() matches TunnelResultModel::WriteToNetwork(d)
                ==> server_views(actions@) == seq![
                ServerActionModel::<A>::Print("handshake response sent"@),
                ServerActionModel::SendTo(d, from),
            ],
            final(self).tunnel().last_result() matches TunnelResultModel::WriteToTunnelV4(p, _)
                ==> server_views(actions@)[1] == ServerActionModel::<A>::WriteToTun(p),
    {
        self.peer = Some(from);
        let out = tunnel_decapsulate(&mut self.tunnel, datagram);
        let ghost model = out@;
        let actions = server_inbound_decision(out, from);
        assert(server_views(actions@) == server_inbound_actions(model, from));
        actions
    }
}

} // verus!
