//! WireGuard tunnels (boringtun's `Tunn`) and the results of pushing
//! packets through them.
use vstd::prelude::*;
use std::sync::Arc;
use boringtun::noise::{Tunn, TunnResult};
use boringtun::noise::rate_limiter::RateLimiter;
use boringtun::x25519;
use crate::crypto::{PublicKey, StaticSecret};

verus! {

#[verifier::external_type_specification]
#[verifier::external_body]
pub struct ExTunn(Tunn);

#[verifier::external_type_specification]
#[verifier::external_body]
pub struct ExRateLimiter(RateLimiter);

/// How a tunnel is set up besides its keys.
pub struct TunnelSettings {
    /// The preshared key mixed into the handshake, if any.
    pub preshared_key: Option<[u8; 32]>,
    /// Seconds between keepalive packets, if any are sent.
    pub persistent_keepalive: Option<u16>,
    /// The tunnel's index among the local peer's tunnels.
    pub index: u32,
    /// A rate limiter for handshakes shared with other tunnels; without one
    /// the tunnel makes its own.
    pub rate_limiter: Option<Arc<RateLimiter>>,
}

/// Whether `s` are the settings of the VPN's tunnels.
pub open spec fn vpn_settings(s: TunnelSettings) -> bool {
    &&& s.preshared_key is None
    &&& s.persistent_keepalive == Some(25u16)
    &&& s.index == 0
    &&& s.rate_limiter is None
}

/// The settings of the VPN's tunnels: no preshared key, a keepalive every
/// 25 seconds, index 0, no shared rate limiter.
pub fn tunnel_settings() -> (s: TunnelSettings)
    ensures
        vpn_settings(s),
{
    TunnelSettings { preshared_key: None, persistent_keepalive: Some(25), index: 0, rate_limiter: None }
}

/// One call on a tunnel: what it was handed, and what it gave back.
pub enum TunnelOp {
    /// A packet from the TUN device to encapsulate, and the result.
    Encapsulate(Seq<u8>, TunnelResultModel),
    /// A datagram from the network to decapsulate, and the result.
    Decapsulate(Seq<u8>, TunnelResultModel),
}

/// The largest packet or datagram a tunnel is handed.
pub const MAX_PACKET_LEN: usize = 65535;

/// The length of the work buffer of every packet through a tunnel: room
/// for the largest packet and its encapsulation overhead.
pub const WORK_LEN: usize = MAX_PACKET_LEN + DATA_OVERHEAD;

/// The length of a handshake initiation (boringtun's `HANDSHAKE_INIT_SZ`).
pub const HANDSHAKE_INIT_LEN: usize = 148;

/// A WireGuard tunnel (boringtun's `Tunn`), with what it was made from and
/// what it has been handed. It is made only by [`create_tunnel`], and
/// driven only by `tunnel_encapsulate` and `tunnel_decapsulate`, each with
/// a work buffer of `WORK_LEN` bytes; so every packet that boringtun queues
/// (while no session exists) fits that buffer with its overhead.
pub struct Tunnel {
    tunn: Tunn,
    secret: Ghost<Seq<u8>>,
    peer: Ghost<Seq<u8>>,
    settings: Ghost<TunnelSettings>,
    ops: Ghost<Seq<TunnelOp>>,
}

impl Tunnel {
    /// Our secret key.
    pub closed spec fn secret(&self) -> Seq<u8> {
        self.secret@
    }

    /// The peer's public key.
    pub closed spec fn peer(&self) -> Seq<u8> {
        self.peer@
    }

    /// The settings the tunnel was made with.
    pub closed spec fn settings(&self) -> TunnelSettings {
        self.settings@
    }

    /// The calls made on the tunnel, in order: what it was handed each
    /// time, and what it gave back.
    pub closed spec fn ops(&self) -> Seq<TunnelOp> {
        self.ops@
    }

    /// What the tunnel gave back on its last call.
    pub open spec fn last_result(&self) -> TunnelResultModel {
        match self.ops().last() {
            TunnelOp::Encapsulate(_, r) => r,
            TunnelOp::Decapsulate(_, r) => r,
        }
    }

    /// Whether `self` has the keys and settings of `other`.
    pub open spec fn same_setup(&self, other: &Tunnel) -> bool {
        &&& self.secret() == other.secret()
        &&& self.peer() == other.peer()
        &&& self.settings() == other.settings()
    }
}

/// `Tunn::new` of boringtun. Trusted: the tunnel is made from these keys
/// and settings, which it records, and has been handed nothing yet; in the
/// version used the only failure comes from the handshake setup, which
/// never fails, so the result is always `Ok`. The tunnel's inner state
/// (which reads the clock) is not modelled.
#[verifier::external_body]
fn new_tunn(secret: [u8; 32], peer: [u8; 32], settings: TunnelSettings) -> (r: Result<Tunnel, &'static str>)
    ensures
        r is Ok,
        r matches Ok(t) ==> t.secret() == secret@,
        r matches Ok(t) ==> t.peer() == peer@,
        r matches Ok(t) ==> t.settings() == settings,
        r matches Ok(t) ==> t.ops() == Seq::<TunnelOp>::empty(),
{
    let recorded = Ghost(settings);
    match Tunn::new(
        x25519::StaticSecret::from(secret),
        x25519::PublicKey::from(peer),
        settings.preshared_key,
        settings.persistent_keepalive,
        settings.index,
        settings.rate_limiter,
    ) {
        Ok(tunn) => Ok(Tunnel { tunn, secret: Ghost(secret@), peer: Ghost(peer@), settings: recorded, ops: Ghost(Seq::empty()) }),
        Err(e) => Err(e),
    }
}

/// A tunnel between our secret key and the peer's public key, with the
/// settings of [`tunnel_settings`].
pub fn create_tunnel(secret: StaticSecret, peer_public: PublicKey) -> (r: Result<Tunnel, String>)
    ensures
        r matches Ok(t) && t.secret() == secret@ && t.peer() == peer_public@ && vpn_settings(
            t.settings(),
        ) && t.ops() == Seq::<TunnelOp>::empty(),
{
    match new_tunn(secret.to_bytes(), peer_public.to_bytes(), tunnel_settings()) {
        Ok(t) => Ok(t),
        Err(e) => Err(String::from_str(e)),
    }
}

/// What pushing a packet through a tunnel produced (boringtun's
/// `TunnResult`, with the data copied out of the work buffer).
#[derive(Debug, PartialEq, Eq)]
pub enum TunnelResult {
    /// Nothing to do.
    Done,
    /// The tunnel refused the packet; the text names the reason.
    Error(String),
    /// A datagram to send to the peer.
    WriteToNetwork(Vec<u8>),
    /// A decrypted IPv4 packet for the TUN device, and its source address.
    WriteToTunnelV4(Vec<u8>, [u8; 4]),
    /// A decrypted IPv6 packet for the TUN device, and its source address.
    WriteToTunnelV6(Vec<u8>, [u8; 16]),
}

pub enum TunnelResultModel {
    Done,
    Error(Seq<char>),
    WriteToNetwork(Seq<u8>),
    WriteToTunnelV4(Seq<u8>, Seq<u8>),
    WriteToTunnelV6(Seq<u8>, Seq<u8>),
}

impl View for TunnelResult {
    type V = TunnelResultModel;

    open spec fn view(&self) -> TunnelResultModel {
        match self {
            TunnelResult::Done => TunnelResultModel::Done,
            TunnelResult::Error(e) => TunnelResultModel::Error(e@),
            TunnelResult::WriteToNetwork(d) => TunnelResultModel::WriteToNetwork(d@),
            TunnelResult::WriteToTunnelV4(d, a) => TunnelResultModel::WriteToTunnelV4(d@, a@),
            TunnelResult::WriteToTunnelV6(d, a) => TunnelResultModel::WriteToTunnelV6(d@, a@),
        }
    }
}

/// The overhead that encapsulation adds to a packet (boringtun's
/// `DATA_OVERHEAD_SZ`).
pub const DATA_OVERHEAD: usize = 32;

/// What every result of encapsulating a packet of `packet_len` bytes is:
/// never a packet for the TUN device, and any datagram either the packet
/// sealed in an established session (`packet_len + 32` bytes) or a
/// handshake initiation (148 bytes).
pub open spec fn encapsulation_outcome(out: TunnelResultModel, packet_len: nat) -> bool {
    &&& !(out is WriteToTunnelV4)
    &&& !(out is WriteToTunnelV6)
    &&& out matches TunnelResultModel::WriteToNetwork(d) ==> (d.len() == packet_len + DATA_OVERHEAD
        || d.len() == HANDSHAKE_INIT_LEN)
}

/// `Tunn::encapsulate` of boringtun, into a work buffer of `WORK_LEN`
/// bytes. boringtun panics when an established session formats a packet
/// that, with its overhead, does not fit the buffer, which the precondition
/// rules out; without a session it queues the packet and formats a
/// handshake initiation (an error where the buffer is too small). Trusted:
/// the tunnel records that it was handed the packet and what it gave back,
/// and keeps its keys and settings; the result is as `encapsulation_outcome` says (the session path
/// writes the packet's length plus 32 bytes, the handshake path 148). Which
/// of the outcomes comes back depends on the tunnel's state and the clock.
#[verifier::external_body]
pub(crate) fn tunnel_encapsulate(tunnel: &mut Tunnel, packet: &[u8]) -> (r: TunnelResult)
    requires
        packet@.len() <= MAX_PACKET_LEN,
    ensures
        final(tunnel).same_setup(old(tunnel)),
        final(tunnel).ops() == old(tunnel).ops().push(TunnelOp::Encapsulate(packet@, r@)),
        encapsulation_outcome(r@, packet@.len()),
{
    let mut out = vec![0u8; WORK_LEN];
    let r = match tunnel.tunn.encapsulate(packet, &mut out) {
        TunnResult::Done => TunnelResult::Done,
        TunnResult::Err(e) => TunnelResult::Error(format!("{:?}", e)),
        TunnResult::WriteToNetwork(d) => TunnelResult::WriteToNetwork(d.to_vec()),
        TunnResult::WriteToTunnelV4(d, a) => TunnelResult::WriteToTunnelV4(d.to_vec(), a.octets()),
        TunnResult::WriteToTunnelV6(d, a) => TunnelResult::WriteToTunnelV6(d.to_vec(), a.octets()),
    };
    tunnel.ops = Ghost(tunnel.ops@.push(TunnelOp::Encapsulate(packet@, r@)));
    r
}

/// `Tunn::decapsulate` of boringtun (with no source address), into a work
/// buffer of `WORK_LEN` bytes. boringtun panics where a data packet's
/// ciphertext (the datagram less 16 bytes) exceeds the buffer, and where an
/// empty datagram flushes a queued packet that does not fit with its
/// overhead; the precondition rules out the first, and the second cannot
/// happen, as every queued packet came through `tunnel_encapsulate` with
/// this same buffer. Trusted: the tunnel records that it was handed the
/// datagram and what it gave back, and keeps its keys and settings; an empty datagram (which only
/// flushes the queue through `encapsulate`) never gives a packet for the
/// TUN device. Which outcome comes back depends on the tunnel's state and
/// the clock.
#[verifier::external_body]
pub(crate) fn tunnel_decapsulate(tunnel: &mut Tunnel, datagram: &[u8]) -> (r: TunnelResult)
    requires
        datagram@.len() <= WORK_LEN,
    ensures
        final(tunnel).same_setup(old(tunnel)),
        final(tunnel).ops() == old(tunnel).ops().push(TunnelOp::Decapsulate(datagram@, r@)),
        datagram@.len() == 0 ==> !(r is WriteToTunnelV4) && !(r is WriteToTunnelV6),
{
    let mut out = vec![0u8; WORK_LEN];
    let r = match tunnel.tunn.decapsulate(None, datagram, &mut out) {
        TunnResult::Done => TunnelResult::Done,
        TunnResult::Err(e) => TunnelResult::Error(format!("{:?}", e)),
        TunnResult::WriteToNetwork(d) => TunnelResult::WriteToNetwork(d.to_vec()),
        TunnResult::WriteToTunnelV4(d, a) => TunnelResult::WriteToTunnelV4(d.to_vec(), a.octets()),
        TunnResult::WriteToTunnelV6(d, a) => TunnelResult::WriteToTunnelV6(d.to_vec(), a.octets()),
    };
    tunnel.ops = Ghost(tunnel.ops@.push(TunnelOp::Decapsulate(datagram@, r@)));
    r
}

} // verus!
