use ironveil::crypto::{PublicKey, StaticSecret};
use ironveil::relay::{
    client_inbound_decision, client_outbound_decision, server_inbound_decision,
    server_outbound_decision, ClientAction, ClientRelay, ServerAction, ServerRelay,
};
use ironveil::relay::{CLIENT_BUFFER_LEN, SERVER_BUFFER_LEN};
use ironveil::tunnel::{
    create_tunnel, tunnel_settings, TunnelResult, DATA_OVERHEAD, HANDSHAKE_INIT_LEN, MAX_PACKET_LEN,
    WORK_LEN,
};

fn keys(seed: u8) -> (StaticSecret, PublicKey) {
    let secret = StaticSecret::from_bytes([seed; 32]);
    let public = PublicKey::from_secret(&secret);
    (secret, public)
}

fn ipv4_packet(src: [u8; 4], dst: [u8; 4], payload: &[u8]) -> Vec<u8> {
    let total = 20 + payload.len();
    let mut p = vec![0u8; total];
    p[0] = 0x45;
    p[2] = (total >> 8) as u8;
    p[3] = total as u8;
    p[8] = 64;
    p[9] = 17;
    p[12..16].copy_from_slice(&src);
    p[16..20].copy_from_slice(&dst);
    p[20..].copy_from_slice(payload);
    p
}

fn pair() -> (ClientRelay, ServerRelay<u32>) {
    let (client_secret, client_public) = keys(1);
    let (server_secret, server_public) = keys(2);
    let client = ClientRelay::new(create_tunnel(client_secret, server_public).unwrap());
    let server = ServerRelay::new(create_tunnel(server_secret, client_public).unwrap());
    (client, server)
}

#[test]
fn tunnel_settings_are_fixed() {
    let s = tunnel_settings();
    assert_eq!(s.preshared_key, None);
    assert_eq!(s.persistent_keepalive, Some(25));
    assert_eq!(s.index, 0);
    assert!(s.rate_limiter.is_none());
}

#[test]
fn create_tunnel_succeeds() {
    let (secret, _) = keys(3);
    let (_, peer) = keys(4);
    assert!(create_tunnel(secret, peer).is_ok());
}

#[test]
fn server_drops_tun_packets_before_any_peer() {
    let (_, mut server) = pair();
    assert_eq!(server.peer(), None);
    let actions = server.on_tun_packet(&ipv4_packet([10, 0, 0, 1], [10, 0, 0, 2], b"hi"));
    assert!(actions.is_empty());
    assert_eq!(server.peer(), None);
}

#[test]
fn client_start_sends_handshake_initiation() {
    let (mut client, _) = pair();
    let actions = client.start();
    assert_eq!(actions.len(), 2);
    match &actions[0] {
        ClientAction::SendToServer(d) => assert_eq!(d.len(), 148),
        other => panic!("unexpected {other:?}"),
    }
    assert_eq!(actions[1], ClientAction::Print("handshake shoke".to_string()));
}

#[test]
fn handshake_and_traffic_both_ways() {
    let (mut client, mut server) = pair();
    let init = match client.start().remove(0) {
        ClientAction::SendToServer(d) => d,
        other => panic!("unexpected {other:?}"),
    };
    let from = 0xC633_6407u32;
    let reply = server.on_datagram(&init, from);
    assert_eq!(server.peer(), Some(from));
    assert_eq!(reply.len(), 2);
    assert_eq!(reply[0], ServerAction::Print("handshake response sent".to_string()));
    let response = match &reply[1] {
        ServerAction::SendTo(d, to) => {
            assert_eq!(*to, from);
            assert_eq!(d.len(), 92);
            d.clone()
        },
        other => panic!("unexpected {other:?}"),
    };
    let _ = client.on_datagram(&response);

    let outbound = ipv4_packet([10, 0, 0, 2], [1, 1, 1, 1], b"hello through the tunnel");
    let sent = client.on_tun_packet(&outbound);
    assert_eq!(sent.len(), 2);
    assert_eq!(
        sent[1],
        ClientAction::Print("tun intercepted, encrypted and sent to serv via udp".to_string())
    );
    let datagram = match &sent[0] {
        ClientAction::SendToServer(d) => d.clone(),
        other => panic!("unexpected {other:?}"),
    };
    assert_ne!(datagram, outbound);
    let delivered = server.on_datagram(&datagram, from);
    assert_eq!(
        delivered,
        vec![
            ServerAction::Print("udp > decrypted > tun".to_string()),
            ServerAction::WriteToTun(outbound.clone()),
        ]
    );

    let inbound = ipv4_packet([1, 1, 1, 1], [10, 0, 0, 2], b"and back");
    let back = server.on_tun_packet(&inbound);
    assert_eq!(back.len(), 2);
    assert_eq!(back[1], ServerAction::Print("tun > encrypted > udp".to_string()));
    let datagram = match &back[0] {
        ServerAction::SendTo(d, to) => {
            assert_eq!(*to, from);
            d.clone()
        },
        other => panic!("unexpected {other:?}"),
    };
    assert_eq!(
        client.on_datagram(&datagram),
        vec![
            ClientAction::Print("wrote decrypted ip packet into tun".to_string()),
            ClientAction::WriteToTun(inbound),
        ]
    );
}

#[test]
fn garbage_datagram_is_reported() {
    let (mut client, mut server) = pair();
    let actions = client.on_datagram(&[1, 2, 3]);
    assert_eq!(actions.len(), 1);
    match &actions[0] {
        ClientAction::PrintErr(m) => assert!(m.starts_with("decapsulate error: "), "{m}"),
        other => panic!("unexpected {other:?}"),
    }
    let actions = server.on_datagram(&[9; 10], 5);
    assert_eq!(actions.len(), 1);
    match &actions[0] {
        ServerAction::PrintErr(m) => assert!(m.starts_with("decapsulate error: "), "{m}"),
        other => panic!("unexpected {other:?}"),
    }
}

#[test]
fn client_decisions_for_each_result() {
    assert_eq!(
        client_outbound_decision(TunnelResult::Error("InvalidMac".to_string())),
        vec![ClientAction::PrintErr("encapsulate err: InvalidMac".to_string())]
    );
    assert_eq!(client_outbound_decision(TunnelResult::Done), vec![]);
    assert_eq!(
        client_outbound_decision(TunnelResult::WriteToTunnelV4(vec![1], [1, 2, 3, 4])),
        vec![]
    );
    assert_eq!(
        client_inbound_decision(TunnelResult::WriteToNetwork(vec![5, 6])),
        vec![
            ClientAction::Print("handshake reply sent".to_string()),
            ClientAction::SendToServer(vec![5, 6]),
        ]
    );
    assert_eq!(
        client_inbound_decision(TunnelResult::WriteToTunnelV6(vec![7], [0; 16])),
        vec![]
    );
    assert_eq!(
        client_inbound_decision(TunnelResult::Error("WrongKey".to_string())),
        vec![ClientAction::PrintErr("decapsulate error: WrongKey".to_string())]
    );
}

#[test]
fn server_decisions_for_each_result() {
    assert_eq!(
        server_outbound_decision(TunnelResult::WriteToNetwork(vec![1, 2]), 9u32),
        vec![
            ServerAction::SendTo(vec![1, 2], 9u32),
            ServerAction::Print("tun > encrypted > udp".to_string()),
        ]
    );
    assert_eq!(
        server_outbound_decision(TunnelResult::Error("NoCurrentSession".to_string()), 9u32),
        vec![ServerAction::PrintErr("encapsulate error: NoCurrentSession".to_string())]
    );
    assert_eq!(
        server_inbound_decision(TunnelResult::WriteToTunnelV4(vec![4, 5], [10, 0, 0, 2]), 3u32),
        vec![
            ServerAction::Print("udp > decrypted > tun".to_string()),
            ServerAction::WriteToTun(vec![4, 5]),
        ]
    );
    assert_eq!(server_inbound_decision(TunnelResult::Done, 3u32), vec![]);
}

#[test]
fn work_buffers_hold_the_largest_packet_with_overhead() {
    assert_eq!(DATA_OVERHEAD, 32);
    assert_eq!(HANDSHAKE_INIT_LEN, 148);
    assert_eq!(MAX_PACKET_LEN, 65535);
    assert_eq!(WORK_LEN, MAX_PACKET_LEN + 32);
    assert!(CLIENT_BUFFER_LEN <= MAX_PACKET_LEN);
    assert!(SERVER_BUFFER_LEN <= MAX_PACKET_LEN);
}

#[test]
fn largest_packets_pass_both_ways() {
    let (mut client, mut server) = pair();
    let init = match client.start().remove(0) {
        ClientAction::SendToServer(d) => d,
        other => panic!("unexpected {other:?}"),
    };
    let reply = server.on_datagram(&init, 1u32);
    let response = match &reply[1] {
        ServerAction::SendTo(d, _) => d.clone(),
        other => panic!("unexpected {other:?}"),
    };
    let _ = client.on_datagram(&response);
    let big = ipv4_packet([10, 0, 0, 2], [1, 1, 1, 1], &vec![0xAB; CLIENT_BUFFER_LEN - 20]);
    assert_eq!(big.len(), CLIENT_BUFFER_LEN);
    let sent = client.on_tun_packet(&big);
    let datagram = match &sent[0] {
        ClientAction::SendToServer(d) => d.clone(),
        other => panic!("unexpected {other:?}"),
    };
    assert_eq!(datagram.len(), CLIENT_BUFFER_LEN + DATA_OVERHEAD);
    let delivered = server.on_datagram(&datagram, 1u32);
    assert_eq!(delivered[1], ServerAction::WriteToTun(big));
}

#[test]
fn packets_queued_before_the_handshake_are_flushed_by_an_empty_datagram() {
    let (mut client, _) = pair();
    let first = client.on_tun_packet(&ipv4_packet([10, 0, 0, 2], [1, 1, 1, 1], &vec![1; CLIENT_BUFFER_LEN - 20]));
    // no session yet: the packet is queued and a handshake initiation goes out
    match &first[0] {
        ClientAction::SendToServer(d) => assert_eq!(d.len(), 148),
        other => panic!("unexpected {other:?}"),
    }
    // an empty datagram asks the tunnel for its queued packets
    let flushed = client.on_datagram(&[]);
    assert!(flushed.iter().all(|a| !matches!(a, ClientAction::WriteToTun(_))));
}

#[test]
fn largest_server_packets_are_sealed_with_the_overhead() {
    let (mut client, mut server) = pair();
    let init = match client.start().remove(0) {
        ClientAction::SendToServer(d) => d,
        other => panic!("unexpected {other:?}"),
    };
    let reply = server.on_datagram(&init, 7u32);
    let response = match &reply[1] {
        ServerAction::SendTo(d, _) => d.clone(),
        other => panic!("unexpected {other:?}"),
    };
    let _ = client.on_datagram(&response);
    // the server's session becomes current once the client's first data arrives
    let first = client.on_tun_packet(&ipv4_packet([10, 0, 0, 2], [1, 1, 1, 1], b"hi"));
    let datagram = match &first[0] {
        ClientAction::SendToServer(d) => d.clone(),
        other => panic!("unexpected {other:?}"),
    };
    let _ = server.on_datagram(&datagram, 7u32);
    let big = vec![0x45u8; SERVER_BUFFER_LEN];
    let sent = server.on_tun_packet(&big);
    match &sent[0] {
        ServerAction::SendTo(d, to) => {
            assert_eq!(d.len(), SERVER_BUFFER_LEN + DATA_OVERHEAD);
            assert_eq!(*to, 7u32);
        },
        other => panic!("unexpected {other:?}"),
    }
}

#[test]
fn tunnels_from_mismatched_keys_do_not_shake_hands() {
    let (client_secret, _) = keys(1);
    let (server_secret, server_public) = keys(2);
    let (_, stranger_public) = keys(3);
    let mut client = ClientRelay::new(create_tunnel(client_secret, server_public).unwrap());
    let mut server: ServerRelay<u32> =
        ServerRelay::new(create_tunnel(server_secret, stranger_public).unwrap());
    let init = match client.start().remove(0) {
        ClientAction::SendToServer(d) => d,
        other => panic!("unexpected {other:?}"),
    };
    let reply = server.on_datagram(&init, 1u32);
    assert!(reply.iter().all(|a| !matches!(a, ServerAction::SendTo(_, _))));
}
