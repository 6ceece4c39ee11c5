use ironveil::config::{client_config_text, Interface, DEFAULT_LISTEN_PORT};
use ironveil::probe::packet_report;

#[test]
fn listen_port_defaults_to_51820() {
    let mut i = Interface { private_key: String::new(), address: "10.0.0.1".to_string(), port: None };
    assert_eq!(i.listen_port(), 51820);
    assert_eq!(DEFAULT_LISTEN_PORT, 51820);
    i.port = Some(4000);
    assert_eq!(i.listen_port(), 4000);
}

#[test]
fn client_config_text_fills_in_the_keys() {
    let text = client_config_text("SECRET", "SERVERPUB", "PSK", "198.51.100.7:51820");
    let expected = "[interface]\n    private_key = \"SECRET\"\n    address = \"10.0.0.2\"\n\n    [peer]\n    public_key = \"SERVERPUB\"\n    preshared_key = \"PSK\"\n    endpoint = \"198.51.100.7:51820\"\n    allowed_ips = \"0.0.0.0/0\"\n\n    [routing]\n    gateway = \"192.168.1.1\" \n    tun_name = \"(PLACEHOLDER)\"\n    dns_server = \"1.1.1.1\"\n    real_interface = \"(PLACEHOLDER)\"";
    assert_eq!(text, expected);
}

#[test]
fn client_config_text_with_empty_placeholders() {
    let text = client_config_text("K", "", "", "");
    assert!(text.starts_with("[interface]\n    private_key = \"K\""));
    assert!(text.contains("    public_key = \"\"\n"));
    assert!(text.ends_with("real_interface = \"(PLACEHOLDER)\""));
}

#[test]
fn packet_report_of_an_ipv4_header() {
    let mut buf = [0u8; 1504];
    buf[0] = 0x45;
    buf[9] = 17;
    buf[12..16].copy_from_slice(&[10, 0, 0, 2]);
    buf[16..20].copy_from_slice(&[1, 1, 1, 1]);
    let lines = packet_report(&buf, 60);
    assert_eq!(
        lines,
        vec![
            "got packet: 60 bytes".to_string(),
            "  version/ihl: 01000101".to_string(),
            "  protocol: 17".to_string(),
            "  src: 10.0.0.2".to_string(),
            "  dst: 1.1.1.1".to_string(),
        ]
    );
}

#[test]
fn packet_report_of_extreme_bytes() {
    let mut buf = [0u8; 20];
    buf[0] = 0xFF;
    buf[9] = 255;
    buf[12..16].copy_from_slice(&[255, 255, 255, 255]);
    let lines = packet_report(&buf, 0);
    assert_eq!(lines[0], "got packet: 0 bytes");
    assert_eq!(lines[1], "  version/ihl: 11111111");
    assert_eq!(lines[2], "  protocol: 255");
    assert_eq!(lines[3], "  src: 255.255.255.255");
    assert_eq!(lines[4], "  dst: 0.0.0.0");
}
