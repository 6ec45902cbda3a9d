use cyper_core::{
    lookup_service, PortScanner, PortState, Protocol, ScanError, TargetAddr, UdpOutcome,
};

fn localhost() -> TargetAddr {
    TargetAddr::V4(127, 0, 0, 1)
}

#[test]
fn test_port_range() {
    let scanner = PortScanner::new(localhost(), 1, 100);
    assert_eq!(scanner.ports.start, 1);
    assert_eq!(scanner.ports.end, 100);
}

#[test]
fn test_service_detection() {
    let scanner = PortScanner::new(localhost(), 1, 100);
    assert_eq!(scanner.detect_service(80), Some("HTTP".to_string()));
    assert_eq!(scanner.detect_service(443), Some("HTTPS".to_string()));
    assert_eq!(scanner.detect_service(22), Some("SSH".to_string()));
    assert_eq!(scanner.detect_service(9999), None);
}

#[test]
fn catalog_covers_well_known_ports() {
    assert_eq!(lookup_service(20), Some("FTP-DATA".to_string()));
    assert_eq!(lookup_service(3389), Some("RDP".to_string()));
    assert_eq!(lookup_service(27017), Some("MongoDB".to_string()));
    assert_eq!(lookup_service(0), None);
    assert_eq!(lookup_service(65535), None);
}

#[test]
fn test_scan_info() {
    let scanner = PortScanner::new(localhost(), 1, 1000);
    let info = scanner.get_scan_info();
    assert_eq!(info.total_ports, 1000);
    assert_eq!(info.port_range, "1-1000");
}

#[test]
fn scan_info_estimate_and_defaults() {
    let scanner = PortScanner::new(localhost(), 1, 1000);
    assert_eq!(scanner.timeout_ms, 1000);
    assert_eq!(scanner.max_parallel, 100);
    let info = scanner.get_scan_info();
    assert_eq!(info.estimated_duration_seconds, 10);
    assert_eq!(info.max_parallel, 100);
    assert_eq!(info.target, localhost());
    let single = PortScanner::new(localhost(), 65535, 65535).get_scan_info();
    assert_eq!(single.total_ports, 1);
    assert_eq!(single.port_range, "65535-65535");
    assert_eq!(single.estimated_duration_seconds, 0);
}

#[test]
fn estimate_grows_with_ports_and_timeout_and_shrinks_with_parallelism() {
    let base = PortScanner::new(localhost(), 1, 1000).get_scan_info();
    let more_ports = PortScanner::new(localhost(), 1, 5000).get_scan_info();
    let slower = PortScanner::new(localhost(), 1, 1000).with_timeout(3000).get_scan_info();
    let wider = PortScanner::new(localhost(), 1, 1000).with_parallelism(500).get_scan_info();
    assert_eq!(more_ports.estimated_duration_seconds, 50);
    assert_eq!(slower.estimated_duration_seconds, 30);
    assert_eq!(wider.estimated_duration_seconds, 2);
    assert!(base.estimated_duration_seconds <= more_ports.estimated_duration_seconds);
    assert!(base.estimated_duration_seconds <= slower.estimated_duration_seconds);
    assert!(base.estimated_duration_seconds >= wider.estimated_duration_seconds);
}

#[test]
fn scan_returns_one_result_per_port_in_order() {
    let scanner = PortScanner::new(localhost(), 20, 25);
    let connected = vec![false, true, true, false, false, true];
    let results = scanner.scan(&connected).unwrap();
    assert_eq!(results.len(), 6);
    for (i, r) in results.iter().enumerate() {
        assert_eq!(r.port, 20 + i as u16);
        assert_eq!(r.protocol, Protocol::TCP);
        assert_eq!(r.banner, None);
    }
    assert_eq!(results[0].state, PortState::Closed);
    assert_eq!(results[1].state, PortState::Open);
    assert_eq!(results[1].service, Some("FTP".to_string()));
    assert_eq!(results[2].service, Some("SSH".to_string()));
    assert_eq!(results[3].service, None);
    assert_eq!(results[5].service, Some("SMTP".to_string()));
}

#[test]
fn scan_of_full_port_space() {
    let scanner = PortScanner::new(localhost(), 0, 65535);
    let connected = vec![false; 65536];
    let results = scanner.scan(&connected).unwrap();
    assert_eq!(results.len(), 65536);
    assert_eq!(results[0].port, 0);
    assert_eq!(results[65535].port, 65535);
    assert!(results.iter().all(|r| r.state == PortState::Closed));
}

#[test]
fn inverted_range_is_a_config_error() {
    let scanner = PortScanner::new(localhost(), 100, 1);
    assert_eq!(
        scanner.batches().unwrap_err(),
        ScanError::Config { start: 100, end: 1 }
    );
    assert_eq!(
        scanner.scan(&Vec::new()).unwrap_err(),
        ScanError::Config { start: 100, end: 1 }
    );
}

#[test]
fn batches_never_exceed_parallelism() {
    let scanner = PortScanner::new(localhost(), 1, 250).with_parallelism(100);
    let batches = scanner.batches().unwrap();
    let sizes: Vec<usize> = batches.iter().map(|b| b.len()).collect();
    assert_eq!(sizes, vec![100, 100, 50]);
    let all: Vec<u16> = batches.concat();
    assert_eq!(all, (1..=250).collect::<Vec<u16>>());
    let single = PortScanner::new(localhost(), 7, 7).batches().unwrap();
    assert_eq!(single, vec![vec![7]]);
    let full = PortScanner::new(localhost(), 0, 65535).batches().unwrap();
    assert_eq!(full.len(), 656);
    assert!(full.iter().all(|b| b.len() <= 100));
    assert_eq!(full[655], (65500..=65535).collect::<Vec<u16>>());
}

#[test]
fn tcp_open_port_gets_catalog_service() {
    let scanner = PortScanner::new(localhost(), 1, 100);
    let ssh = scanner.scan_tcp_port(22, true);
    assert_eq!(ssh.state, PortState::Open);
    assert_eq!(ssh.service, Some("SSH".to_string()));
    let other = scanner.scan_tcp_port(40000, true);
    assert_eq!(other.state, PortState::Open);
    assert_eq!(other.service, None);
}

#[test]
fn tcp_failed_connect_is_closed() {
    let scanner = PortScanner::new(localhost(), 1, 100);
    let r = scanner.scan_tcp_port(22, false);
    assert_eq!(r.state, PortState::Closed);
    assert_eq!(r.service, None);
    assert_eq!(r.port, 22);
}

#[test]
fn udp_outcomes_are_classified() {
    let scanner = PortScanner::new(localhost(), 1, 100);
    let silent = scanner.scan_udp_port(53, UdpOutcome::NoReply).unwrap();
    assert_eq!(silent.state, PortState::OpenFiltered);
    assert_eq!(silent.protocol, Protocol::UDP);
    assert_eq!(silent.service, Some("DNS".to_string()));
    let reply = scanner.scan_udp_port(53, UdpOutcome::Reply).unwrap();
    assert_eq!(reply.state, PortState::Open);
    let refused = scanner.scan_udp_port(9, UdpOutcome::ReceiveError).unwrap();
    assert_eq!(refused.state, PortState::Closed);
    assert_eq!(refused.service, None);
    assert_eq!(
        scanner.scan_udp_port(9, UdpOutcome::BindFailed).unwrap_err(),
        ScanError::Infrastructure
    );
    assert_eq!(
        scanner.scan_udp_port(9, UdpOutcome::SendFailed).unwrap_err(),
        ScanError::Infrastructure
    );
}

#[test]
fn repeated_scans_agree() {
    let scanner = PortScanner::new(localhost(), 78, 82);
    let connected = vec![true, false, true, false, true];
    let a = scanner.scan(&connected).unwrap();
    let b = scanner.scan(&connected).unwrap();
    assert_eq!(a.len(), b.len());
    for (x, y) in a.iter().zip(b.iter()) {
        assert_eq!(x.port, y.port);
        assert_eq!(x.state, y.state);
        assert_eq!(x.service, y.service);
    }
}

#[test]
fn banner_is_decoded_permissively() {
    let scanner = PortScanner::new(localhost(), 1, 100);
    let text = b"SSH-2.0-OpenSSH_9.6\r\n".to_vec();
    assert_eq!(
        scanner.grab_banner(Some(text)),
        Some("SSH-2.0-OpenSSH_9.6\r\n".to_string())
    );
    assert_eq!(
        scanner.grab_banner(Some(vec![0x66, 0xff, 0x6f])),
        Some("f\u{FFFD}o".to_string())
    );
    assert_eq!(scanner.grab_banner(Some(Vec::new())), None);
    assert_eq!(scanner.grab_banner(None), None);
}
