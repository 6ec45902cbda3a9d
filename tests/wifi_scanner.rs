use cyper_core::{CommandOutput, Network, SecurityType, ToolError, WiFiScanner, NO_SIGNAL};

#[test]
fn test_security_type_levels() {
    assert_eq!(SecurityType::Open.security_level(), 0);
    assert_eq!(SecurityType::WEP.security_level(), 1);
    assert_eq!(SecurityType::WPA.security_level(), 2);
    assert_eq!(SecurityType::WPA2.security_level(), 3);
    assert_eq!(SecurityType::WPA3.security_level(), 5);
}

#[test]
fn test_security_type_from_str() {
    assert_eq!(SecurityType::from_str("WPA3"), SecurityType::WPA3);
    assert_eq!(SecurityType::from_str("WPA2"), SecurityType::WPA2);
    assert_eq!(SecurityType::from_str("WPA"), SecurityType::WPA);
    assert_eq!(SecurityType::from_str("WEP"), SecurityType::WEP);
    assert_eq!(SecurityType::from_str("Open"), SecurityType::Open);
}

#[test]
fn security_type_of_mixed_and_unknown_text() {
    assert_eq!(SecurityType::from_str("WPA2/WPA3 Personal"), SecurityType::WPA2WPA3);
    assert_eq!(SecurityType::from_str("NONE"), SecurityType::Unknown);
    assert_eq!(SecurityType::from_str(""), SecurityType::Unknown);
    assert_eq!(SecurityType::from_lowercase("WPA2"), SecurityType::Unknown);
    assert_eq!(SecurityType::from_lowercase("wpa2"), SecurityType::WPA2);
    assert_eq!(SecurityType::WPA2WPA3.security_level(), 4);
    assert_eq!(SecurityType::Unknown.security_level(), 0);
}

#[test]
fn scanner_defaults_and_duration() {
    let s = WiFiScanner::new("wlan0".to_string());
    assert_eq!(s.interface, "wlan0");
    assert_eq!(s.scan_duration_ms, 10000);
    let s = s.with_duration(2500);
    assert_eq!(s.scan_duration_ms, 2500);
}

#[test]
fn frequencies_map_to_channels() {
    let s = WiFiScanner::new("wlan0".to_string());
    assert_eq!(s.frequency_to_channel(2412), 1);
    assert_eq!(s.frequency_to_channel(2437), 6);
    assert_eq!(s.frequency_to_channel(2484), 14);
    assert_eq!(s.frequency_to_channel(5180), 36);
    assert_eq!(s.frequency_to_channel(5240), 48);
    assert_eq!(s.frequency_to_channel(5745), 0);
}

const IW_DUMP: &str = "BSS 00:11:22:33:44:55(on wlan0)\n\
\tfreq: 2437\n\
\tsignal: -45 dBm\n\
\tSSID: HomeNet\n\
\tRSN:\t * Version: 1\n\
\tWPS:\t * Version: 1.0\n\
BSS 66:77:88:99:aa:bb(on wlan0) -- associated\n\
\tfreq: 5180\n\
\tsignal: -70.00 dBm\n\
\tSSID: Cafe\n\
\tWEP: present\n";

#[test]
fn iw_listing_is_parsed() {
    let s = WiFiScanner::new("wlan0".to_string());
    let nets = s.parse_iw_scan_results(IW_DUMP);
    assert_eq!(nets.len(), 2);
    let a = &nets[0];
    assert_eq!(a.bssid, "00:11:22:33:44:55");
    assert_eq!(a.ssid, "HomeNet");
    assert_eq!(a.frequency, 2437);
    assert_eq!(a.channel, 6);
    assert_eq!(a.signal_strength, -45);
    assert_eq!(a.security_type, SecurityType::WPA2);
    assert!(a.wps_enabled);
    assert!(!a.hidden);
    let b = &nets[1];
    assert_eq!(b.bssid, "66:77:88:99:aa:bb");
    assert_eq!(b.ssid, "Cafe");
    assert_eq!(b.channel, 36);
    assert_eq!(b.signal_strength, NO_SIGNAL);
    assert_eq!(b.security_type, SecurityType::WEP);
    assert!(!b.wps_enabled);
}

#[test]
fn iw_listing_without_networks_is_empty() {
    let s = WiFiScanner::new("wlan0".to_string());
    assert!(s.parse_iw_scan_results("").is_empty());
    assert!(s.parse_iw_scan_results("\tSSID: Orphan\n").is_empty());
}

#[test]
fn iw_run_failure_is_reported() {
    let s = WiFiScanner::new("wlan0".to_string());
    let failed = CommandOutput {
        success: false,
        stdout: String::new(),
        stderr: "command failed: Operation not permitted (-1)".to_string(),
    };
    match s.networks_from_iw(&failed) {
        Err(ToolError::Failed { stderr }) => {
            assert_eq!(stderr, "command failed: Operation not permitted (-1)")
        }
        Ok(_) => panic!("a failed run gave networks"),
    }
    let ok = CommandOutput { success: true, stdout: IW_DUMP.to_string(), stderr: String::new() };
    assert_eq!(s.networks_from_iw(&ok).unwrap().len(), 2);
}

const AIRPORT: &str = "                            SSID BSSID             RSSI CHANNEL HT CC SECURITY (auth/unicast/group)\n\
                 HomeNet 00:11:22:33:44:55 -52  6       Y  US WPA2(PSK/AES/AES)\n\
                CafeWifi 66:77:88:99:aa:bb -80  11      N  -- NONE\n\
                  Office aa:bb:cc:dd:ee:ff -60  36      Y  US WPA2(PSK/AES/AES) WPA3(SAE/AES/AES)\n\
short line\n";

#[test]
fn airport_listing_is_parsed() {
    let s = WiFiScanner::new("en0".to_string());
    let nets = s.parse_airport_results(AIRPORT);
    assert_eq!(nets.len(), 3);
    assert_eq!(nets[0].ssid, "HomeNet");
    assert_eq!(nets[0].bssid, "00:11:22:33:44:55");
    assert_eq!(nets[0].signal_strength, -52);
    assert_eq!(nets[0].security_type, SecurityType::WPA2);
    assert_eq!(nets[0].channel, 0);
    assert_eq!(nets[1].security_type, SecurityType::Unknown);
    assert_eq!(nets[2].security_type, SecurityType::WPA2WPA3);
    let ok = CommandOutput { success: true, stdout: AIRPORT.to_string(), stderr: String::new() };
    assert_eq!(s.networks_from_airport(&ok).unwrap().len(), 3);
    let failed = CommandOutput { success: false, stdout: String::new(), stderr: String::new() };
    assert!(s.networks_from_airport(&failed).is_err());
}

fn network(security_type: SecurityType, wps_enabled: bool, hidden: bool) -> Network {
    Network {
        ssid: "Test".to_string(),
        bssid: "00:00:00:00:00:01".to_string(),
        channel: 1,
        frequency: 2412,
        signal_strength: -50,
        security_type,
        encryption: None,
        authentication: None,
        wps_enabled,
        wps_locked: false,
        hidden,
        clients: Vec::new(),
    }
}

#[test]
fn open_network_report() {
    let s = WiFiScanner::new("wlan0".to_string());
    let r = s.analyze_security(&network(SecurityType::Open, false, false));
    assert_eq!(r.crackability_score, 100);
    assert_eq!(r.estimated_crack_time, "Immediate (no encryption)");
    assert_eq!(r.vulnerabilities, vec!["No encryption - all traffic visible".to_string()]);
    assert_eq!(
        r.recommendations,
        vec![
            "Enable WPA3 or at minimum WPA2".to_string(),
            "Use a strong, unique password (16+ characters)".to_string(),
            "Consider upgrading to WPA3 if supported".to_string(),
        ]
    );
}

#[test]
fn wpa2_with_wps_report() {
    let s = WiFiScanner::new("wlan0".to_string());
    let r = s.analyze_security(&network(SecurityType::WPA2, true, true));
    assert!(r.wps_enabled);
    assert_eq!(r.crackability_score, 80);
    assert_eq!(r.estimated_crack_time, "Hours to days (via WPS)");
    assert_eq!(
        r.vulnerabilities,
        vec!["WPS enabled - vulnerable to brute force PIN attacks".to_string()]
    );
    assert_eq!(r.recommendations.len(), 4);
    assert_eq!(r.recommendations[0], "Disable WPS in router settings");
    assert_eq!(r.recommendations[1], "Hidden SSID provides minimal security - still detectable");
}

#[test]
fn wpa3_report_has_no_findings() {
    let s = WiFiScanner::new("wlan0".to_string());
    let r = s.analyze_security(&network(SecurityType::WPA3, false, false));
    assert_eq!(r.crackability_score, 10);
    assert_eq!(r.estimated_crack_time, "Years to impractical (current technology)");
    assert!(r.vulnerabilities.is_empty());
    assert!(r.recommendations.is_empty());
    let w = s.analyze_security(&network(SecurityType::WPA, true, false));
    assert_eq!(w.crackability_score, 70);
    assert_eq!(w.estimated_crack_time, "Hours (via WPS PIN)");
    assert_eq!(w.vulnerabilities.len(), 2);
}
