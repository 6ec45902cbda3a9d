//! Wi-Fi survey: security classification of networks, parsing of the
//! scan listings of `iw` and `airport`, and the security report.

use crate::interface_manager::{CommandOutput, ToolError};
use crate::text::{
    before_char, contains, has_infix, i16_of, lines, lines_of, lower_of, parse_i16, parse_u32,
    prefix_before, split_whitespace, starts_with, strip_prefix, to_lowercase, trim, trim_of,
    u32_of, views_of, words_of,
};
use vstd::prelude::*;

verus! {

/// Security scheme that a network advertises.
#[derive(Clone, Copy, Debug, PartialEq, Eq, Structural)]
pub enum SecurityType {
    Open,
    WEP,
    WPA,
    WPA2,
    WPA3,
    /// WPA2 and WPA3 side by side.
    WPA2WPA3,
    Unknown,
}

/// The scheme named by a lower-case description.
pub open spec fn security_of_lower(l: Seq<char>) -> SecurityType {
    if has_infix(l, "wpa3"@) && has_infix(l, "wpa2"@) {
        SecurityType::WPA2WPA3
    } else if has_infix(l, "wpa3"@) {
        SecurityType::WPA3
    } else if has_infix(l, "wpa2"@) {
        SecurityType::WPA2
    } else if has_infix(l, "wpa"@) {
        SecurityType::WPA
    } else if has_infix(l, "wep"@) {
        SecurityType::WEP
    } else if has_infix(l, "open"@) {
        SecurityType::Open
    } else {
        SecurityType::Unknown
    }
}

/// Strength of a scheme, from 0 (none) to 5.
pub open spec fn level_of(t: SecurityType) -> u8 {
    match t {
        SecurityType::Open => 0,
        SecurityType::WEP => 1,
        SecurityType::WPA => 2,
        SecurityType::WPA2 => 3,
        SecurityType::WPA2WPA3 => 4,
        SecurityType::WPA3 => 5,
        SecurityType::Unknown => 0,
    }
}

impl SecurityType {
    /// Classifies a description that is already in lower case.
    pub fn from_lowercase(s: &str) -> (r: SecurityType)
        ensures
            r == security_of_lower(s@),
    {
        let wpa3 = contains(s, "wpa3");
        let wpa2 = contains(s, "wpa2");
        if wpa3 && wpa2 {
            SecurityType::WPA2WPA3
        } else if wpa3 {
            SecurityType::WPA3
        } else if wpa2 {
            SecurityType::WPA2
        } else if contains(s, "wpa") {
            SecurityType::WPA
        } else if contains(s, "wep") {
            SecurityType::WEP
        } else if contains(s, "open") {
            SecurityType::Open
        } else {
            SecurityType::Unknown
        }
    }

    /// Classifies a free-form description, ignoring case.
    pub fn from_str(s: &str) -> (r: SecurityType)
        ensures
            r == security_of_lower(lower_of(s@)),
    {
        let lowered = to_lowercase(s);
        SecurityType::from_lowercase(lowered.as_str())
    }

    pub fn security_level(&self) -> (r: u8)
        ensures
            r == level_of(*self),
    {
        match self {
            SecurityType::Open => 0,
            SecurityType::WEP => 1,
            SecurityType::WPA => 2,
            SecurityType::WPA2 => 3,
            SecurityType::WPA2WPA3 => 4,
            SecurityType::WPA3 => 5,
            SecurityType::Unknown => 0,
        }
    }
}

/// Channel number of a centre frequency in MHz; 0 for one not in the table.
pub open spec fn channel_of(f: u32) -> u8 {
    if f == 2412 { 1 }
    else if f == 2417 { 2 }
    else if f == 2422 { 3 }
    else if f == 2427 { 4 }
    else if f == 2432 { 5 }
    else if f == 2437 { 6 }
    else if f == 2442 { 7 }
    else if f == 2447 { 8 }
    else if f == 2452 { 9 }
    else if f == 2457 { 10 }
    else if f == 2462 { 11 }
    else if f == 2467 { 12 }
    else if f == 2472 { 13 }
    else if f == 2484 { 14 }
    else if f == 5180 { 36 }
    else if f == 5200 { 40 }
    else if f == 5220 { 44 }
    else if f == 5240 { 48 }
    else { 0 }
}

/// A network seen in a scan.
#[derive(Clone, Debug)]
pub struct Network {
    pub ssid: String,
    pub bssid: String,
    pub channel: u8,
    pub frequency: u32,
    pub signal_strength: i16,
    pub security_type: SecurityType,
    pub encryption: Option<String>,
    pub authentication: Option<String>,
    pub wps_enabled: bool,
    pub wps_locked: bool,
    pub hidden: bool,
    pub clients: Vec<String>,
}

/// Mathematical view of a [`Network`], its texts as character sequences.
pub struct NetworkView {
    pub ssid: Seq<char>,
    pub bssid: Seq<char>,
    pub channel: u8,
    pub frequency: u32,
    pub signal_strength: i16,
    pub security_type: SecurityType,
    pub encryption: Option<Seq<char>>,
    pub authentication: Option<Seq<char>>,
    pub wps_enabled: bool,
    pub wps_locked: bool,
    pub hidden: bool,
    pub clients: Seq<Seq<char>>,
}

impl View for Network {
    type V = NetworkView;

    open spec fn view(&self) -> NetworkView {
        NetworkView {
            ssid: self.ssid@,
            bssid: self.bssid@,
            channel: self.channel,
            frequency: self.frequency,
            signal_strength: self.signal_strength,
            security_type: self.security_type,
            encryption: self.encryption.deep_view(),
            authentication: self.authentication.deep_view(),
            wps_enabled: self.wps_enabled,
            wps_locked: self.wps_locked,
            hidden: self.hidden,
            clients: self.clients.deep_view(),
        }
    }
}

/// Views of a sequence of networks.
pub open spec fn network_views(v: Seq<Network>) -> Seq<NetworkView> {
    v.map_values(|n: Network| n@)
}

/// Signal strength recorded when none could be read.
pub const NO_SIGNAL: i16 = -100;

/// A network known by its BSSID only, every other field at its default.
pub open spec fn fresh_network(bssid: Seq<char>) -> NetworkView {
    NetworkView {
        ssid: Seq::empty(),
        bssid,
        channel: 0,
        frequency: 0,
        signal_strength: NO_SIGNAL,
        security_type: SecurityType::Unknown,
        encryption: None,
        authentication: None,
        wps_enabled: false,
        wps_locked: false,
        hidden: false,
        clients: Seq::empty(),
    }
}

fn new_network(bssid: &str) -> (r: Network)
    ensures
        r@ == fresh_network(bssid@),
{
    let r = Network {
        ssid: String::new(),
        bssid: String::from_str(bssid),
        channel: 0,
        frequency: 0,
        signal_strength: NO_SIGNAL,
        security_type: SecurityType::Unknown,
        encryption: None,
        authentication: None,
        wps_enabled: false,
        wps_locked: false,
        hidden: false,
        clients: Vec::new(),
    };
    assert(r@.clients =~= Seq::<Seq<char>>::empty());
    r
}

/// How one trimmed attribute line of an `iw` listing changes the network
/// it belongs to.
pub open spec fn iw_attribute(n: NetworkView, line: Seq<char>) -> NetworkView {
    if "SSID: "@.is_prefix_of(line) {
        let ssid = line.skip(6);
        NetworkView { ssid: ssid, hidden: ssid.len() == 0, ..n }
    } else if "freq: "@.is_prefix_of(line) {
        match u32_of(line.skip(6)) {
            Some(f) => NetworkView { frequency: f, channel: channel_of(f), ..n },
            None => n,
        }
    } else if "signal: "@.is_prefix_of(line) {
        let w = words_of(line.skip(8));
        if w.len() > 0 {
            let level = match i16_of(w[0]) {
                Some(x) => x,
                None => NO_SIGNAL,
            };
            NetworkView { signal_strength: level, ..n }
        } else {
            n
        }
    } else if has_infix(line, "RSN:"@) || has_infix(line, "WPA:"@) {
        let t = if has_infix(line, "WPA3"@) {
            SecurityType::WPA3
        } else if has_infix(line, "WPA2"@) || has_infix(line, "RSN"@) {
            SecurityType::WPA2
        } else {
            SecurityType::WPA
        };
        NetworkView { security_type: t, ..n }
    } else if has_infix(line, "WEP"@) {
        NetworkView { security_type: SecurityType::WEP, ..n }
    } else if has_infix(line, "WPS:"@) {
        NetworkView { wps_enabled: true, ..n }
    } else {
        n
    }
}

/// Networks finished so far, and the one being read, after some lines of an
/// `iw` listing.
pub open spec fn iw_state(ls: Seq<Seq<char>>) -> (Seq<NetworkView>, Option<NetworkView>)
    decreases ls.len(),
{
    if ls.len() == 0 {
        (Seq::empty(), None)
    } else {
        let prev = iw_state(ls.drop_last());
        let line = trim_of(ls.last());
        if "BSS "@.is_prefix_of(line) {
            let done = match prev.1 {
                Some(n) => prev.0.push(n),
                None => prev.0,
            };
            (done, Some(fresh_network(trim_of(prefix_before(line.skip(4), '(')))))
        } else {
            match prev.1 {
                Some(n) => (prev.0, Some(iw_attribute(n, line))),
                None => prev,
            }
        }
    }
}

/// The networks of an `iw` scan listing, given as lines.
pub open spec fn iw_networks(ls: Seq<Seq<char>>) -> Seq<NetworkView> {
    let st = iw_state(ls);
    match st.1 {
        Some(n) => st.0.push(n),
        None => st.0,
    }
}

/// Words joined by single spaces.
pub open spec fn joined(ws: Seq<Seq<char>>) -> Seq<char>
    decreases ws.len(),
{
    if ws.len() == 0 {
        Seq::empty()
    } else if ws.len() == 1 {
        ws[0]
    } else {
        joined(ws.drop_last()) + seq![' '] + ws.last()
    }
}

/// The network of one `airport -s` row, split into at least three words:
/// SSID, BSSID, signal, and from the seventh word on, the security text.
pub open spec fn airport_network(w: Seq<Seq<char>>) -> NetworkView {
    let security = if w.len() > 6 { joined(w.skip(6)) } else { Seq::empty() };
    NetworkView {
        ssid: w[0],
        signal_strength: match i16_of(w[2]) {
            Some(x) => x,
            None => NO_SIGNAL,
        },
        security_type: security_of_lower(lower_of(security)),
        ..fresh_network(w[1])
    }
}

/// The networks of the rows of an `airport -s` listing, its header left out;
/// rows of fewer than three words are skipped.
pub open spec fn airport_rows(ls: Seq<Seq<char>>) -> Seq<NetworkView>
    decreases ls.len(),
{
    if ls.len() == 0 {
        Seq::empty()
    } else {
        let prev = airport_rows(ls.drop_last());
        let w = words_of(ls.last());
        if w.len() < 3 {
            prev
        } else {
            prev.push(airport_network(w))
        }
    }
}

/// The networks of an `airport -s` listing, given as lines.
pub open spec fn airport_networks(ls: Seq<Seq<char>>) -> Seq<NetworkView> {
    if ls.len() == 0 {
        Seq::empty()
    } else {
        airport_rows(ls.drop_first())
    }
}

/// Joins `ws[from..]` with single spaces.
fn join_from(ws: &Vec<&str>, from: usize) -> (r: String)
    requires
        from <= ws@.len(),
    ensures
        r@ == joined(views_of(ws@).skip(from as int)),
{
    let ghost all = views_of(ws@);
    let mut r = String::new();
    let mut j: usize = from;
    proof {
        reveal_strlit(" ");
        assert(all.subrange(from as int, from as int) =~= Seq::<Seq<char>>::empty());
    }
    while j < ws.len()
        invariant
            all == views_of(ws@),
            from <= j <= ws@.len(),
            r@ == joined(all.subrange(from as int, j as int)),
        decreases ws@.len() - j,
    {
        proof {
            reveal_strlit(" ");
            let part = all.subrange(from as int, j + 1);
            assert(part.drop_last() =~= all.subrange(from as int, j as int));
            assert(part.last() == ws@[j as int]@);
            if j == from {
                assert(all.subrange(from as int, j as int).len() == 0);
            }
        }
        if j == from {
            r = String::from_str(ws[j]);
        } else {
            r.append(" ");
            r.append(ws[j]);
        }
        j = j + 1;
    }
    proof {
        assert(all.subrange(from as int, ws@.len() as int) =~= all.skip(from as int));
    }
    r
}

/// Security assessment of one network.
pub struct SecurityReport {
    pub wps_enabled: bool,
    /// From 0 to 100; higher is easier to break.
    pub crackability_score: u8,
    pub estimated_crack_time: String,
    pub vulnerabilities: Vec<String>,
    pub recommendations: Vec<String>,
}

pub open spec fn crack_score(t: SecurityType, wps: bool) -> u8 {
    match t {
        SecurityType::Open => 100,
        SecurityType::WEP => 95,
        SecurityType::WPA => 70,
        SecurityType::WPA2 => if wps { 80 } else { 30 },
        SecurityType::WPA2WPA3 => 20,
        SecurityType::WPA3 => 10,
        SecurityType::Unknown => 50,
    }
}

pub open spec fn crack_time(t: SecurityType, wps: bool) -> Seq<char> {
    match t {
        SecurityType::Open => "Immediate (no encryption)"@,
        SecurityType::WEP => "Minutes to hours"@,
        SecurityType::WPA => if wps {
            "Hours (via WPS PIN)"@
        } else {
            "Days to weeks (dictionary attack)"@
        },
        SecurityType::WPA2 => if wps {
            "Hours to days (via WPS)"@
        } else {
            "Weeks to months (with weak password)"@
        },
        SecurityType::WPA2WPA3 => "Months to years (strong password required)"@,
        SecurityType::WPA3 => "Years to impractical (current technology)"@,
        SecurityType::Unknown => "Unable to estimate"@,
    }
}

pub open spec fn vulnerabilities_for(t: SecurityType, wps: bool) -> Seq<Seq<char>> {
    let a = if t == SecurityType::Open {
        seq!["No encryption - all traffic visible"@]
    } else {
        Seq::empty()
    };
    let b = if t == SecurityType::WEP {
        a.push("WEP encryption is broken and easily cracked"@)
    } else {
        a
    };
    let c = if wps {
        b.push("WPS enabled - vulnerable to brute force PIN attacks"@)
    } else {
        b
    };
    if t == SecurityType::WPA {
        c.push("WPA (TKIP) has known weaknesses"@)
    } else {
        c
    }
}

pub open spec fn recommendations_for(t: SecurityType, wps: bool, hidden: bool) -> Seq<Seq<char>> {
    let a = if t == SecurityType::Open {
        seq!["Enable WPA3 or at minimum WPA2"@]
    } else {
        Seq::empty()
    };
    let b = if t == SecurityType::WEP {
        a.push("Upgrade to WPA2 or WPA3 immediately"@)
    } else {
        a
    };
    let c = if wps {
        b.push("Disable WPS in router settings"@)
    } else {
        b
    };
    let d = if t == SecurityType::WPA {
        c.push("Upgrade to WPA2 (AES) or WPA3"@)
    } else {
        c
    };
    let e = if hidden {
        d.push("Hidden SSID provides minimal security - still detectable"@)
    } else {
        d
    };
    if level_of(t) < 4 {
        e.push("Use a strong, unique password (16+ characters)"@).push(
            "Consider upgrading to WPA3 if supported"@,
        )
    } else {
        e
    }
}

fn push_text(v: &mut Vec<String>, t: &str)
    ensures
        final(v).deep_view() == old(v).deep_view().push(t@),
{
    v.push(String::from_str(t));
    assert(v.deep_view() =~= old(v).deep_view().push(t@));
}

/// Runs scans on one wireless interface.
pub struct WiFiScanner {
    pub interface: String,
    /// Time given to a scan to complete, in milliseconds.
    pub scan_duration_ms: u64,
}

pub const DEFAULT_SCAN_DURATION_MS: u64 = 10000;

impl WiFiScanner {
    pub fn new(interface: String) -> (r: Self)
        ensures
            r.interface@ == interface@,
            r.scan_duration_ms == DEFAULT_SCAN_DURATION_MS,
    {
        WiFiScanner { interface, scan_duration_ms: DEFAULT_SCAN_DURATION_MS }
    }

    pub fn with_duration(self, duration_ms: u64) -> (r: Self)
        ensures
            r.interface@ == self.interface@,
            r.scan_duration_ms == duration_ms,
    {
        WiFiScanner { scan_duration_ms: duration_ms, ..self }
    }

    /// Channel number of a centre frequency in MHz.
    pub fn frequency_to_channel(&self, frequency: u32) -> (r: u8)
        ensures
            r == channel_of(frequency),
    {
        match frequency {
            2412 => 1,
            2417 => 2,
            2422 => 3,
            2427 => 4,
            2432 => 5,
            2437 => 6,
            2442 => 7,
            2447 => 8,
            2452 => 9,
            2457 => 10,
            2462 => 11,
            2467 => 12,
            2472 => 13,
            2484 => 14,
            5180 => 36,
            5200 => 40,
            5220 => 44,
            5240 => 48,
            _ => 0,
        }
    }

    fn apply_iw_attribute(&self, n: Network, line: &str) -> (r: Network)
        ensures
            r@ == iw_attribute(n@, line@),
    {
        let mut n = n;
        proof {
            reveal_strlit("SSID: ");
            reveal_strlit("freq: ");
            reveal_strlit("signal: ");
        }
        if starts_with(line, "SSID: ") {
            if let Some(rest) = strip_prefix(line, "SSID: ") {
                n.ssid = String::from_str(rest);
                n.hidden = rest.unicode_len() == 0;
            }
        } else if starts_with(line, "freq: ") {
            if let Some(rest) = strip_prefix(line, "freq: ") {
                if let Some(f) = parse_u32(rest) {
                    n.frequency = f;
                    n.channel = self.frequency_to_channel(f);
                }
            }
        } else if starts_with(line, "signal: ") {
            if let Some(rest) = strip_prefix(line, "signal: ") {
                let words = split_whitespace(rest);
                if words.len() > 0 {
                    assert(words@[0]@ == words_of(rest@)[0]);
                    n.signal_strength = match parse_i16(words[0]) {
                        Some(x) => x,
                        None => NO_SIGNAL,
                    };
                }
            }
        } else if contains(line, "RSN:") || contains(line, "WPA:") {
            if contains(line, "WPA3") {
                n.security_type = SecurityType::WPA3;
            } else if contains(line, "WPA2") || contains(line, "RSN") {
                n.security_type = SecurityType::WPA2;
            } else {
                n.security_type = SecurityType::WPA;
            }
        } else if contains(line, "WEP") {
            n.security_type = SecurityType::WEP;
        } else if contains(line, "WPS:") {
            n.wps_enabled = true;
        }
        n
    }

    /// Reads the networks of an `iw <dev> scan dump` listing: each `BSS`
    /// line opens a network, and the attribute lines after it fill it in.
    pub fn parse_iw_scan_results(&self, output: &str) -> (r: Vec<Network>)
        ensures
            network_views(r@) == iw_networks(lines_of(output@)),
    {
        let ls = lines(output);
        let ghost all = views_of(ls@);
        let mut networks: Vec<Network> = Vec::new();
        let mut current: Option<Network> = None;
        let mut i: usize = 0;
        proof {
            reveal_strlit("BSS ");
            assert(all.take(0) =~= Seq::<Seq<char>>::empty());
            assert(network_views(networks@) =~= Seq::<NetworkView>::empty());
        }
        while i < ls.len()
            invariant
                all == views_of(ls@),
                i <= ls@.len(),
                network_views(networks@) == iw_state(all.take(i as int)).0,
                match current {
                    Some(n) => iw_state(all.take(i as int)).1 == Some(n@),
                    None => iw_state(all.take(i as int)).1 is None,
                },
            decreases ls@.len() - i,
        {
            let line = trim(ls[i]);
            proof {
                reveal_strlit("BSS ");
                assert(all.take(i + 1).drop_last() =~= all.take(i as int));
                assert(all.take(i + 1).last() == ls@[i as int]@);
            }
            if starts_with(line, "BSS ") {
                if let Some(n) = current {
                    proof {
                        assert(network_views(networks@.push(n)) =~= network_views(networks@).push(n@));
                    }
                    networks.push(n);
                }
                let rest = strip_prefix(line, "BSS ");
                match rest {
                    Some(rest) => {
                        let bssid = trim(before_char(rest, '('));
                        current = Some(new_network(bssid));
                    },
                    None => {
                        current = None;
                    },
                }
            } else {
                match current {
                    Some(n) => {
                        current = Some(self.apply_iw_attribute(n, line));
                    },
                    None => {
                        current = None;
                    },
                }
            }
            i = i + 1;
        }
        proof {
            assert(all.take(ls@.len() as int) =~= all);
        }
        if let Some(n) = current {
            proof {
                assert(network_views(networks@.push(n)) =~= network_views(networks@).push(n@));
            }
            networks.push(n);
        }
        networks
    }

    /// Reads the networks of an `airport -s` listing: the first line is a
    /// header, each later row of at least three words is one network.
    pub fn parse_airport_results(&self, output: &str) -> (r: Vec<Network>)
        ensures
            network_views(r@) == airport_networks(lines_of(output@)),
    {
        let ls = lines(output);
        let ghost all = views_of(ls@);
        let mut networks: Vec<Network> = Vec::new();
        if ls.len() == 0 {
            proof {
                assert(network_views(networks@) =~= Seq::<NetworkView>::empty());
            }
            return networks;
        }
        let mut i: usize = 1;
        proof {
            assert(all.subrange(1, 1) =~= Seq::<Seq<char>>::empty());
            assert(network_views(networks@) =~= Seq::<NetworkView>::empty());
        }
        while i < ls.len()
            invariant
                all == views_of(ls@),
                1 <= i <= ls@.len(),
                network_views(networks@) == airport_rows(all.subrange(1, i as int)),
            decreases ls@.len() - i,
        {
            let parts = split_whitespace(ls[i]);
            let ghost w = views_of(parts@);
            proof {
                let part = all.subrange(1, i + 1);
                assert(part.drop_last() =~= all.subrange(1, i as int));
                assert(part.last() == ls@[i as int]@);
            }
            if parts.len() >= 3 {
                let signal_strength = match parse_i16(parts[2]) {
                    Some(x) => x,
                    None => NO_SIGNAL,
                };
                let security_info = if parts.len() > 6 {
                    join_from(&parts, 6)
                } else {
                    String::new()
                };
                let security_type = SecurityType::from_str(security_info.as_str());
                let n = Network {
                    ssid: String::from_str(parts[0]),
                    signal_strength,
                    security_type,
                    ..new_network(parts[1])
                };
                proof {
                    assert(n@ == airport_network(w));
                    assert(network_views(networks@.push(n)) =~= network_views(networks@).push(n@));
                }
                networks.push(n);
            }
            i = i + 1;
        }
        proof {
            assert(all.subrange(1, ls@.len() as int) =~= all.drop_first());
        }
        networks
    }

    /// Assesses how easily a network's protection can be broken, and what
    /// to change.
    pub fn analyze_security(&self, network: &Network) -> (r: SecurityReport)
        ensures
            r.wps_enabled == network.wps_enabled,
            r.crackability_score == crack_score(network.security_type, network.wps_enabled),
            r.estimated_crack_time@ == crack_time(network.security_type, network.wps_enabled),
            r.vulnerabilities.deep_view() == vulnerabilities_for(
                network.security_type,
                network.wps_enabled,
            ),
            r.recommendations.deep_view() == recommendations_for(
                network.security_type,
                network.wps_enabled,
                network.hidden,
            ),
    {
        let t = network.security_type;
        let wps = network.wps_enabled;
        let level = t.security_level();
        let score: u8 = match t {
            SecurityType::Open => 100,
            SecurityType::WEP => 95,
            SecurityType::WPA => 70,
            SecurityType::WPA2 => if wps { 80 } else { 30 },
            SecurityType::WPA2WPA3 => 20,
            SecurityType::WPA3 => 10,
            SecurityType::Unknown => 50,
        };
        let time = match t {
            SecurityType::Open => String::from_str("Immediate (no encryption)"),
            SecurityType::WEP => String::from_str("Minutes to hours"),
            SecurityType::WPA => if wps {
                String::from_str("Hours (via WPS PIN)")
            } else {
                String::from_str("Days to weeks (dictionary attack)")
            },
            SecurityType::WPA2 => if wps {
                String::from_str("Hours to days (via WPS)")
            } else {
                String::from_str("Weeks to months (with weak password)")
            },
            SecurityType::WPA2WPA3 => String::from_str("Months to years (strong password required)"),
            SecurityType::WPA3 => String::from_str("Years to impractical (current technology)"),
            SecurityType::Unknown => String::from_str("Unable to estimate"),
        };
        let mut vulnerabilities: Vec<String> = Vec::new();
        let mut recommendations: Vec<String> = Vec::new();
        proof {
            assert(vulnerabilities.deep_view() =~= Seq::<Seq<char>>::empty());
            assert(recommendations.deep_view() =~= Seq::<Seq<char>>::empty());
        }
        if t == SecurityType::Open {
            push_text(&mut vulnerabilities, "No encryption - all traffic visible");
            push_text(&mut recommendations, "Enable WPA3 or at minimum WPA2");
        }
        if t == SecurityType::WEP {
            push_text(&mut vulnerabilities, "WEP encryption is broken and easily cracked");
            push_text(&mut recommendations, "Upgrade to WPA2 or WPA3 immediately");
        }
        if wps {
            push_text(&mut vulnerabilities, "WPS enabled - vulnerable to brute force PIN attacks");
            push_text(&mut recommendations, "Disable WPS in router settings");
        }
        if t == SecurityType::WPA {
            push_text(&mut vulnerabilities, "WPA (TKIP) has known weaknesses");
            push_text(&mut recommendations, "Upgrade to WPA2 (AES) or WPA3");
        }
        if network.hidden {
            push_text(
                &mut recommendations,
                "Hidden SSID provides minimal security - still detectable",
            );
        }
        if level < 4 {
            push_text(&mut recommendations, "Use a strong, unique password (16+ characters)");
            push_text(&mut recommendations, "Consider upgrading to WPA3 if supported");
        }
        SecurityReport {
            wps_enabled: wps,
            crackability_score: score,
            estimated_crack_time: time,
            vulnerabilities,
            recommendations,
        }
    }

    /// The networks of a finished `iw <dev> scan dump` run; a failed run
    /// is reported with its standard error.
    pub fn networks_from_iw(&self, output: &CommandOutput) -> (r: Result<Vec<Network>, ToolError>)
        ensures
            output.success <==> r is Ok,
            r matches Err(ToolError::Failed { stderr }) ==> stderr@ == output.stderr@,
            r matches Ok(v) ==> network_views(v@) == iw_networks(lines_of(output.stdout@)),
    {
        if !output.success {
            return Err(ToolError::Failed { stderr: output.stderr.clone() });
        }
        Ok(self.parse_iw_scan_results(output.stdout.as_str()))
    }

    /// The networks of a finished `airport -s` run; a failed run is reported
    /// with its standard error.
    pub fn networks_from_airport(&self, output: &CommandOutput) -> (r: Result<
        Vec<Network>,
        ToolError,
    >)
        ensures
            output.success <==> r is Ok,
            r matches Err(ToolError::Failed { stderr }) ==> stderr@ == output.stderr@,
            r matches Ok(v) ==> network_views(v@) == airport_networks(lines_of(output.stdout@)),
    {
        if !output.success {
            return Err(ToolError::Failed { stderr: output.stderr.clone() });
        }
        Ok(self.parse_airport_results(output.stdout.as_str()))
    }
}

} // verus!
