//! Port scanning: service catalog, per-port classification, batching of a
//! range of ports, and the scan cost estimate.

use vstd::arithmetic::div_mod::{lemma_div_is_ordered, lemma_div_is_ordered_by_denominator};
use vstd::prelude::*;

verus! {

/// Address of the host to be scanned.
#[derive(Clone, Copy, Debug, PartialEq, Eq, Structural)]
pub enum TargetAddr {
    V4(u8, u8, u8, u8),
    V6(u16, u16, u16, u16, u16, u16, u16, u16),
}

/// Inclusive bounds of a contiguous range of ports.
#[derive(Clone, Copy, Debug, PartialEq, Eq, Structural)]
pub struct PortRange {
    pub start: u16,
    pub end: u16,
}

/// Outcome of probing one port.
#[derive(Clone, Copy, Debug, PartialEq, Eq, Structural)]
pub enum PortState {
    Open,
    Closed,
    Filtered,
    OpenFiltered,
}

/// Transport protocol of a probe.
#[derive(Clone, Copy, Debug, PartialEq, Eq, Structural)]
pub enum Protocol {
    TCP,
    UDP,
}

/// Result of probing one port.
#[derive(Clone, Debug)]
pub struct PortResult {
    pub port: u16,
    pub state: PortState,
    pub service: Option<String>,
    pub protocol: Protocol,
    pub banner: Option<String>,
}

/// Well-known service name of a port, if the catalog maps it.
pub open spec fn service_name(port: u16) -> Option<Seq<char>> {
    if port == 20 { Some("FTP-DATA"@) }
    else if port == 21 { Some("FTP"@) }
    else if port == 22 { Some("SSH"@) }
    else if port == 23 { Some("Telnet"@) }
    else if port == 25 { Some("SMTP"@) }
    else if port == 53 { Some("DNS"@) }
    else if port == 80 { Some("HTTP"@) }
    else if port == 110 { Some("POP3"@) }
    else if port == 143 { Some("IMAP"@) }
    else if port == 443 { Some("HTTPS"@) }
    else if port == 445 { Some("SMB"@) }
    else if port == 3306 { Some("MySQL"@) }
    else if port == 3389 { Some("RDP"@) }
    else if port == 5432 { Some("PostgreSQL"@) }
    else if port == 5900 { Some("VNC"@) }
    else if port == 6379 { Some("Redis"@) }
    else if port == 8080 { Some("HTTP-Proxy"@) }
    else if port == 8443 { Some("HTTPS-Alt"@) }
    else if port == 27017 { Some("MongoDB"@) }
    else { None }
}

fn owned(s: &str) -> (r: Option<String>)
    ensures
        r.deep_view() == Some(s@),
{
    Some(String::from_str(s))
}

/// Looks a port up in the service catalog.
pub fn lookup_service(port: u16) -> (r: Option<String>)
    ensures
        r.deep_view() == service_name(port),
{
    match port {
        20 => owned("FTP-DATA"),
        21 => owned("FTP"),
        22 => owned("SSH"),
        23 => owned("Telnet"),
        25 => owned("SMTP"),
        53 => owned("DNS"),
        80 => owned("HTTP"),
        110 => owned("POP3"),
        143 => owned("IMAP"),
        443 => owned("HTTPS"),
        445 => owned("SMB"),
        3306 => owned("MySQL"),
        3389 => owned("RDP"),
        5432 => owned("PostgreSQL"),
        5900 => owned("VNC"),
        6379 => owned("Redis"),
        8080 => owned("HTTP-Proxy"),
        8443 => owned("HTTPS-Alt"),
        27017 => owned("MongoDB"),
        _ => None,
    }
}


/// Failure of a scan request or of one probe.
#[derive(Clone, Copy, Debug, PartialEq, Eq, Structural)]
pub enum ScanError {
    /// The port range has its start above its end; nothing was probed.
    Config { start: u16, end: u16 },
    /// A local socket could not be set up or used for a UDP probe.
    Infrastructure,
}

/// What a UDP probe observed.
#[derive(Clone, Copy, Debug, PartialEq, Eq, Structural)]
pub enum UdpOutcome {
    /// No local socket could be bound.
    BindFailed,
    /// The empty datagram could not be sent.
    SendFailed,
    /// A datagram came back within the timeout.
    Reply,
    /// The transport reported an error, such as an unreachable port.
    ReceiveError,
    /// Nothing came back before the timeout.
    NoReply,
}

/// Read-only summary of a scan configuration.
pub struct ScanInfo {
    pub target: TargetAddr,
    /// The range written as `start-end`.
    pub port_range: String,
    pub total_ports: usize,
    /// Serial-batch approximation of the wall-clock duration; not a measurement.
    pub estimated_duration_seconds: u64,
    pub max_parallel: usize,
}

/// Character of a decimal digit.
pub open spec fn digit_char(d: nat) -> char {
    if d == 0 { '0' }
    else if d == 1 { '1' }
    else if d == 2 { '2' }
    else if d == 3 { '3' }
    else if d == 4 { '4' }
    else if d == 5 { '5' }
    else if d == 6 { '6' }
    else if d == 7 { '7' }
    else if d == 8 { '8' }
    else { '9' }
}

/// Decimal notation of `n`, without leading zeros.
pub open spec fn decimal(n: nat) -> Seq<char>
    decreases n,
{
    if n < 10 {
        seq![digit_char(n)]
    } else {
        decimal(n / 10).push(digit_char(n % 10))
    }
}

/// Relies on the `Display` impl of `u16`, through `format!`, which writes a
/// number in decimal without leading zeros.
#[verifier::external_body]
fn range_text(start: u16, end: u16) -> (r: String)
    ensures
        r@ == decimal(start as nat) + seq!['-'] + decimal(end as nat),
{
    format!("{}-{}", start, end)
}

/// Text of a byte string decoded as UTF-8, each invalid sequence replaced by
/// U+FFFD.
pub uninterp spec fn utf8_lossy(b: Seq<u8>) -> Seq<char>;

/// Relies on `String::from_utf8_lossy`, whose text depends on the bytes alone.
#[verifier::external_body]
fn decode_lossy(b: &[u8]) -> (r: String)
    ensures
        r@ == utf8_lossy(b@),
{
    String::from_utf8_lossy(b).into_owned()
}

/// Serial-batch estimate, in whole seconds, of a scan of `total` ports with
/// `timeout_ms` per probe and `max_parallel` probes at once.
pub open spec fn estimate_seconds(total: int, timeout_ms: int, max_parallel: int) -> int {
    total * timeout_ms / max_parallel / 1000
}

/// Configuration of one scan of a target over a range of ports.
pub struct PortScanner {
    pub target: TargetAddr,
    pub ports: PortRange,
    /// Upper bound on the duration of one probe, in milliseconds.
    pub timeout_ms: u64,
    /// Largest number of probes in flight at once.
    pub max_parallel: usize,
}

pub const DEFAULT_TIMEOUT_MS: u64 = 1000;

pub const DEFAULT_MAX_PARALLEL: usize = 100;

/// The result expected of a TCP probe of `port` that did or did not connect.
pub open spec fn tcp_result(r: PortResult, port: u16, connected: bool) -> bool {
    &&& r.port == port
    &&& r.protocol == Protocol::TCP
    &&& r.banner is None
    &&& if connected {
        r.state == PortState::Open && r.service.deep_view() == service_name(port)
    } else {
        r.state == PortState::Closed && r.service is None
    }
}

/// The state that a UDP probe outcome stands for; `None` for a local failure.
pub open spec fn udp_state(outcome: UdpOutcome) -> Option<PortState> {
    match outcome {
        UdpOutcome::BindFailed => None,
        UdpOutcome::SendFailed => None,
        UdpOutcome::Reply => Some(PortState::Open),
        UdpOutcome::ReceiveError => Some(PortState::Closed),
        UdpOutcome::NoReply => Some(PortState::OpenFiltered),
    }
}

impl PortScanner {
    /// A usable configuration runs at least one probe at a time.
    pub open spec fn wf(&self) -> bool {
        self.max_parallel >= 1
    }

    /// Number of ports in the range; zero or less when the range is inverted.
    pub open spec fn total_ports(&self) -> int {
        self.ports.end - self.ports.start + 1
    }

    pub fn new(target: TargetAddr, start_port: u16, end_port: u16) -> (r: Self)
        ensures
            r.wf(),
            r.target == target,
            r.ports == (PortRange { start: start_port, end: end_port }),
            r.timeout_ms == DEFAULT_TIMEOUT_MS,
            r.max_parallel == DEFAULT_MAX_PARALLEL,
    {
        PortScanner {
            target,
            ports: PortRange { start: start_port, end: end_port },
            timeout_ms: DEFAULT_TIMEOUT_MS,
            max_parallel: DEFAULT_MAX_PARALLEL,
        }
    }

    pub fn with_timeout(self, timeout_ms: u64) -> (r: Self)
        ensures
            r.target == self.target,
            r.ports == self.ports,
            r.timeout_ms == timeout_ms,
            r.max_parallel == self.max_parallel,
    {
        PortScanner { timeout_ms, ..self }
    }

    pub fn with_parallelism(self, max_parallel: usize) -> (r: Self)
        requires
            max_parallel >= 1,
        ensures
            r.wf(),
            r.target == self.target,
            r.ports == self.ports,
            r.timeout_ms == self.timeout_ms,
            r.max_parallel == max_parallel,
    {
        PortScanner { max_parallel, ..self }
    }

    /// Service catalog entry of `port`.
    pub fn detect_service(&self, port: u16) -> (r: Option<String>)
        ensures
            r.deep_view() == service_name(port),
    {
        lookup_service(port)
    }

    /// Classifies a TCP connect probe of `port`: open when the handshake
    /// completed within the timeout, closed on any failure.
    pub fn scan_tcp_port(&self, port: u16, connected: bool) -> (r: PortResult)
        ensures
            tcp_result(r, port, connected),
    {
        if connected {
            PortResult {
                port,
                state: PortState::Open,
                service: self.detect_service(port),
                protocol: Protocol::TCP,
                banner: None,
            }
        } else {
            PortResult {
                port,
                state: PortState::Closed,
                service: None,
                protocol: Protocol::TCP,
                banner: None,
            }
        }
    }

    /// Classifies a UDP probe of `port`; a local socket failure is an error.
    pub fn scan_udp_port(&self, port: u16, outcome: UdpOutcome) -> (r: Result<PortResult, ScanError>)
        ensures
            udp_state(outcome) is None ==> r == Err::<PortResult, ScanError>(ScanError::Infrastructure),
            udp_state(outcome) is Some ==> (r matches Ok(p) && p.port == port
                && p.state == udp_state(outcome).unwrap() && p.protocol == Protocol::UDP
                && p.service.deep_view() == service_name(port) && p.banner is None),
    {
        let state = match outcome {
            UdpOutcome::BindFailed => { return Err(ScanError::Infrastructure); },
            UdpOutcome::SendFailed => { return Err(ScanError::Infrastructure); },
            UdpOutcome::Reply => PortState::Open,
            UdpOutcome::ReceiveError => PortState::Closed,
            UdpOutcome::NoReply => PortState::OpenFiltered,
        };
        Ok(PortResult {
            port,
            state,
            service: self.detect_service(port),
            protocol: Protocol::UDP,
            banner: None,
        })
    }

    /// Batches of ports are laid out in ascending order: batch `k` holds the
    /// ports from `start + k * max_parallel` on, each batch but the last is
    /// full, and together they cover the range exactly once.
    pub open spec fn batches_post(&self, b: Seq<Vec<u16>>) -> bool {
        &&& b.len() >= 1
        &&& forall|k: int| 0 <= k < b.len() ==> 1 <= #[trigger] b[k]@.len() <= self.max_parallel
        &&& forall|k: int| 0 <= k < b.len() - 1 ==> #[trigger] b[k]@.len() == self.max_parallel
        &&& (b.len() - 1) * self.max_parallel + b.last()@.len() == self.total_ports()
        &&& forall|k: int, j: int| 0 <= k < b.len() && 0 <= j < b[k]@.len()
            ==> #[trigger] b[k]@[j] == self.ports.start + k * self.max_parallel + j
    }

    /// The results of a TCP scan in which port `start + i` connected exactly
    /// when `connected[i]` holds.
    pub open spec fn scan_post(&self, connected: Seq<bool>, v: Seq<PortResult>) -> bool {
        &&& v.len() == self.total_ports()
        &&& forall|i: int| 0 <= i < v.len()
            ==> tcp_result(#[trigger] v[i], (self.ports.start + i) as u16, connected[i])
    }

    /// Splits the range into the batches that run one after another, each
    /// holding at most `max_parallel` ports probed at once. An inverted range
    /// is refused before any probe is planned.
    pub fn batches(&self) -> (r: Result<Vec<Vec<u16>>, ScanError>)
        requires
            self.wf(),
        ensures
            self.ports.start > self.ports.end <==> r is Err,
            r is Err ==> r == Err::<Vec<Vec<u16>>, ScanError>(
                ScanError::Config { start: self.ports.start, end: self.ports.end },
            ),
            r matches Ok(b) ==> self.batches_post(b@),
    {
        let start = self.ports.start;
        let end = self.ports.end;
        if start > end {
            return Err(ScanError::Config { start, end });
        }
        let m = self.max_parallel;
        let mut out: Vec<Vec<u16>> = Vec::new();
        let mut batch: Vec<u16> = Vec::new();
        let mut p: u32 = start as u32;
        assert(out@.len() * m == 0) by (nonlinear_arith)
            requires out@.len() == 0;
        while p <= end as u32
            invariant
                start <= end,
                m == self.max_parallel,
                m >= 1,
                start <= p <= end + 1,
                batch@.len() < m,
                p == start + out@.len() * m + batch@.len(),
                forall|k: int| 0 <= k < out@.len() ==> #[trigger] out@[k]@.len() == m,
                forall|k: int, j: int| 0 <= k < out@.len() && 0 <= j < out@[k]@.len()
                    ==> #[trigger] out@[k]@[j] == start + k * m + j,
                forall|j: int| 0 <= j < batch@.len()
                    ==> #[trigger] batch@[j] == start + out@.len() * m + j,
            decreases end + 1 - p,
        {
            batch.push(p as u16);
            if batch.len() == m {
                proof {
                    let k = out@.len() as int;
                    assert((k + 1) * m == k * m + m) by (nonlinear_arith);
                }
                out.push(batch);
                batch = Vec::new();
            }
            p = p + 1;
        }
        if batch.len() > 0 {
            out.push(batch);
        } else {
            proof {
                let k = out@.len() as int;
                assert(k >= 1) by (nonlinear_arith)
                    requires p == start + k * m, p > start, m >= 1;
                assert((k - 1) * m + m == k * m) by (nonlinear_arith);
            }
        }
        Ok(out)
    }

    /// Assembles the results of a TCP connect scan from the outcome of each
    /// probe, `connected[i]` being that of port `start + i`. The results come
    /// one per port, in ascending order of port. An inverted range is refused.
    pub fn scan(&self, connected: &Vec<bool>) -> (r: Result<Vec<PortResult>, ScanError>)
        requires
            self.ports.start <= self.ports.end ==> connected@.len() == self.total_ports(),
        ensures
            self.ports.start > self.ports.end <==> r is Err,
            r is Err ==> r == Err::<Vec<PortResult>, ScanError>(
                ScanError::Config { start: self.ports.start, end: self.ports.end },
            ),
            r matches Ok(v) ==> self.scan_post(connected@, v@),
            r matches Ok(v) ==> v@.len() == self.ports.end - self.ports.start + 1,
            r matches Ok(v) ==> forall|i: int, j: int| 0 <= i < j < v@.len()
                ==> v@[i].port < v@[j].port,
    {
        let start = self.ports.start;
        let end = self.ports.end;
        if start > end {
            return Err(ScanError::Config { start, end });
        }
        let mut out: Vec<PortResult> = Vec::new();
        let mut i: usize = 0;
        let n: usize = (end - start) as usize + 1;
        while i < n
            invariant
                start <= end,
                n == end - start + 1,
                connected@.len() == n,
                i <= n,
                out@.len() == i,
                forall|k: int| 0 <= k < i
                    ==> tcp_result(#[trigger] out@[k], (start + k) as u16, connected@[k]),
            decreases n - i,
        {
            let port: u16 = (start as usize + i) as u16;
            let res = self.scan_tcp_port(port, connected[i]);
            out.push(res);
            i = i + 1;
        }
        Ok(out)
    }

    /// Reads a banner from what a fresh connection to an open port received:
    /// nothing when the connection or the read failed or no byte came, else
    /// the bytes decoded permissively.
    pub fn grab_banner(&self, received: Option<Vec<u8>>) -> (r: Option<String>)
        ensures
            match received {
                None => r is None,
                Some(b) => if b@.len() == 0 {
                    r is None
                } else {
                    r.deep_view() == Some(utf8_lossy(b@))
                },
            },
    {
        match received {
            None => None,
            Some(b) => {
                if b.len() == 0 {
                    None
                } else {
                    Some(decode_lossy(b.as_slice()))
                }
            },
        }
    }

    /// The estimated duration of this configuration, in whole seconds.
    pub open spec fn estimated_seconds(&self) -> int {
        estimate_seconds(self.total_ports(), self.timeout_ms as int, self.max_parallel as int)
    }

    /// Summary of the configuration, with the serial-batch duration estimate.
    pub fn get_scan_info(&self) -> (r: ScanInfo)
        requires
            self.wf(),
            self.ports.start <= self.ports.end,
            self.total_ports() * self.timeout_ms <= u64::MAX,
        ensures
            r.target == self.target,
            r.port_range@ == decimal(self.ports.start as nat) + seq!['-'] + decimal(
                self.ports.end as nat,
            ),
            r.total_ports == self.total_ports(),
            r.estimated_duration_seconds == self.estimated_seconds(),
            r.max_parallel == self.max_parallel,
    {
        let total_ports: usize = (self.ports.end - self.ports.start) as usize + 1;
        let product: u64 = total_ports as u64 * self.timeout_ms;
        let estimated_ms: u64 = product / self.max_parallel as u64;
        ScanInfo {
            target: self.target,
            port_range: range_text(self.ports.start, self.ports.end),
            total_ports,
            estimated_duration_seconds: estimated_ms / 1000,
            max_parallel: self.max_parallel,
        }
    }
}

/// The scan estimate never decreases when the range grows or the per-probe
/// timeout grows, and never increases when more probes may run at once.
pub proof fn lemma_estimate_monotonic(a: PortScanner, b: PortScanner)
    requires
        a.wf(),
        b.wf(),
        0 <= a.total_ports() <= b.total_ports(),
        a.timeout_ms <= b.timeout_ms,
        a.max_parallel >= b.max_parallel,
    ensures
        a.estimated_seconds() <= b.estimated_seconds(),
{
    let ta = a.total_ports();
    let tb = b.total_ports();
    let ma = a.timeout_ms as int;
    let mb = b.timeout_ms as int;
    let pa = a.max_parallel as int;
    let pb = b.max_parallel as int;
    assert(ta * ma <= tb * mb) by (nonlinear_arith)
        requires 0 <= ta <= tb, 0 <= ma <= mb;
    assert(0 <= ta * ma) by (nonlinear_arith)
        requires 0 <= ta, 0 <= ma;
    lemma_div_is_ordered_by_denominator(ta * ma, pb, pa);
    lemma_div_is_ordered(ta * ma, tb * mb, pb);
    lemma_div_is_ordered(ta * ma / pa, tb * mb / pb, 1000);
}

/// Two scans of one configuration whose probes observed the same outcomes
/// agree on the port, state and service of every result.
pub proof fn lemma_scan_repeatable(
    s: PortScanner,
    connected: Seq<bool>,
    v1: Seq<PortResult>,
    v2: Seq<PortResult>,
)
    requires
        s.scan_post(connected, v1),
        s.scan_post(connected, v2),
    ensures
        v1.len() == v2.len(),
        forall|i: int| 0 <= i < v1.len() ==> {
            &&& #[trigger] v1[i].port == v2[i].port
            &&& v1[i].state == v2[i].state
            &&& v1[i].service.deep_view() == v2[i].service.deep_view()
        },
{
    assert forall|i: int| 0 <= i < v1.len() implies {
        &&& #[trigger] v1[i].port == v2[i].port
        &&& v1[i].state == v2[i].state
        &&& v1[i].service.deep_view() == v2[i].service.deep_view()
    } by {
        assert(tcp_result(v1[i], (s.ports.start + i) as u16, connected[i]));
        assert(tcp_result(v2[i], (s.ports.start + i) as u16, connected[i]));
        if !connected[i] {
            assert(v1[i].service.deep_view() == None::<Seq<char>>);
            assert(v2[i].service.deep_view() == None::<Seq<char>>);
        }
    }
}

} // verus!
