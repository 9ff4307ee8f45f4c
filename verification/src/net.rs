//! Reachability, latency, live throughput and the speed test: the decisions and the arithmetic.
//!
//! The probes themselves (HTTP requests, TCP connects, interface counters, timing) are made by
//! the caller, which hands the outcomes to the functions here.
use vstd::prelude::*;

use crate::arith::{law_round_half_up_is_nearest, round_div, round_half_up};
use crate::text::{
    ascii_lower, ascii_lower_seq, ascii_lowercase, chars_of, contains, contains_chars, decimal,
    push_decimal,
};

verus! {

broadcast use vstd::string::group_string_axioms;

/// Result of a reachability probe: the three states that matter.
#[derive(Debug, Clone, Copy, PartialEq, Eq, Structural)]
pub enum Reachability {
    Online,
    CaptivePortal,
    NoInternet,
}

/// Outcome of one HTTP endpoint probe.
#[derive(Debug, Clone, Copy, PartialEq, Eq, Structural)]
pub enum Probe {
    /// The endpoint answered with its genuine success payload.
    Online,
    /// The endpoint was intercepted (a redirect, or an unexpected answer).
    Portal,
    /// No usable answer at all.
    Fail,
}

/// What the reachability check does next.
#[derive(Debug, Clone, Copy, PartialEq, Eq, Structural)]
pub enum ReachAction {
    /// The verdict is in.
    Done(Reachability),
    /// Attempt a raw TCP connect to the fallback address with this index.
    ProbeTcp(usize),
}

/// How many raw TCP fallback addresses are tried before giving up.
pub const TCP_FALLBACK_COUNT: usize = 2;

/// The reachability check as a function of the HTTP probe outcomes and of the TCP fallback
/// outcomes gathered so far (in the order they were tried):
/// - any endpoint gave its genuine payload: Online;
/// - else any endpoint was intercepted: captive portal;
/// - else any raw TCP connect worked (DNS or proxy broken): captive portal;
/// - else, while fallback addresses remain, try the next one;
/// - else: no internet.
pub open spec fn reach_action(http: Seq<Probe>, tcp: Seq<bool>) -> ReachAction {
    if http.contains(Probe::Online) {
        ReachAction::Done(Reachability::Online)
    } else if http.contains(Probe::Portal) {
        ReachAction::Done(Reachability::CaptivePortal)
    } else if tcp.contains(true) {
        ReachAction::Done(Reachability::CaptivePortal)
    } else if tcp.len() < TCP_FALLBACK_COUNT {
        ReachAction::ProbeTcp(tcp.len() as usize)
    } else {
        ReachAction::Done(Reachability::NoInternet)
    }
}

fn has_probe(results: &[Probe], p: Probe) -> (r: bool)
    ensures
        r == results@.contains(p),
{
    let mut i: usize = 0;
    while i < results.len()
        invariant
            i <= results@.len(),
            forall|k: int| 0 <= k < i ==> results@[k] != p,
        decreases results.len() - i,
    {
        if results[i] == p {
            return true;
        }
        i += 1;
    }
    false
}

fn any_true(results: &[bool]) -> (r: bool)
    ensures
        r == results@.contains(true),
{
    let mut i: usize = 0;
    while i < results.len()
        invariant
            i <= results@.len(),
            forall|k: int| 0 <= k < i ==> !results@[k],
        decreases results.len() - i,
    {
        if results[i] {
            return true;
        }
        i += 1;
    }
    false
}

/// Reachability via several independent endpoints, so that one provider's hiccup never reads
/// as "offline" on a working link. Given the HTTP probe outcomes and the raw TCP fallback
/// outcomes so far, says whether the verdict is in or which fallback address to try next.
pub fn check_reachability(http: &[Probe], tcp: &[bool]) -> (r: ReachAction)
    ensures
        r == reach_action(http@, tcp@),
{
    if has_probe(http, Probe::Online) {
        ReachAction::Done(Reachability::Online)
    } else if has_probe(http, Probe::Portal) {
        ReachAction::Done(Reachability::CaptivePortal)
    } else if any_true(tcp) {
        ReachAction::Done(Reachability::CaptivePortal)
    } else if tcp.len() < TCP_FALLBACK_COUNT {
        ReachAction::ProbeTcp(tcp.len())
    } else {
        ReachAction::Done(Reachability::NoInternet)
    }
}

/// The raw TCP fallback address with index `i`: public IPs, so that DNS plays no part.
pub fn tcp_fallback_addr(i: usize) -> (a: &'static str)
    requires
        i < TCP_FALLBACK_COUNT,
    ensures
        i == 0 ==> a@ == "1.1.1.1:443"@,
        i == 1 ==> a@ == "8.8.8.8:443"@,
{
    if i == 0 {
        "1.1.1.1:443"
    } else {
        "8.8.8.8:443"
    }
}

/// An HTTP status code in the redirection class (3xx).
pub open spec fn is_redirection(code: u16) -> bool {
    300 <= code < 400
}

/// An HTTP status code in the success class (2xx).
pub open spec fn is_success(code: u16) -> bool {
    200 <= code < 300
}

/// `204 No Content`.
pub const NO_CONTENT: u16 = 204;

/// Whether `code` is a redirection (3xx).
pub fn status_is_redirection(code: u16) -> (r: bool)
    ensures
        r == is_redirection(code),
{
    300 <= code && code < 400
}

/// Whether `code` is a success (2xx).
pub fn status_is_success(code: u16) -> (r: bool)
    ensures
        r == is_success(code),
{
    200 <= code && code < 300
}

/// Some marker of `needles` occurs in `body`.
pub open spec fn contains_any(body: Seq<char>, needles: Seq<Seq<char>>) -> bool {
    exists|i: int| 0 <= i < needles.len() && contains(body, #[trigger] needles[i])
}

/// The views of a list of texts.
pub open spec fn views(s: Seq<&str>) -> Seq<Seq<char>> {
    s.map_values(|t: &str| t@)
}

/// Whether some marker of `needles` occurs in `body`.
pub fn body_has_marker(body: &str, needles: &[&str]) -> (r: bool)
    ensures
        r == contains_any(body@, views(needles@)),
{
    let b = chars_of(body);
    let mut i: usize = 0;
    while i < needles.len()
        invariant
            b@ == body@,
            i <= needles@.len(),
            forall|k: int| 0 <= k < i ==> !contains(body@, #[trigger] views(needles@)[k]),
        decreases needles.len() - i,
    {
        let n = chars_of(needles[i]);
        if contains_chars(&b, &n) {
            assert(views(needles@)[i as int] == needles@[i as int]@);
            return true;
        }
        i += 1;
    }
    false
}

/// The first step of a body probe (an endpoint that returns a known plaintext body when
/// reached directly), once the request has or has not produced a response: no response
/// within the timeout is a failure, a redirect means something intercepted it, and any other
/// status means the body must be read (`None`).
pub open spec fn body_probe_status_step(status: Option<u16>) -> Option<Probe> {
    match status {
        None => Some(Probe::Fail),
        Some(code) => if is_redirection(code) {
            Some(Probe::Portal)
        } else {
            None
        },
    }
}

/// See `body_probe_status_step`.
pub fn probe_body_status(status: Option<u16>) -> (r: Option<Probe>)
    ensures
        r == body_probe_status_step(status),
{
    match status {
        None => Some(Probe::Fail),
        Some(code) => if status_is_redirection(code) {
            Some(Probe::Portal)
        } else {
            None
        },
    }
}

/// The second step of a body probe, once the body was (or failed to be) read: a body that
/// holds one of the markers is the genuine payload, any other body means an interception,
/// and a body that could not be read is a failure.
pub open spec fn body_probe_body_step(body: Option<Seq<char>>, needles: Seq<Seq<char>>) -> Probe {
    match body {
        None => Probe::Fail,
        Some(b) => if contains_any(b, needles) {
            Probe::Online
        } else {
            Probe::Portal
        },
    }
}

/// See `body_probe_body_step`.
pub fn probe_body_text(body: Option<&str>, needles: &[&str]) -> (r: Probe)
    ensures
        r == body_probe_body_step(
            match body {
                Some(b) => Some(b@),
                None => None,
            },
            views(needles@),
        ),
{
    match body {
        None => Probe::Fail,
        Some(b) => if body_has_marker(b, needles) {
            Probe::Online
        } else {
            Probe::Portal
        },
    }
}

/// A `generate_204` endpoint answers exactly 204 when reached directly; a success with a
/// login page or a redirect means a captive portal intercepted it; anything else, or no
/// response, is a failure.
pub open spec fn probe_204_spec(status: Option<u16>) -> Probe {
    match status {
        None => Probe::Fail,
        Some(code) => if code == NO_CONTENT {
            Probe::Online
        } else if is_redirection(code) || is_success(code) {
            Probe::Portal
        } else {
            Probe::Fail
        },
    }
}

/// See `probe_204_spec`.
pub fn probe_204(status: Option<u16>) -> (r: Probe)
    ensures
        r == probe_204_spec(status),
{
    match status {
        None => Probe::Fail,
        Some(code) => if code == NO_CONTENT {
            Probe::Online
        } else if status_is_redirection(code) || status_is_success(code) {
            Probe::Portal
        } else {
            Probe::Fail
        },
    }
}


/// Name fragments of loopback, virtual-switch, container-bridge and VPN-tunnel adapters.
pub open spec fn virtual_markers() -> Seq<Seq<char>> {
    seq![
        "loopback"@,
        "pseudo-interface"@,
        "isatap"@,
        "teredo"@,
        "6to4"@,
        "vethernet"@,
        "vmware"@,
        "virtualbox"@,
        "vbox"@,
        "hyper-v"@,
        "wsl"@,
        "docker"@,
        "tailscale"@,
        "wireguard"@,
        "zerotier"@,
        "openvpn"@,
        "ppp adapter"@,
        "tunnel"@,
    ]
}

/// An interface name, compared without regard to ASCII case, names none of the virtual
/// adapters: what is left is the physical Ethernet/Wi-Fi uplink(s).
pub open spec fn is_physical_uplink_name(name: Seq<char>) -> bool {
    !contains_any(ascii_lower_seq(name), virtual_markers())
}

fn virtual_adapter_markers() -> (v: Vec<&'static str>)
    ensures
        views(v@) == virtual_markers(),
{
    let v = vec![
        "loopback",
        "pseudo-interface",
        "isatap",
        "teredo",
        "6to4",
        "vethernet",
        "vmware",
        "virtualbox",
        "vbox",
        "hyper-v",
        "wsl",
        "docker",
        "tailscale",
        "wireguard",
        "zerotier",
        "openvpn",
        "ppp adapter",
        "tunnel",
    ];
    assert(views(v@) =~= virtual_markers());
    v
}

/// Heuristic: excludes loopback, virtual switches, container bridges and VPN tunnel adapters
/// by name, leaving the physical Ethernet/Wi-Fi uplink(s).
pub fn is_physical_uplink(name: &str) -> (r: bool)
    ensures
        r == is_physical_uplink_name(name@),
{
    let n = ascii_lowercase(name);
    let markers = virtual_adapter_markers();
    let mut i: usize = 0;
    while i < markers.len()
        invariant
            n@ == ascii_lower_seq(name@),
            views(markers@) == virtual_markers(),
            i <= markers@.len(),
            forall|k: int| 0 <= k < i ==> !contains(n@, #[trigger] virtual_markers()[k]),
        decreases markers.len() - i,
    {
        let m = chars_of(markers[i]);
        assert(views(markers@)[i as int] == markers@[i as int]@);
        if contains_chars(&n, &m) {
            return false;
        }
        i += 1;
    }
    true
}


/// One network interface's byte counters over a sampling interval, as the OS reported them.
pub struct InterfaceSample {
    pub name: String,
    /// Bytes received during the interval.
    pub received: u64,
    /// Bytes transmitted during the interval.
    pub transmitted: u64,
}

/// Bytes received over the physical uplinks among `s`.
pub open spec fn uplink_received(s: Seq<InterfaceSample>) -> nat
    decreases s.len(),
{
    if s.len() == 0 {
        0
    } else {
        uplink_received(s.drop_last()) + if is_physical_uplink_name(s.last().name@) {
            s.last().received as nat
        } else {
            0
        }
    }
}

/// Bytes transmitted over the physical uplinks among `s`.
pub open spec fn uplink_transmitted(s: Seq<InterfaceSample>) -> nat
    decreases s.len(),
{
    if s.len() == 0 {
        0
    } else {
        uplink_transmitted(s.drop_last()) + if is_physical_uplink_name(s.last().name@) {
            s.last().transmitted as nat
        } else {
            0
        }
    }
}

proof fn lemma_uplink_sums_grow(s: Seq<InterfaceSample>, i: int)
    requires
        0 <= i <= s.len(),
    ensures
        uplink_received(s.take(i)) <= uplink_received(s),
        uplink_transmitted(s.take(i)) <= uplink_transmitted(s),
    decreases s.len() - i,
{
    if i < s.len() {
        lemma_uplink_sums_grow(s, i + 1);
        assert(s.take(i + 1).drop_last() =~= s.take(i));
    } else {
        assert(s.take(i) =~= s);
    }
}

/// The bytes received and transmitted over the physical uplinks among `samples`, or `None`
/// where either total does not fit in a `u64`.
pub fn uplink_totals(samples: &[InterfaceSample]) -> (r: Option<(u64, u64)>)
    ensures
        r is Some <==> (uplink_received(samples@) <= u64::MAX && uplink_transmitted(samples@)
            <= u64::MAX),
        r matches Some(t) ==> t.0 == uplink_received(samples@) && t.1 == uplink_transmitted(
            samples@,
        ),
{
    let mut rx: u64 = 0;
    let mut tx: u64 = 0;
    let mut i: usize = 0;
    while i < samples.len()
        invariant
            i <= samples@.len(),
            rx == uplink_received(samples@.take(i as int)),
            tx == uplink_transmitted(samples@.take(i as int)),
        decreases samples.len() - i,
    {
        let sample = &samples[i];
        proof {
            assert(samples@.take(i + 1).drop_last() =~= samples@.take(i as int));
            lemma_uplink_sums_grow(samples@, i + 1);
        }
        if is_physical_uplink(sample.name.as_str()) {
            if sample.received > u64::MAX - rx || sample.transmitted > u64::MAX - tx {
                return None;
            }
            rx = rx + sample.received;
            tx = tx + sample.transmitted;
        }
        i += 1;
    }
    proof {
        assert(samples@.take(i as int) =~= samples@);
    }
    Some((rx, tx))
}

/// Live up/down rate, in bits per second (rounded down).
#[derive(Debug, Clone, Copy, PartialEq, Eq, Structural)]
pub struct Throughput {
    pub down_bps: u128,
    pub up_bps: u128,
}

/// The rate, in bits per second rounded down, at which `bytes` bytes pass in
/// `interval_micros` microseconds.
pub open spec fn bits_per_second(bytes: nat, interval_micros: nat) -> nat {
    (bytes * 8 * 1_000_000) / interval_micros
}

/// Aggregate rate over the physical uplink(s) among the interface samples taken over an
/// interval of `interval_micros` microseconds. A VPN's real bytes already traverse the
/// physical NIC, so tunnel adapters are not counted again; loopback and virtual switches add
/// idle noise.
pub fn sample_throughput(samples: &[InterfaceSample], interval_micros: u64) -> (t: Throughput)
    requires
        interval_micros > 0,
        uplink_received(samples@) <= u64::MAX,
        uplink_transmitted(samples@) <= u64::MAX,
    ensures
        t.down_bps == bits_per_second(uplink_received(samples@), interval_micros as nat),
        t.up_bps == bits_per_second(uplink_transmitted(samples@), interval_micros as nat),
{
    let (rx, tx) = uplink_totals(samples).unwrap();
    let rx_bits: u128 = (rx as u128) * 8;
    let tx_bits: u128 = (tx as u128) * 8;
    Throughput {
        down_bps: rx_bits * 1_000_000 / (interval_micros as u128),
        up_bps: tx_bits * 1_000_000 / (interval_micros as u128),
    }
}


/// How many bytes the on-demand speed test downloads.
pub const SPEED_TEST_BYTES: u64 = 25_000_000;

/// The address of the one-shot download of `bytes` bytes.
pub open spec fn speed_test_url_spec(bytes: u64) -> Seq<char> {
    "https://speed.cloudflare.com/__down?bytes="@ + decimal(bytes as nat)
}

/// The address of the one-shot download of `bytes` bytes.
pub fn speed_test_url(bytes: u64) -> (u: String)
    ensures
        u@ == speed_test_url_spec(bytes),
{
    let mut u = String::from_str("https://speed.cloudflare.com/__down?bytes=");
    push_decimal(&mut u, bytes as u128);
    u
}

/// The timed part of a transfer never counts as shorter than a millisecond.
pub const MIN_TRANSFER_MICROS: u64 = 1000;

/// Download throughput in tenths of a megabit per second, rounded to the nearest tenth:
/// `total_bytes` over `elapsed_micros` microseconds, the latter taken as at least a
/// millisecond.
pub open spec fn speed_test_deci_mbps_spec(total_bytes: nat, elapsed_micros: nat) -> int {
    let micros: nat = if elapsed_micros < MIN_TRANSFER_MICROS { MIN_TRANSFER_MICROS as nat } else { elapsed_micros };
    round_half_up((total_bytes * 80) as int, micros as int)
}

/// Throughput of a finished speed-test download, in tenths of a Mbps (decimal megabits).
pub fn speed_test_deci_mbps(total_bytes: u64, elapsed_micros: u64) -> (r: u64)
    ensures
        r == speed_test_deci_mbps_spec(total_bytes as nat, elapsed_micros as nat),
{
    let micros: u64 = if elapsed_micros < MIN_TRANSFER_MICROS { MIN_TRANSFER_MICROS } else { elapsed_micros };
    let bits10: u128 = (total_bytes as u128) * 80;
    let r: u128 = round_div(bits10, micros as u128);
    proof {
        assert(bits10 / (micros as u128) <= bits10 / 1000) by (nonlinear_arith)
            requires
                micros >= 1000,
                bits10 >= 0,
        ;
    }
    r as u64
}


/// One endpoint's genuine success payload makes the link Online, whatever the other
/// endpoints and the raw TCP connects gave: one provider's hiccup never reads as offline.
pub proof fn law_genuine_payload_means_online(http: Seq<Probe>, tcp: Seq<bool>)
    requires
        http.contains(Probe::Online),
    ensures
        reach_action(http, tcp) == ReachAction::Done(Reachability::Online),
{
}

/// The verdict depends only on which outcomes the endpoints gave, not on their order or on
/// how often each occurs.
pub proof fn law_probe_order_irrelevant(h1: Seq<Probe>, h2: Seq<Probe>, tcp: Seq<bool>)
    requires
        h1.to_set() == h2.to_set(),
    ensures
        reach_action(h1, tcp) == reach_action(h2, tcp),
{
    assert(h1.to_set().contains(Probe::Online) == h1.contains(Probe::Online));
    assert(h2.to_set().contains(Probe::Online) == h2.contains(Probe::Online));
    assert(h1.to_set().contains(Probe::Portal) == h1.contains(Probe::Portal));
    assert(h2.to_set().contains(Probe::Portal) == h2.contains(Probe::Portal));
}

/// "No internet" is the verdict only when every endpoint failed and both raw TCP connects
/// were tried and failed.
pub proof fn law_no_internet_means_everything_failed(http: Seq<Probe>, tcp: Seq<bool>)
    requires
        reach_action(http, tcp) == ReachAction::Done(Reachability::NoInternet),
    ensures
        forall|i: int| 0 <= i < http.len() ==> http[i] == Probe::Fail,
        forall|i: int| 0 <= i < tcp.len() ==> !tcp[i],
        tcp.len() >= 2,
{
    assert forall|i: int| 0 <= i < http.len() implies http[i] == Probe::Fail by {
        if http[i] == Probe::Online {
            assert(http.contains(Probe::Online));
        } else if http[i] == Probe::Portal {
            assert(http.contains(Probe::Portal));
        }
    }
    assert forall|i: int| 0 <= i < tcp.len() implies !tcp[i] by {
        if tcp[i] {
            assert(tcp.contains(true));
        }
    }
}

/// The raw TCP fallback is reached only when every endpoint failed; its addresses are tried
/// in order, each once, and no further one after the first that connects.
pub proof fn law_tcp_fallback_in_order(http: Seq<Probe>, tcp: Seq<bool>, i: usize)
    requires
        reach_action(http, tcp) == ReachAction::ProbeTcp(i),
    ensures
        i == tcp.len(),
        i < 2,
        !tcp.contains(true),
        forall|k: int| 0 <= k < http.len() ==> http[k] == Probe::Fail,
{
    assert forall|k: int| 0 <= k < http.len() implies http[k] == Probe::Fail by {
        if http[k] == Probe::Online {
            assert(http.contains(Probe::Online));
        } else if http[k] == Probe::Portal {
            assert(http.contains(Probe::Portal));
        }
    }
}


/// When no endpoint gave its genuine payload but at least one was intercepted, the verdict is
/// a captive portal, whatever the other endpoints and the TCP fallback gave; when every
/// endpoint failed, one working raw TCP connect also means a captive portal. Conversely,
/// Online is reported only on a genuine payload, and a captive portal only on an
/// interception or a working TCP connect.
pub proof fn law_interception_means_captive_portal(http: Seq<Probe>, tcp: Seq<bool>)
    ensures
        !http.contains(Probe::Online) && http.contains(Probe::Portal) ==> reach_action(http, tcp)
            == ReachAction::Done(Reachability::CaptivePortal),
        !http.contains(Probe::Online) && !http.contains(Probe::Portal) && tcp.contains(true)
            ==> reach_action(http, tcp) == ReachAction::Done(Reachability::CaptivePortal),
        reach_action(http, tcp) == ReachAction::Done(Reachability::Online) ==> http.contains(
            Probe::Online,
        ),
        reach_action(http, tcp) == ReachAction::Done(Reachability::CaptivePortal) ==> !http.contains(
            Probe::Online,
        ) && (http.contains(Probe::Portal) || tcp.contains(true)),
{
}

/// An interface is a physical uplink exactly when its ASCII-lowercased name contains none of
/// the fragments of loopback, virtual-switch, container-bridge and VPN-tunnel adapter names.
pub proof fn law_virtual_fragments_exclude(name: Seq<char>)
    ensures
        is_physical_uplink_name(name) <==> !{
            ||| contains(ascii_lower_seq(name), "loopback"@)
            ||| contains(ascii_lower_seq(name), "pseudo-interface"@)
            ||| contains(ascii_lower_seq(name), "isatap"@)
            ||| contains(ascii_lower_seq(name), "teredo"@)
            ||| contains(ascii_lower_seq(name), "6to4"@)
            ||| contains(ascii_lower_seq(name), "vethernet"@)
            ||| contains(ascii_lower_seq(name), "vmware"@)
            ||| contains(ascii_lower_seq(name), "virtualbox"@)
            ||| contains(ascii_lower_seq(name), "vbox"@)
            ||| contains(ascii_lower_seq(name), "hyper-v"@)
            ||| contains(ascii_lower_seq(name), "wsl"@)
            ||| contains(ascii_lower_seq(name), "docker"@)
            ||| contains(ascii_lower_seq(name), "tailscale"@)
            ||| contains(ascii_lower_seq(name), "wireguard"@)
            ||| contains(ascii_lower_seq(name), "zerotier"@)
            ||| contains(ascii_lower_seq(name), "openvpn"@)
            ||| contains(ascii_lower_seq(name), "ppp adapter"@)
            ||| contains(ascii_lower_seq(name), "tunnel"@)
        },
{
    assert(virtual_markers()[0] == "loopback"@);
    assert(virtual_markers()[1] == "pseudo-interface"@);
    assert(virtual_markers()[2] == "isatap"@);
    assert(virtual_markers()[3] == "teredo"@);
    assert(virtual_markers()[4] == "6to4"@);
    assert(virtual_markers()[5] == "vethernet"@);
    assert(virtual_markers()[6] == "vmware"@);
    assert(virtual_markers()[7] == "virtualbox"@);
    assert(virtual_markers()[8] == "vbox"@);
    assert(virtual_markers()[9] == "hyper-v"@);
    assert(virtual_markers()[10] == "wsl"@);
    assert(virtual_markers()[11] == "docker"@);
    assert(virtual_markers()[12] == "tailscale"@);
    assert(virtual_markers()[13] == "wireguard"@);
    assert(virtual_markers()[14] == "zerotier"@);
    assert(virtual_markers()[15] == "openvpn"@);
    assert(virtual_markers()[16] == "ppp adapter"@);
    assert(virtual_markers()[17] == "tunnel"@);
    assert(virtual_markers().len() == 18);
    if is_physical_uplink_name(name) {
        if contains(ascii_lower_seq(name), "loopback"@) {
            assert(contains(ascii_lower_seq(name), virtual_markers()[0]));
        }
        if contains(ascii_lower_seq(name), "pseudo-interface"@) {
            assert(contains(ascii_lower_seq(name), virtual_markers()[1]));
        }
        if contains(ascii_lower_seq(name), "isatap"@) {
            assert(contains(ascii_lower_seq(name), virtual_markers()[2]));
        }
        if contains(ascii_lower_seq(name), "teredo"@) {
            assert(contains(ascii_lower_seq(name), virtual_markers()[3]));
        }
        if contains(ascii_lower_seq(name), "6to4"@) {
            assert(contains(ascii_lower_seq(name), virtual_markers()[4]));
        }
        if contains(ascii_lower_seq(name), "vethernet"@) {
            assert(contains(ascii_lower_seq(name), virtual_markers()[5]));
        }
        if contains(ascii_lower_seq(name), "vmware"@) {
            assert(contains(ascii_lower_seq(name), virtual_markers()[6]));
        }
        if contains(ascii_lower_seq(name), "virtualbox"@) {
            assert(contains(ascii_lower_seq(name), virtual_markers()[7]));
        }
        if contains(ascii_lower_seq(name), "vbox"@) {
            assert(contains(ascii_lower_seq(name), virtual_markers()[8]));
        }
        if contains(ascii_lower_seq(name), "hyper-v"@) {
            assert(contains(ascii_lower_seq(name), virtual_markers()[9]));
        }
        if contains(ascii_lower_seq(name), "wsl"@) {
            assert(contains(ascii_lower_seq(name), virtual_markers()[10]));
        }
        if contains(ascii_lower_seq(name), "docker"@) {
            assert(contains(ascii_lower_seq(name), virtual_markers()[11]));
        }
        if contains(ascii_lower_seq(name), "tailscale"@) {
            assert(contains(ascii_lower_seq(name), virtual_markers()[12]));
        }
        if contains(ascii_lower_seq(name), "wireguard"@) {
            assert(contains(ascii_lower_seq(name), virtual_markers()[13]));
        }
        if contains(ascii_lower_seq(name), "zerotier"@) {
            assert(contains(ascii_lower_seq(name), virtual_markers()[14]));
        }
        if contains(ascii_lower_seq(name), "openvpn"@) {
            assert(contains(ascii_lower_seq(name), virtual_markers()[15]));
        }
        if contains(ascii_lower_seq(name), "ppp adapter"@) {
            assert(contains(ascii_lower_seq(name), virtual_markers()[16]));
        }
        if contains(ascii_lower_seq(name), "tunnel"@) {
            assert(contains(ascii_lower_seq(name), virtual_markers()[17]));
        }
    } else {
        let i = choose|i: int|
            0 <= i < virtual_markers().len() && contains(
                ascii_lower_seq(name),
                #[trigger] virtual_markers()[i],
            );
        assert(0 <= i < 18);
    }
}

proof fn lemma_ascii_lower_idempotent(c: char)
    ensures
        ascii_lower(ascii_lower(c)) == ascii_lower(c),
{
}

/// Whether an interface counts as a physical uplink does not depend on the ASCII case of its
/// name.
pub proof fn law_uplink_check_ignores_case(name: Seq<char>)
    ensures
        is_physical_uplink_name(ascii_lower_seq(name)) == is_physical_uplink_name(name),
{
    assert forall|k: int| 0 <= k < name.len() implies #[trigger] ascii_lower_seq(
        ascii_lower_seq(name),
    )[k] == ascii_lower_seq(name)[k] by {
        lemma_ascii_lower_idempotent(name[k]);
    }
    assert(ascii_lower_seq(ascii_lower_seq(name)) =~= ascii_lower_seq(name));
}

/// A virtual adapter's traffic adds nothing to the live rate.
pub proof fn law_virtual_adapters_not_counted(s: Seq<InterfaceSample>, x: InterfaceSample)
    requires
        !is_physical_uplink_name(x.name@),
    ensures
        uplink_received(s.push(x)) == uplink_received(s),
        uplink_transmitted(s.push(x)) == uplink_transmitted(s),
{
    assert(s.push(x).drop_last() =~= s);
}

/// The uplink byte totals of two groups of samples taken together are the sums of the
/// groups' totals: the aggregate does not depend on how the interfaces are grouped.
pub proof fn law_uplink_totals_add(a: Seq<InterfaceSample>, b: Seq<InterfaceSample>)
    ensures
        uplink_received(a + b) == uplink_received(a) + uplink_received(b),
        uplink_transmitted(a + b) == uplink_transmitted(a) + uplink_transmitted(b),
    decreases b.len(),
{
    if b.len() == 0 {
        assert(a + b =~= a);
    } else {
        law_uplink_totals_add(a, b.drop_last());
        assert((a + b).drop_last() =~= a + b.drop_last());
    }
}

/// A single interface counts with its own bytes exactly when it is a physical uplink.
pub proof fn law_uplink_totals_single(x: InterfaceSample)
    ensures
        uplink_received(seq![x]) == if is_physical_uplink_name(x.name@) {
            x.received as nat
        } else {
            0
        },
        uplink_transmitted(seq![x]) == if is_physical_uplink_name(x.name@) {
            x.transmitted as nat
        } else {
            0
        },
{
    let e = Seq::<InterfaceSample>::empty();
    assert(uplink_received(e) == 0 && uplink_transmitted(e) == 0);
    assert(seq![x].drop_last() =~= e);
    assert(seq![x].last() == x);
}

proof fn lemma_uplink_totals_remove(b: Seq<InterfaceSample>, j: int)
    requires
        0 <= j < b.len(),
    ensures
        uplink_received(b) == uplink_received(b.remove(j)) + uplink_received(seq![b[j]]),
        uplink_transmitted(b) == uplink_transmitted(b.remove(j)) + uplink_transmitted(
            seq![b[j]],
        ),
{
    let front = b.take(j);
    let back = b.skip(j + 1);
    assert(b =~= front + (seq![b[j]] + back));
    assert(b.remove(j) =~= front + back);
    law_uplink_totals_add(front, seq![b[j]] + back);
    law_uplink_totals_add(seq![b[j]], back);
    law_uplink_totals_add(front, back);
}

/// The aggregate over the physical uplinks does not depend on the order in which the OS
/// lists the interfaces.
pub proof fn law_uplink_totals_ignore_order(a: Seq<InterfaceSample>, b: Seq<InterfaceSample>)
    requires
        a.to_multiset() == b.to_multiset(),
    ensures
        uplink_received(a) == uplink_received(b),
        uplink_transmitted(a) == uplink_transmitted(b),
    decreases a.len(),
{
    broadcast use vstd::seq_lib::group_to_multiset_ensures;

    if a.len() == 0 {
        assert(a.to_multiset().len() == 0);
        assert(b.to_multiset().len() == 0);
        assert(b =~= a);
    } else {
        let x = a.last();
        let rest = a.drop_last();
        assert(a =~= rest.push(x));
        assert(a.to_multiset().count(x) > 0);
        assert(b.contains(x));
        let j = choose|j: int| 0 <= j < b.len() && b[j] == x;
        assert(b.remove(j).to_multiset() =~= rest.to_multiset());
        law_uplink_totals_ignore_order(rest, b.remove(j));
        lemma_uplink_totals_remove(b, j);
        law_uplink_totals_single(x);
    }
}

/// Which interface samples count towards the live rate.
pub open spec fn counts_as_uplink() -> spec_fn(InterfaceSample) -> bool {
    |x: InterfaceSample| is_physical_uplink_name(x.name@)
}

proof fn lemma_uplink_totals_of_uplinks_only(s: Seq<InterfaceSample>)
    ensures
        uplink_received(s.filter(counts_as_uplink())) == uplink_received(s),
        uplink_transmitted(s.filter(counts_as_uplink())) == uplink_transmitted(s),
    decreases s.len(),
{
    reveal(Seq::filter);
    if s.len() > 0 {
        lemma_uplink_totals_of_uplinks_only(s.drop_last());
        let f = s.drop_last().filter(counts_as_uplink());
        assert(f.push(s.last()).drop_last() =~= f);
    }
}

/// Two samplings whose physical uplinks report the same counters give the same totals,
/// whatever VPN tunnel, loopback or virtual-switch adapters report and in whatever order
/// the interfaces are listed: a VPN's traffic is never counted twice.
pub proof fn law_only_uplinks_count(a: Seq<InterfaceSample>, b: Seq<InterfaceSample>)
    requires
        a.filter(counts_as_uplink()).to_multiset() == b.filter(counts_as_uplink()).to_multiset(),
    ensures
        uplink_received(a) == uplink_received(b),
        uplink_transmitted(a) == uplink_transmitted(b),
{
    lemma_uplink_totals_of_uplinks_only(a);
    lemma_uplink_totals_of_uplinks_only(b);
    law_uplink_totals_ignore_order(a.filter(counts_as_uplink()), b.filter(counts_as_uplink()));
}

proof fn lemma_round_half_up_monotone(n1: int, n2: int, d: int)
    requires
        0 <= n1 <= n2,
        d > 0,
    ensures
        round_half_up(n1, d) <= round_half_up(n2, d),
{
    vstd::arithmetic::div_mod::lemma_div_is_ordered(2 * n1 + d, 2 * n2 + d, 2 * d);
}

/// More bytes in the same time never gives a lower speed-test result.
pub proof fn law_speed_test_grows_with_bytes(b1: nat, b2: nat, elapsed_micros: nat)
    requires
        b1 <= b2,
    ensures
        speed_test_deci_mbps_spec(b1, elapsed_micros) <= speed_test_deci_mbps_spec(
            b2,
            elapsed_micros,
        ),
{
    let micros: nat = if elapsed_micros < MIN_TRANSFER_MICROS { MIN_TRANSFER_MICROS as nat } else { elapsed_micros };
    assert(b1 * 80 <= b2 * 80) by (nonlinear_arith)
        requires
            b1 <= b2,
    ;
    lemma_round_half_up_monotone((b1 * 80) as int, (b2 * 80) as int, micros as int);
}


proof fn lemma_round_half_up_antitone(n: int, d1: int, d2: int)
    requires
        n >= 0,
        0 < d1 <= d2,
    ensures
        round_half_up(n, d2) <= round_half_up(n, d1),
{
    law_round_half_up_is_nearest(n, d1);
    law_round_half_up_is_nearest(n, d2);
    let r1 = round_half_up(n, d1);
    let r2 = round_half_up(n, d2);
    assert(r1 >= 0) by (nonlinear_arith)
        requires
            2 * n < (2 * r1 + 1) * d1,
            n >= 0,
            d1 > 0,
    ;
    assert(r2 <= r1) by (nonlinear_arith)
        requires
            (2 * r2 - 1) * d2 <= 2 * n,
            2 * n < (2 * r1 + 1) * d1,
            0 < d1 <= d2,
            r1 >= 0,
    ;
}

/// The speed-test rate is the bytes over the whole elapsed time, in tenths of a Mbps rounded
/// to the nearest: `r - 1/2 <= 80 * bytes / micros < r + 1/2`, where `micros` is the elapsed
/// time, or a millisecond for anything shorter. The same bytes over a longer time never give
/// a higher rate.
pub proof fn law_speed_test_is_bytes_over_time(bytes: nat, e1: nat, e2: nat)
    ensures
        e1 >= 1000 ==> (2 * speed_test_deci_mbps_spec(bytes, e1) - 1) * e1 <= 160 * bytes,
        e1 >= 1000 ==> 160 * bytes < (2 * speed_test_deci_mbps_spec(bytes, e1) + 1) * e1,
        e1 < 1000 ==> speed_test_deci_mbps_spec(bytes, e1) == speed_test_deci_mbps_spec(bytes, 1000),
        e1 <= e2 ==> speed_test_deci_mbps_spec(bytes, e2) <= speed_test_deci_mbps_spec(bytes, e1),
{
    let m1: int = if e1 < 1000 { 1000 } else { e1 as int };
    let m2: int = if e2 < 1000 { 1000 } else { e2 as int };
    law_round_half_up_is_nearest((bytes * 80) as int, m1);
    if e1 <= e2 {
        lemma_round_half_up_antitone((bytes * 80) as int, m1, m2);
    }
}

/// The live rate is the uplink bytes over the interval, in bits per second rounded down:
/// `rate * micros <= 8_000_000 * bytes < (rate + 1) * micros`.
pub proof fn law_throughput_is_bits_over_time(bytes: nat, micros: nat)
    requires
        micros > 0,
    ensures
        bits_per_second(bytes, micros) * micros <= 8_000_000 * bytes,
        8_000_000 * bytes < (bits_per_second(bytes, micros) + 1) * micros,
{
    let n = bytes * 8 * 1_000_000;
    vstd::arithmetic::div_mod::lemma_fundamental_div_mod(n as int, micros as int);
    let q = n / micros;
    let r = n % micros;
    assert(q * micros <= n < (q + 1) * micros) by (nonlinear_arith)
        requires
            n == micros * q + r,
            0 <= r < micros,
    ;
}

/// A `generate_204` probe is Online exactly on status 204, intercepted exactly on the other
/// 2xx and 3xx statuses, and a failure on every other status or on no response.
pub proof fn law_probe_204_outcomes(code: u16)
    ensures
        probe_204_spec(Some(code)) == Probe::Online <==> code == 204,
        probe_204_spec(Some(code)) == Probe::Portal <==> code != 204 && 200 <= code < 400,
        probe_204_spec(Some(code)) == Probe::Fail <==> !(200 <= code < 400),
        probe_204_spec(None) == Probe::Fail,
{
}

/// A body probe stops at a redirect (intercepted) or at no response (failure), and reads
/// the body on every other status; a body holding a marker is the genuine payload, another
/// body an interception, and an unreadable body a failure.
pub proof fn law_body_probe_outcomes(
    code: u16,
    body: Seq<char>,
    needles: Seq<Seq<char>>,
    i: int,
)
    ensures
        body_probe_status_step(None) == Some(Probe::Fail),
        body_probe_status_step(Some(code)) == Some(Probe::Portal) <==> 300 <= code < 400,
        body_probe_status_step(Some(code)) is None <==> !(300 <= code < 400),
        0 <= i < needles.len() && contains(body, needles[i]) ==> body_probe_body_step(
            Some(body),
            needles,
        ) == Probe::Online,
        (forall|k: int| 0 <= k < needles.len() ==> !contains(body, #[trigger] needles[k]))
            ==> body_probe_body_step(Some(body), needles) == Probe::Portal,
        body_probe_body_step(None, needles) == Probe::Fail,
{
}

} // verus!
