use netcheck::net::uplink_totals;
use netcheck::net::{
    check_reachability, is_physical_uplink, probe_204, probe_body_status, probe_body_text,
    sample_throughput, speed_test_deci_mbps, speed_test_url, status_is_redirection,
    status_is_success, tcp_fallback_addr, InterfaceSample, Probe, ReachAction, Reachability,
    Throughput, SPEED_TEST_BYTES,
};

fn sample(name: &str, received: u64, transmitted: u64) -> InterfaceSample {
    InterfaceSample { name: name.to_string(), received, transmitted }
}

#[test]
fn physical_uplinks_are_kept() {
    assert!(is_physical_uplink("Ethernet"));
    assert!(is_physical_uplink("Wi-Fi"));
    assert!(is_physical_uplink("eth0"));
    assert!(is_physical_uplink(""));
}

#[test]
fn virtual_adapters_are_excluded() {
    assert!(!is_physical_uplink("Loopback Pseudo-Interface 1"));
    assert!(!is_physical_uplink("vEthernet (WSL)"));
    assert!(!is_physical_uplink("Tailscale"));
    assert!(!is_physical_uplink("PPP adapter Office VPN"));
    assert!(!is_physical_uplink("docker0"));
    assert!(!is_physical_uplink("VirtualBox Host-Only Network"));
    assert!(!is_physical_uplink("Teredo Tunneling Pseudo-Interface"));
    assert!(!is_physical_uplink("WIREGUARD"));
}

#[test]
fn uplink_check_ignores_case() {
    assert_eq!(is_physical_uplink("DOCKER"), is_physical_uplink("docker"));
    assert_eq!(is_physical_uplink("ETHERNET"), is_physical_uplink("ethernet"));
}

#[test]
fn any_genuine_payload_is_online() {
    let http = [Probe::Fail, Probe::Online, Probe::Portal];
    assert_eq!(check_reachability(&http, &[]), ReachAction::Done(Reachability::Online));
}

#[test]
fn interception_without_payload_is_portal() {
    let http = [Probe::Fail, Probe::Portal, Probe::Fail];
    assert_eq!(check_reachability(&http, &[]), ReachAction::Done(Reachability::CaptivePortal));
}

#[test]
fn all_http_failed_asks_for_tcp_in_order() {
    let http = [Probe::Fail, Probe::Fail, Probe::Fail];
    assert_eq!(check_reachability(&http, &[]), ReachAction::ProbeTcp(0));
    assert_eq!(check_reachability(&http, &[false]), ReachAction::ProbeTcp(1));
    assert_eq!(tcp_fallback_addr(0), "1.1.1.1:443");
    assert_eq!(tcp_fallback_addr(1), "8.8.8.8:443");
}

#[test]
fn tcp_fallback_success_is_portal() {
    let http = [Probe::Fail, Probe::Fail, Probe::Fail];
    assert_eq!(check_reachability(&http, &[true]), ReachAction::Done(Reachability::CaptivePortal));
    assert_eq!(
        check_reachability(&http, &[false, true]),
        ReachAction::Done(Reachability::CaptivePortal)
    );
}

#[test]
fn everything_failed_is_no_internet() {
    let http = [Probe::Fail, Probe::Fail, Probe::Fail];
    assert_eq!(
        check_reachability(&http, &[false, false]),
        ReachAction::Done(Reachability::NoInternet)
    );
}

#[test]
fn status_classes() {
    assert!(status_is_redirection(301));
    assert!(status_is_redirection(399));
    assert!(!status_is_redirection(400));
    assert!(!status_is_redirection(299));
    assert!(status_is_success(200));
    assert!(!status_is_success(300));
}

#[test]
fn probe_204_outcomes() {
    assert_eq!(probe_204(Some(204)), Probe::Online);
    assert_eq!(probe_204(Some(200)), Probe::Portal);
    assert_eq!(probe_204(Some(302)), Probe::Portal);
    assert_eq!(probe_204(Some(500)), Probe::Fail);
    assert_eq!(probe_204(Some(404)), Probe::Fail);
    assert_eq!(probe_204(None), Probe::Fail);
}

#[test]
fn body_probe_status_outcomes() {
    assert_eq!(probe_body_status(None), Some(Probe::Fail));
    assert_eq!(probe_body_status(Some(302)), Some(Probe::Portal));
    assert_eq!(probe_body_status(Some(200)), None);
    assert_eq!(probe_body_status(Some(404)), None);
}

#[test]
fn body_probe_text_outcomes() {
    let trace = "fl=123f45\nh=cloudflare.com\nip=203.0.113.9\nts=1700000000.1\n";
    assert_eq!(probe_body_text(Some(trace), &["h=", "ip="]), Probe::Online);
    assert_eq!(probe_body_text(Some("<html>Please log in</html>"), &["h=", "ip="]), Probe::Portal);
    let apple = "<HTML><HEAD><TITLE>Success</TITLE></HEAD><BODY>Success</BODY></HTML>";
    assert_eq!(probe_body_text(Some(apple), &["Success"]), Probe::Online);
    assert_eq!(probe_body_text(Some("success"), &["Success"]), Probe::Portal);
    assert_eq!(probe_body_text(None, &["Success"]), Probe::Fail);
    assert_eq!(probe_body_text(Some(""), &[]), Probe::Portal);
}

#[test]
fn throughput_counts_only_physical_uplinks() {
    let samples = vec![
        sample("Ethernet", 125_000, 12_500),
        sample("Loopback Pseudo-Interface 1", 1_000_000_000, 1_000_000_000),
        sample("Wi-Fi", 125_000, 0),
    ];
    let t = sample_throughput(&samples, 1_000_000);
    assert_eq!(t, Throughput { down_bps: 2_000_000, up_bps: 100_000 });
}

#[test]
fn throughput_over_half_a_second() {
    let samples = vec![sample("eth0", 1000, 3)];
    let t = sample_throughput(&samples, 500_000);
    assert_eq!(t.down_bps, 16_000);
    assert_eq!(t.up_bps, 48);
}

#[test]
fn throughput_of_nothing_is_zero() {
    let t = sample_throughput(&[], 1_000_000);
    assert_eq!(t, Throughput { down_bps: 0, up_bps: 0 });
}

#[test]
fn speed_test_address() {
    assert_eq!(
        speed_test_url(SPEED_TEST_BYTES),
        "https://speed.cloudflare.com/__down?bytes=25000000"
    );
    assert_eq!(speed_test_url(0), "https://speed.cloudflare.com/__down?bytes=0");
}

#[test]
fn speed_test_rate() {
    // 25 MB in 2 s is 100 Mbps.
    assert_eq!(speed_test_deci_mbps(25_000_000, 2_000_000), 1000);
    // A transfer never counts as shorter than a millisecond.
    assert_eq!(speed_test_deci_mbps(25_000_000, 0), 2_000_000);
    assert_eq!(speed_test_deci_mbps(25_000_000, 999), 2_000_000);
    // 1 MB in 3 s is 2.666.. Mbps, shown as 2.7.
    assert_eq!(speed_test_deci_mbps(1_000_000, 3_000_000), 27);
    assert_eq!(speed_test_deci_mbps(0, 3_000_000), 0);
}

#[test]
fn speed_test_grows_with_bytes() {
    assert!(speed_test_deci_mbps(1_000_000, 3_000_000) <= speed_test_deci_mbps(2_000_000, 3_000_000));
}

#[test]
fn uplink_totals_skip_virtual_adapters() {
    let samples = vec![sample("Ethernet", 10, 20), sample("vEthernet (Default Switch)", 5, 5)];
    assert_eq!(uplink_totals(&samples), Some((10, 20)));
}

#[test]
fn uplink_totals_report_overflow() {
    let samples = vec![sample("Ethernet", u64::MAX, 0), sample("Wi-Fi", 1, 0)];
    assert_eq!(uplink_totals(&samples), None);
    let samples = vec![sample("Ethernet", u64::MAX, 0), sample("docker0", 1, 0)];
    assert_eq!(uplink_totals(&samples), Some((u64::MAX, 0)));
}

#[test]
fn throughput_ignores_interface_order_and_virtual_adapters() {
    let a = vec![
        sample("Ethernet", 1000, 100),
        sample("Tailscale", 999, 999),
        sample("Wi-Fi", 500, 50),
    ];
    let b = vec![
        sample("Loopback Pseudo-Interface 1", 7, 7),
        sample("Wi-Fi", 500, 50),
        sample("vEthernet (WSL)", 3, 3),
        sample("Ethernet", 1000, 100),
    ];
    assert_eq!(sample_throughput(&a, 1_000_000), sample_throughput(&b, 1_000_000));
}
