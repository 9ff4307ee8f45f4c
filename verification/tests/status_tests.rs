use netcheck::status::tier_from_name;
use netcheck::arith::round_div;
use netcheck::net::{Reachability, Throughput};
use netcheck::status::{classify, tray_icon_for, Color, Monitor, StatusPayload, Tier, TrayIcon};

fn idle() -> Throughput {
    Throughput { down_bps: 0, up_bps: 0 }
}

#[test]
fn rounding_to_nearest() {
    assert_eq!(round_div(14, 10), 1);
    assert_eq!(round_div(15, 10), 2);
    assert_eq!(round_div(25, 10), 3);
    assert_eq!(round_div(0, 7), 0);
    assert_eq!(round_div(u128::MAX, 1), u128::MAX);
    assert_eq!(round_div(u128::MAX, 2), u128::MAX / 2 + 1);
}

#[test]
fn offline_and_portal_win_over_speed() {
    let p = classify(Reachability::NoInternet, None, idle(), Some(9000));
    assert_eq!(p.tier, Tier::Offline);
    assert_eq!(p.state(), "Offline");
    assert_eq!(p.tier_name(), "offline");
    assert_eq!(p.color(), "red");
    let p = classify(Reachability::CaptivePortal, None, idle(), Some(9000));
    assert_eq!(p.state(), "Sign-in needed");
    assert_eq!(p.tier_name(), "portal");
    assert_eq!(p.color(), "amber");
}

#[test]
fn speed_test_picks_the_tier() {
    let fast = classify(Reachability::Online, None, idle(), Some(2000));
    assert_eq!((fast.state(), fast.tier_name(), fast.color()), ("Fast", "fast", "green"));
    let normal = classify(Reachability::Online, None, idle(), Some(1999));
    assert_eq!((normal.state(), normal.tier_name(), normal.color()), ("Online", "normal", "green"));
    let normal = classify(Reachability::Online, None, idle(), Some(500));
    assert_eq!(normal.tier, Tier::Normal);
    let slow = classify(Reachability::Online, None, idle(), Some(499));
    assert_eq!((slow.state(), slow.tier_name(), slow.color()), ("Slow", "slow", "amber"));
}

#[test]
fn untested_link_reads_online() {
    let p = classify(Reachability::Online, None, idle(), None);
    assert_eq!(p.tier, Tier::Normal);
    assert_eq!(p.state(), "Online");
}

#[test]
fn classify_rounds_numbers() {
    let tp = Throughput { down_bps: 1_234_567, up_bps: 50_000 };
    let p = classify(Reachability::Online, Some(12_345), tp, Some(2500));
    assert_eq!(
        p,
        StatusPayload {
            tier: Tier::Fast,
            latency_deci_ms: Some(123),
            down_deci_mbps: 12,
            up_deci_mbps: 1,
            test_deci_mbps: Some(2500),
        }
    );
}

#[test]
fn checking_status() {
    let p = StatusPayload::checking();
    assert_eq!((p.state(), p.tier_name(), p.color()), ("Checking", "checking", "slate"));
    assert_eq!(p.latency_deci_ms, None);
    assert_eq!(p.down_deci_mbps, 0);
    assert_eq!(p.test_deci_mbps, None);
    assert_eq!(p.tooltip(), "NetCheck — Checking");
}

#[test]
fn tooltip_with_numbers() {
    let tp = Throughput { down_bps: 1_234_567, up_bps: 0 };
    let p = classify(Reachability::Online, Some(12_345), tp, Some(2500));
    assert_eq!(p.tooltip(), "NetCheck — Fast · 12 ms · 1.2 Mbps");
}

#[test]
fn tooltip_rounds_half_milliseconds_up() {
    let p = classify(Reachability::Online, Some(2_500), idle(), None);
    assert_eq!(p.latency_deci_ms, Some(25));
    assert_eq!(p.tooltip(), "NetCheck — Online · 3 ms");
}

#[test]
fn tooltip_hides_rates_under_a_tenth() {
    let tp = Throughput { down_bps: 49_999, up_bps: 0 };
    let p = classify(Reachability::CaptivePortal, None, tp, None);
    assert_eq!(p.down_deci_mbps, 0);
    assert_eq!(p.tooltip(), "NetCheck — Sign-in needed");
    let tp = Throughput { down_bps: 1_000_000_000, up_bps: 0 };
    let p = classify(Reachability::Online, None, tp, None);
    assert_eq!(p.tooltip(), "NetCheck — Online · 1000.0 Mbps");
}

#[test]
fn tray_icons() {
    assert_eq!(tray_icon_for("red"), TrayIcon::Red);
    assert_eq!(tray_icon_for("amber"), TrayIcon::Amber);
    assert_eq!(tray_icon_for("slate"), TrayIcon::Slate);
    assert_eq!(tray_icon_for("green"), TrayIcon::Green);
    assert_eq!(tray_icon_for("blue"), TrayIcon::Green);
    assert_eq!(tray_icon_for("Red"), TrayIcon::Green);
    assert_eq!(tray_icon_for(Color::Red.name()), TrayIcon::Red);
}

#[test]
fn monitor_starts_checking() {
    let m = Monitor::new();
    assert_eq!(m.get_current_status(), StatusPayload::checking());
    assert_eq!(m.recent_test(0), None);
}

#[test]
fn speed_test_counts_for_five_minutes() {
    let mut m = Monitor::new();
    m.record_speed_test(1234, 10_000_000);
    assert_eq!(m.recent_test(10_000_000), Some(1234));
    assert_eq!(m.recent_test(309_999_999), Some(1234));
    assert_eq!(m.recent_test(310_000_000), None);
    // A clock reading before the test counts as no time passed.
    assert_eq!(m.recent_test(0), Some(1234));
}

#[test]
fn tick_publishes_and_keeps_latest() {
    let mut m = Monitor::new();
    m.record_speed_test(300, 0);
    let p = m.monitor_tick(Reachability::Online, Some(20_000), idle(), 1_000_000);
    assert_eq!(p.tier, Tier::Slow);
    assert_eq!(p.test_deci_mbps, Some(300));
    assert_eq!(m.get_current_status(), p);
    let q = m.monitor_tick(Reachability::Online, None, idle(), 400_000_000);
    assert_eq!(q.tier, Tier::Normal);
    assert_eq!(q.test_deci_mbps, None);
    assert_eq!(m.get_current_status(), q);
    assert_eq!(m.last_test_mbps, Some(300));
}

#[test]
fn tier_names_round_trip() {
    for t in [Tier::Fast, Tier::Normal, Tier::Slow, Tier::Portal, Tier::Offline, Tier::Checking] {
        assert_eq!(tier_from_name(t.name()), Some(t));
    }
    assert_eq!(tier_from_name("idle"), None);
    assert_eq!(tier_from_name("Fast"), None);
}
