//! What the tray and the flyout show: the status classification, its labels and tooltip,
//! and the monitor's state between polls.
use vstd::prelude::*;

use crate::arith::{law_round_half_up_is_nearest, round_div, round_half_up};
use crate::net::{Reachability, Throughput};
use crate::text::{contains, decimal, occurs_at, push_decimal, str_eq};

verus! {

broadcast use vstd::string::group_string_axioms;

/// The machine tier of a status.
#[derive(Debug, Clone, Copy, PartialEq, Eq, Structural)]
pub enum Tier {
    Fast,
    Normal,
    Slow,
    Portal,
    Offline,
    Checking,
}

/// Status colour; it also picks the tray icon.
#[derive(Debug, Clone, Copy, PartialEq, Eq, Structural)]
pub enum Color {
    Green,
    Amber,
    Red,
    Slate,
}

/// The human-readable state of a tier.
pub open spec fn tier_state(t: Tier) -> Seq<char> {
    match t {
        Tier::Fast => "Fast"@,
        Tier::Normal => "Online"@,
        Tier::Slow => "Slow"@,
        Tier::Portal => "Sign-in needed"@,
        Tier::Offline => "Offline"@,
        Tier::Checking => "Checking"@,
    }
}

/// The machine name of a tier.
pub open spec fn tier_name(t: Tier) -> Seq<char> {
    match t {
        Tier::Fast => "fast"@,
        Tier::Normal => "normal"@,
        Tier::Slow => "slow"@,
        Tier::Portal => "portal"@,
        Tier::Offline => "offline"@,
        Tier::Checking => "checking"@,
    }
}

/// The colour of a tier: green is alive, amber is slow or a sign-in wall, red is no real
/// internet, slate is checking.
pub open spec fn tier_color(t: Tier) -> Color {
    match t {
        Tier::Fast => Color::Green,
        Tier::Normal => Color::Green,
        Tier::Slow => Color::Amber,
        Tier::Portal => Color::Amber,
        Tier::Offline => Color::Red,
        Tier::Checking => Color::Slate,
    }
}

/// The name of a colour.
pub open spec fn color_name(c: Color) -> Seq<char> {
    match c {
        Color::Green => "green"@,
        Color::Amber => "amber"@,
        Color::Red => "red"@,
        Color::Slate => "slate"@,
    }
}

impl Tier {
    /// The human-readable state ("Fast", "Online", "Slow", "Sign-in needed", "Offline",
    /// "Checking").
    pub fn state(self) -> (s: &'static str)
        ensures
            s@ == tier_state(self),
    {
        match self {
            Tier::Fast => "Fast",
            Tier::Normal => "Online",
            Tier::Slow => "Slow",
            Tier::Portal => "Sign-in needed",
            Tier::Offline => "Offline",
            Tier::Checking => "Checking",
        }
    }

    /// The machine name (fast|normal|slow|portal|offline|checking).
    pub fn name(self) -> (s: &'static str)
        ensures
            s@ == tier_name(self),
    {
        match self {
            Tier::Fast => "fast",
            Tier::Normal => "normal",
            Tier::Slow => "slow",
            Tier::Portal => "portal",
            Tier::Offline => "offline",
            Tier::Checking => "checking",
        }
    }

    /// The colour (green|amber|red|slate).
    pub fn color(self) -> (c: Color)
        ensures
            c == tier_color(self),
    {
        match self {
            Tier::Fast => Color::Green,
            Tier::Normal => Color::Green,
            Tier::Slow => Color::Amber,
            Tier::Portal => Color::Amber,
            Tier::Offline => Color::Red,
            Tier::Checking => Color::Slate,
        }
    }
}

/// The tier with the machine name `name`, if any.
pub open spec fn tier_from_name_spec(name: Seq<char>) -> Option<Tier> {
    if name == tier_name(Tier::Fast) {
        Some(Tier::Fast)
    } else if name == tier_name(Tier::Normal) {
        Some(Tier::Normal)
    } else if name == tier_name(Tier::Slow) {
        Some(Tier::Slow)
    } else if name == tier_name(Tier::Portal) {
        Some(Tier::Portal)
    } else if name == tier_name(Tier::Offline) {
        Some(Tier::Offline)
    } else if name == tier_name(Tier::Checking) {
        Some(Tier::Checking)
    } else {
        None
    }
}

/// The tier with the machine name `name`, if any.
pub fn tier_from_name(name: &str) -> (t: Option<Tier>)
    ensures
        t == tier_from_name_spec(name@),
{
    if str_eq(name, Tier::Fast.name()) {
        Some(Tier::Fast)
    } else if str_eq(name, Tier::Normal.name()) {
        Some(Tier::Normal)
    } else if str_eq(name, Tier::Slow.name()) {
        Some(Tier::Slow)
    } else if str_eq(name, Tier::Portal.name()) {
        Some(Tier::Portal)
    } else if str_eq(name, Tier::Offline.name()) {
        Some(Tier::Offline)
    } else if str_eq(name, Tier::Checking.name()) {
        Some(Tier::Checking)
    } else {
        None
    }
}

impl Color {
    /// The colour's name.
    pub fn name(self) -> (s: &'static str)
        ensures
            s@ == color_name(self),
    {
        match self {
            Color::Green => "green",
            Color::Amber => "amber",
            Color::Red => "red",
            Color::Slate => "slate",
        }
    }
}

/// The coloured tray globe to show.
#[derive(Debug, Clone, Copy, PartialEq, Eq, Structural)]
pub enum TrayIcon {
    Green,
    Amber,
    Red,
    Slate,
}

/// The tray globe for a colour name: red, amber and slate have their own globe, and any
/// other name shows the green one.
pub open spec fn tray_icon_spec(color: Seq<char>) -> TrayIcon {
    if color == "red"@ {
        TrayIcon::Red
    } else if color == "amber"@ {
        TrayIcon::Amber
    } else if color == "slate"@ {
        TrayIcon::Slate
    } else {
        TrayIcon::Green
    }
}

/// See `tray_icon_spec`.
pub fn tray_icon_for(color: &str) -> (i: TrayIcon)
    ensures
        i == tray_icon_spec(color@),
{
    if str_eq(color, "red") {
        TrayIcon::Red
    } else if str_eq(color, "amber") {
        TrayIcon::Amber
    } else if str_eq(color, "slate") {
        TrayIcon::Slate
    } else {
        TrayIcon::Green
    }
}


/// A recent speed test at or above this many tenths of a Mbps (200 Mbps) reads as fast.
pub const FAST_DECI_MBPS: u64 = 2000;

/// A recent speed test at or above this many tenths of a Mbps (50 Mbps) reads as normal;
/// below, as slow.
pub const NORMAL_DECI_MBPS: u64 = 500;

/// Latency is reported in tenths of a millisecond; this many microseconds make one tenth.
pub const MICROS_PER_DECI_MS: u64 = 100;

/// Rates are reported in tenths of a Mbps; this many bits per second make one tenth.
pub const BPS_PER_DECI_MBPS: u128 = 100_000;

/// What the tray and the flyout render. Latency is in tenths of a millisecond, rates in
/// tenths of a megabit per second (decimal), each rounded to the nearest tenth.
#[derive(Debug, Clone, Copy, PartialEq, Eq, Structural)]
pub struct StatusPayload {
    pub tier: Tier,
    pub latency_deci_ms: Option<u64>,
    /// Live passive download rate (drives the globe spin).
    pub down_deci_mbps: u128,
    pub up_deci_mbps: u128,
    /// The last on-demand speed test, if recent.
    pub test_deci_mbps: Option<u64>,
}

/// The tier for a probe result and the recent speed test, if any: reachability problems
/// always win; when reachable, a recent speed test picks the tier, and without one the
/// status is a healthy "Online" rather than idle passive traffic misread as slow.
pub open spec fn tier_for(reach: Reachability, recent_test: Option<u64>) -> Tier {
    match reach {
        Reachability::NoInternet => Tier::Offline,
        Reachability::CaptivePortal => Tier::Portal,
        Reachability::Online => match recent_test {
            Some(mbps) => if mbps >= FAST_DECI_MBPS {
                Tier::Fast
            } else if mbps >= NORMAL_DECI_MBPS {
                Tier::Normal
            } else {
                Tier::Slow
            },
            None => Tier::Normal,
        },
    }
}

/// A latency of `micros` microseconds in tenths of a millisecond, rounded to the nearest.
pub open spec fn latency_deci_ms(micros: u64) -> int {
    round_half_up(micros as int, MICROS_PER_DECI_MS as int)
}

/// A rate of `bps` bits per second in tenths of a Mbps, rounded to the nearest.
pub open spec fn rate_deci_mbps(bps: u128) -> int {
    round_half_up(bps as int, BPS_PER_DECI_MBPS as int)
}

/// The status for a probe result, a measured latency, the live rates and the recent speed
/// test, if any.
pub open spec fn classify_spec(
    reach: Reachability,
    latency_micros: Option<u64>,
    tp: Throughput,
    recent_test: Option<u64>,
) -> StatusPayload {
    StatusPayload {
        tier: tier_for(reach, recent_test),
        latency_deci_ms: match latency_micros {
            Some(us) => Some(latency_deci_ms(us) as u64),
            None => None,
        },
        down_deci_mbps: rate_deci_mbps(tp.down_bps) as u128,
        up_deci_mbps: rate_deci_mbps(tp.up_bps) as u128,
        test_deci_mbps: recent_test,
    }
}

/// Maps a probe result, latency (in microseconds), live rates and any recent speed test
/// (in tenths of a Mbps) to a status.
pub fn classify(
    reach: Reachability,
    latency_micros: Option<u64>,
    tp: Throughput,
    recent_test: Option<u64>,
) -> (p: StatusPayload)
    ensures
        p == classify_spec(reach, latency_micros, tp, recent_test),
        p.latency_deci_ms matches Some(l) ==> l == latency_deci_ms(latency_micros->Some_0),
        p.down_deci_mbps == rate_deci_mbps(tp.down_bps),
        p.up_deci_mbps == rate_deci_mbps(tp.up_bps),
{
    let tier = match reach {
        Reachability::NoInternet => Tier::Offline,
        Reachability::CaptivePortal => Tier::Portal,
        Reachability::Online => match recent_test {
            Some(mbps) => if mbps >= FAST_DECI_MBPS {
                Tier::Fast
            } else if mbps >= NORMAL_DECI_MBPS {
                Tier::Normal
            } else {
                Tier::Slow
            },
            None => Tier::Normal,
        },
    };
    let latency = match latency_micros {
        Some(us) => {
            let l: u128 = round_div(us as u128, MICROS_PER_DECI_MS as u128);
            proof {
                assert(us as u128 / 100 + 1 <= u64::MAX);
            }
            Some(l as u64)
        },
        None => None,
    };
    let down: u128 = round_div(tp.down_bps, BPS_PER_DECI_MBPS);
    let up: u128 = round_div(tp.up_bps, BPS_PER_DECI_MBPS);
    StatusPayload {
        tier,
        latency_deci_ms: latency,
        down_deci_mbps: down,
        up_deci_mbps: up,
        test_deci_mbps: recent_test,
    }
}

impl StatusPayload {
    /// The status shown before the first probe completes: "Checking", slate, no numbers.
    pub open spec fn checking_spec() -> StatusPayload {
        StatusPayload {
            tier: Tier::Checking,
            latency_deci_ms: None,
            down_deci_mbps: 0,
            up_deci_mbps: 0,
            test_deci_mbps: None,
        }
    }

    /// See `checking_spec`.
    pub fn checking() -> (p: StatusPayload)
        ensures
            p == Self::checking_spec(),
    {
        StatusPayload {
            tier: Tier::Checking,
            latency_deci_ms: None,
            down_deci_mbps: 0,
            up_deci_mbps: 0,
            test_deci_mbps: None,
        }
    }

    /// The human-readable state.
    pub fn state(&self) -> (s: &'static str)
        ensures
            s@ == tier_state(self.tier),
    {
        self.tier.state()
    }

    /// The machine tier name.
    pub fn tier_name(&self) -> (s: &'static str)
        ensures
            s@ == tier_name(self.tier),
    {
        self.tier.name()
    }

    /// The colour name, which also picks the tray icon.
    pub fn color(&self) -> (s: &'static str)
        ensures
            s@ == color_name(tier_color(self.tier)),
    {
        self.tier.color().name()
    }

    /// The tooltip text: "NetCheck — <state>", then " · <ms> ms" with the latency rounded
    /// to whole milliseconds when there is one, then " · <x.y> Mbps" with the download rate
    /// when it is at least 0.1 Mbps.
    pub open spec fn tooltip_spec(self) -> Seq<char> {
        "NetCheck — "@ + tier_state(self.tier) + match self.latency_deci_ms {
            Some(l) => " · "@ + decimal(round_half_up(l as int, 10) as nat) + " ms"@,
            None => Seq::empty(),
        } + if self.down_deci_mbps >= 1 {
            " · "@ + decimal((self.down_deci_mbps / 10) as nat) + "."@ + decimal(
                (self.down_deci_mbps % 10) as nat,
            ) + " Mbps"@
        } else {
            Seq::empty()
        }
    }

    /// See `tooltip_spec`.
    pub fn tooltip(&self) -> (s: String)
        ensures
            s@ == self.tooltip_spec(),
    {
        let mut s = String::from_str("NetCheck — ");
        s.append(self.state());
        let ghost head = s@;
        match self.latency_deci_ms {
            Some(l) => {
                s.append(" · ");
                push_decimal(&mut s, round_div(l as u128, 10));
                s.append(" ms");
            },
            None => {},
        }
        let ghost mid = s@;
        if self.down_deci_mbps >= 1 {
            s.append(" · ");
            push_decimal(&mut s, self.down_deci_mbps / 10);
            s.append(".");
            push_decimal(&mut s, self.down_deci_mbps % 10);
            s.append(" Mbps");
        }
        assert(s@ =~= self.tooltip_spec());
        s
    }
}


/// A speed test counts as recent for this many microseconds (five minutes).
pub const RECENT_TEST_MICROS: u64 = 300_000_000;

/// The monitor's state between polls. Times are microseconds on one monotonic clock.
#[derive(Debug, Clone, Copy, PartialEq, Eq, Structural)]
pub struct Monitor {
    /// The status last computed.
    pub latest: StatusPayload,
    /// The last on-demand speed test, in tenths of a Mbps.
    pub last_test_mbps: Option<u64>,
    /// When the last speed test finished.
    pub last_test_at: Option<u64>,
}

/// Time passed from `then` to `now`, zero if `now` is not later.
pub open spec fn elapsed(then: u64, now: u64) -> nat {
    if now >= then {
        (now - then) as nat
    } else {
        0
    }
}

impl Monitor {
    /// The speed test result that still counts at time `now`: the last one, if it finished
    /// less than five minutes before.
    pub open spec fn recent_test_spec(self, now: u64) -> Option<u64> {
        match (self.last_test_mbps, self.last_test_at) {
            (Some(v), Some(t)) => if elapsed(t, now) < RECENT_TEST_MICROS {
                Some(v)
            } else {
                None
            },
            _ => None,
        }
    }

    /// The monitor after a speed test of `mbps` tenths of a Mbps that finished at `now`.
    pub open spec fn with_test(self, mbps: u64, now: u64) -> Monitor {
        Monitor { last_test_mbps: Some(mbps), last_test_at: Some(now), ..self }
    }

    /// The monitor, and the status it publishes, after a poll at `now` that found `reach`,
    /// the latency and the live rates.
    pub open spec fn tick_spec(
        self,
        reach: Reachability,
        latency_micros: Option<u64>,
        tp: Throughput,
        now: u64,
    ) -> (Monitor, StatusPayload) {
        let p = classify_spec(reach, latency_micros, tp, self.recent_test_spec(now));
        (Monitor { latest: p, ..self }, p)
    }

    /// A monitor that shows "Checking" and knows of no speed test.
    pub fn new() -> (m: Monitor)
        ensures
            m.latest == StatusPayload::checking_spec(),
            m.last_test_mbps is None,
            m.last_test_at is None,
    {
        Monitor { latest: StatusPayload::checking(), last_test_mbps: None, last_test_at: None }
    }

    /// See `recent_test_spec`.
    pub fn recent_test(&self, now: u64) -> (r: Option<u64>)
        ensures
            r == self.recent_test_spec(now),
    {
        match (self.last_test_mbps, self.last_test_at) {
            (Some(v), Some(t)) => {
                let passed: u64 = if now >= t { now - t } else { 0 };
                if passed < RECENT_TEST_MICROS {
                    Some(v)
                } else {
                    None
                }
            },
            _ => None,
        }
    }

    /// Records a finished speed test of `mbps` tenths of a Mbps at `now`.
    pub fn record_speed_test(&mut self, mbps: u64, now: u64)
        ensures
            *final(self) == old(self).with_test(mbps, now),
    {
        self.last_test_mbps = Some(mbps);
        self.last_test_at = Some(now);
    }

    /// One background poll: classifies what the probes found together with any recent
    /// speed test, keeps the result as the latest status, and returns it for the tray and
    /// the flyout.
    pub fn monitor_tick(
        &mut self,
        reach: Reachability,
        latency_micros: Option<u64>,
        tp: Throughput,
        now: u64,
    ) -> (p: StatusPayload)
        ensures
            (*final(self), p) == old(self).tick_spec(reach, latency_micros, tp, now),
    {
        let recent = self.recent_test(now);
        let p = classify(reach, latency_micros, tp, recent);
        self.latest = p;
        p
    }

    /// The status last computed.
    pub fn get_current_status(&self) -> (p: StatusPayload)
        ensures
            p == self.latest,
    {
        self.latest
    }
}


/// Reachability problems always win: without a working link the tier is "Offline" (red) or
/// "Sign-in needed" (amber), whatever any speed test measured.
pub proof fn law_reachability_problems_win(reach: Reachability, t1: Option<u64>, t2: Option<u64>)
    requires
        reach != Reachability::Online,
    ensures
        tier_for(reach, t1) == tier_for(reach, t2),
        reach == Reachability::NoInternet ==> tier_color(tier_for(reach, t1)) == Color::Red,
        reach == Reachability::CaptivePortal ==> tier_color(tier_for(reach, t1)) == Color::Amber,
{
}

/// A working link without a recent speed test reads as a healthy "Online" (green), never as
/// slow.
pub proof fn law_untested_link_reads_online()
    ensures
        tier_for(Reachability::Online, None) == Tier::Normal,
        tier_color(Tier::Normal) == Color::Green,
{
}

/// The speed order of the tiers of a working link.
pub open spec fn speed_rank(t: Tier) -> int {
    match t {
        Tier::Fast => 2,
        Tier::Normal => 1,
        _ => 0,
    }
}

/// On a working link, a faster speed test never gives a slower tier.
pub proof fn law_faster_test_never_ranks_lower(a: u64, b: u64)
    requires
        a <= b,
    ensures
        speed_rank(tier_for(Reachability::Online, Some(a))) <= speed_rank(
            tier_for(Reachability::Online, Some(b)),
        ),
{
}

/// A speed test counts as recent from the moment it is recorded until five minutes have
/// passed, and no longer.
pub proof fn law_recorded_test_counts_for_five_minutes(m: Monitor, mbps: u64, at: u64, now: u64)
    requires
        at <= now,
    ensures
        m.with_test(mbps, at).recent_test_spec(now) == (if now - at < 300_000_000 {
            Some(mbps)
        } else {
            None
        }),
        m.with_test(mbps, now).recent_test_spec(at) == Some(mbps),
{
}

/// A poll on a working link reports the last speed test, and takes its tier from it, only
/// while that test is less than five minutes old; after that it reports no test and a
/// healthy "Online".
pub proof fn law_tick_uses_only_recent_test(
    m: Monitor,
    mbps: u64,
    at: u64,
    latency_micros: Option<u64>,
    tp: Throughput,
    now: u64,
)
    requires
        at <= now,
    ensures
        ({
            let p = m.with_test(mbps, at).tick_spec(Reachability::Online, latency_micros, tp, now).1;
            &&& now - at < 300_000_000 ==> p.test_deci_mbps == Some(mbps) && p.tier == (if mbps
                >= 2000 {
                Tier::Fast
            } else if mbps >= 500 {
                Tier::Normal
            } else {
                Tier::Slow
            })
            &&& now - at >= 300_000_000 ==> p.test_deci_mbps is None && p.tier == Tier::Normal
        }),
{
}

/// A poll publishes exactly the status it keeps as the latest one, and leaves the record of
/// the last speed test as it was.
pub proof fn law_tick_publishes_latest(
    m: Monitor,
    reach: Reachability,
    latency_micros: Option<u64>,
    tp: Throughput,
    now: u64,
)
    ensures
        m.tick_spec(reach, latency_micros, tp, now).0.latest == m.tick_spec(
            reach,
            latency_micros,
            tp,
            now,
        ).1,
        m.tick_spec(reach, latency_micros, tp, now).0.last_test_mbps == m.last_test_mbps,
        m.tick_spec(reach, latency_micros, tp, now).0.last_test_at == m.last_test_at,
{
}

/// The tray shows the red, amber or slate globe exactly for those colour names, and the
/// green globe for every other name.
pub proof fn law_tray_icon_names(color: Seq<char>)
    ensures
        tray_icon_spec(color) == TrayIcon::Red <==> color == "red"@,
        tray_icon_spec(color) == TrayIcon::Amber <==> color == "amber"@,
        tray_icon_spec(color) == TrayIcon::Slate <==> color == "slate"@,
        tray_icon_spec(color) == TrayIcon::Green <==> color != "red"@ && color != "amber"@ && color
            != "slate"@,
{
    reveal_strlit("red");
    reveal_strlit("amber");
    reveal_strlit("slate");
    assert("red"@[0] == 'r' && "amber"@[0] == 'a' && "slate"@[0] == 's');
    assert("amber"@ != "red"@);
    assert("slate"@ != "red"@);
    assert("slate"@ != "amber"@);
}

/// The tray globe of a colour.
pub open spec fn globe_of(c: Color) -> TrayIcon {
    match c {
        Color::Green => TrayIcon::Green,
        Color::Amber => TrayIcon::Amber,
        Color::Red => TrayIcon::Red,
        Color::Slate => TrayIcon::Slate,
    }
}

/// The tray globe changes colour with the status: the icon picked for a status's colour name
/// is the globe of that colour.
pub proof fn law_tray_globe_matches_status_color(t: Tier)
    ensures
        tray_icon_spec(color_name(tier_color(t))) == globe_of(tier_color(t)),
{
    reveal_strlit("red");
    reveal_strlit("amber");
    reveal_strlit("slate");
    reveal_strlit("green");
    assert("green"@[0] == 'g' && "red"@[0] == 'r' && "amber"@[0] == 'a' && "slate"@[0] == 's');
    assert("green"@ != "red"@);
    assert("green"@ != "amber"@);
    assert("green"@ != "slate"@);
    assert("amber"@ != "red"@);
    assert("slate"@ != "red"@);
    assert("slate"@ != "amber"@);
}


/// On a working link the tier comes from the recent speed test alone: 200 Mbps and up is
/// fast, 50 Mbps and up normal, below that slow, and no recent test reads normal. A reachable
/// link is never shown offline, behind a sign-in wall, or still checking.
pub proof fn law_online_tiers(mbps: u64, recent: Option<u64>)
    ensures
        tier_for(Reachability::Online, Some(mbps)) == (if mbps >= 2000 {
            Tier::Fast
        } else if mbps >= 500 {
            Tier::Normal
        } else {
            Tier::Slow
        }),
        tier_for(Reachability::Online, recent) == Tier::Fast || tier_for(
            Reachability::Online,
            recent,
        ) == Tier::Normal || tier_for(Reachability::Online, recent) == Tier::Slow,
{
}

/// What each situation looks like: state, tier name and colour.
pub proof fn law_status_labels(reach: Reachability, recent: Option<u64>, m: u64)
    ensures
        ({
            let t = tier_for(reach, recent);
            &&& reach == Reachability::NoInternet ==> tier_state(t) == "Offline"@ && tier_name(t)
                == "offline"@ && color_name(tier_color(t)) == "red"@
            &&& reach == Reachability::CaptivePortal ==> tier_state(t) == "Sign-in needed"@
                && tier_name(t) == "portal"@ && color_name(tier_color(t)) == "amber"@
            &&& reach == Reachability::Online && recent is None ==> tier_state(t) == "Online"@
                && tier_name(t) == "normal"@ && color_name(tier_color(t)) == "green"@
            &&& reach == Reachability::Online && recent == Some(m) && m >= 2000 ==> tier_state(
                t,
            ) == "Fast"@ && tier_name(t) == "fast"@ && color_name(tier_color(t)) == "green"@
            &&& reach == Reachability::Online && recent == Some(m) && 500 <= m < 2000
                ==> tier_state(t) == "Online"@ && tier_name(t) == "normal"@ && color_name(
                tier_color(t),
            ) == "green"@
            &&& reach == Reachability::Online && recent == Some(m) && m < 500 ==> tier_state(
                t,
            ) == "Slow"@ && tier_name(t) == "slow"@ && color_name(tier_color(t)) == "amber"@
        }),
        tier_state(StatusPayload::checking_spec().tier) == "Checking"@,
        tier_name(StatusPayload::checking_spec().tier) == "checking"@,
        color_name(tier_color(StatusPayload::checking_spec().tier)) == "slate"@,
{
}

/// The status reports the tier of the probe result and recent test, the recent test as it
/// was, and the latency and rates rounded to the nearest tenth: within 50 µs of the measured
/// latency and within 50 000 bit/s of the measured rates.
pub proof fn law_classify_rounds_to_nearest_tenth(
    reach: Reachability,
    latency_micros: Option<u64>,
    tp: Throughput,
    recent: Option<u64>,
)
    ensures
        ({
            let p = classify_spec(reach, latency_micros, tp, recent);
            &&& p.tier == tier_for(reach, recent)
            &&& p.test_deci_mbps == recent
            &&& latency_micros is None ==> p.latency_deci_ms is None
            &&& latency_micros matches Some(us) ==> (p.latency_deci_ms matches Some(l) && 100 * l
                - 50 <= us < 100 * l + 50)
            &&& 100_000 * p.down_deci_mbps - 50_000 <= tp.down_bps < 100_000 * p.down_deci_mbps
                + 50_000
            &&& 100_000 * p.up_deci_mbps - 50_000 <= tp.up_bps < 100_000 * p.up_deci_mbps + 50_000
        }),
{
    if let Some(us) = latency_micros {
        law_round_half_up_is_nearest(us as int, 100);
        let l = round_half_up(us as int, 100);
        assert(0 <= l <= u64::MAX) by (nonlinear_arith)
            requires
                (2 * l - 1) * 100 <= 2 * us,
                2 * us < (2 * l + 1) * 100,
                0 <= us <= u64::MAX,
        ;
    }
    law_round_half_up_is_nearest(tp.down_bps as int, 100_000);
    law_round_half_up_is_nearest(tp.up_bps as int, 100_000);
    let d = round_half_up(tp.down_bps as int, 100_000);
    let u = round_half_up(tp.up_bps as int, 100_000);
    assert(0 <= d <= u128::MAX && 0 <= u <= u128::MAX) by (nonlinear_arith)
        requires
            2 * tp.down_bps < (2 * d + 1) * 100_000,
            (2 * d - 1) * 100_000 <= 2 * tp.down_bps,
            2 * tp.up_bps < (2 * u + 1) * 100_000,
            (2 * u - 1) * 100_000 <= 2 * tp.up_bps,
            0 <= tp.down_bps <= u128::MAX,
            0 <= tp.up_bps <= u128::MAX,
    ;
}

/// The tooltip starts with "NetCheck — " and the state; it shows the latency as whole
/// milliseconds within half a millisecond of the reported latency, and a download rate of at
/// least 0.1 Mbps with one decimal.
pub proof fn law_tooltip_contents(p: StatusPayload)
    ensures
        occurs_at(p.tooltip_spec(), "NetCheck — "@ + tier_state(p.tier), 0),
        p.latency_deci_ms matches Some(l) ==> exists|n: nat|
            contains(p.tooltip_spec(), " · "@ + #[trigger] decimal(n) + " ms"@) && 10 * n - 5 <= l
                < 10 * n + 5,
        p.down_deci_mbps >= 1 ==> exists|q: nat, d: nat|
            d < 10 && 10 * q + d == p.down_deci_mbps && contains(
                p.tooltip_spec(),
                " · "@ + #[trigger] decimal(q) + "."@ + #[trigger] decimal(d) + " Mbps"@,
            ),
{
    let head = "NetCheck — "@ + tier_state(p.tier);
    let lat = match p.latency_deci_ms {
        Some(l) => " · "@ + decimal(round_half_up(l as int, 10) as nat) + " ms"@,
        None => Seq::empty(),
    };
    let q = (p.down_deci_mbps / 10) as nat;
    let d = (p.down_deci_mbps % 10) as nat;
    let rate = if p.down_deci_mbps >= 1 {
        " · "@ + decimal(q) + "."@ + decimal(d) + " Mbps"@
    } else {
        Seq::empty()
    };
    let t = p.tooltip_spec();
    let hl: int = head.len() as int;
    let ll: int = lat.len() as int;
    let rl: int = rate.len() as int;
    assert(t =~= head + lat + rate);
    assert(t.subrange(0, head.len() as int) =~= head);
    if let Some(l) = p.latency_deci_ms {
        law_round_half_up_is_nearest(l as int, 10);
        let n = round_half_up(l as int, 10);
        assert(n >= 0) by (nonlinear_arith)
            requires
                2 * l < (2 * n + 1) * 10,
                l >= 0,
        ;
        assert(t.subrange(hl, hl + ll) =~= lat);
        assert(occurs_at(t, lat, hl));
        assert(contains(t, " · "@ + decimal(n as nat) + " ms"@));
    }
    if p.down_deci_mbps >= 1 {
        assert(t.subrange(hl + ll, hl + ll + rl) =~= rate);
        assert(occurs_at(t, rate, hl + ll));
        assert(contains(t, " · "@ + decimal(q) + "."@ + decimal(d) + " Mbps"@));
    }
}


/// The whole tooltip: "NetCheck — <state>", then " · <n> ms" where `n` is the latency in
/// whole milliseconds (the `n` with `10n - 5 <= latency < 10n + 5` tenths), then
/// " · <x>.<y> Mbps" for a download rate of `x.y` Mbps when it is at least 0.1 Mbps.
pub proof fn law_tooltip_layout(p: StatusPayload, n: nat)
    ensures
        ({
            let head = "NetCheck — "@ + tier_state(p.tier);
            let rate = if p.down_deci_mbps >= 1 {
                " · "@ + decimal((p.down_deci_mbps / 10) as nat) + "."@ + decimal(
                    (p.down_deci_mbps % 10) as nat,
                ) + " Mbps"@
            } else {
                Seq::empty()
            };
            &&& p.latency_deci_ms is None ==> p.tooltip_spec() == head + rate
            &&& (p.latency_deci_ms matches Some(l) && 10 * n - 5 <= l < 10 * n + 5)
                ==> p.tooltip_spec() == head + (" · "@ + decimal(n) + " ms"@) + rate
        }),
{
    if let Some(l) = p.latency_deci_ms {
        law_round_half_up_is_nearest(l as int, 10);
        let r = round_half_up(l as int, 10);
        if 10 * n - 5 <= l < 10 * n + 5 {
            assert(r == n);
        }
    }
}

} // verus!
