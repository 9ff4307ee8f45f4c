//! Data usage from the OS's own per-network accounting: the period asked for, the time stamps
//! handed to the OS, and the tally of what it reports.
use vstd::prelude::*;

use crate::text::str_eq;

verus! {

broadcast use vstd::string::group_string_axioms;

/// Bytes downloaded and uploaded over a period, and their sum.
#[derive(Debug, Clone, Copy, PartialEq, Eq, Structural)]
pub struct DataUsage {
    pub down_bytes: u64,
    pub up_bytes: u64,
    pub total_bytes: u64,
}

impl DataUsage {
    /// The total is the sum of the two directions.
    pub open spec fn is_consistent(self) -> bool {
        self.total_bytes == self.down_bytes + self.up_bytes
    }
}

impl Default for DataUsage {
    fn default() -> (d: DataUsage)
        ensures
            d.down_bytes == 0,
            d.up_bytes == 0,
            d.total_bytes == 0,
    {
        DataUsage { down_bytes: 0, up_bytes: 0, total_bytes: 0 }
    }
}

/// The error given where the OS keeps no usage ledger.
pub open spec fn unsupported_message() -> Seq<char> {
    "OS data usage is only available on Windows"@
}

/// Data usage where the OS offers no usage accounting: always the error
/// "OS data usage is only available on Windows".
pub fn data_usage(_period: &str) -> (r: Result<DataUsage, String>)
    ensures
        r matches Err(e) && e@ == unsupported_message(),
{
    Err(String::from_str("OS data usage is only available on Windows"))
}

/// The period that usage is counted over.
#[derive(Debug, Clone, Copy, PartialEq, Eq, Structural)]
pub enum UsagePeriod {
    /// Since local midnight today.
    Today,
    /// Since local midnight on the first of this month.
    Month,
}

/// "month" asks for this month; any other name asks for today.
pub open spec fn usage_period_spec(name: Seq<char>) -> UsagePeriod {
    if name == "month"@ {
        UsagePeriod::Month
    } else {
        UsagePeriod::Today
    }
}

/// See `usage_period_spec`.
pub fn usage_period(name: &str) -> (p: UsagePeriod)
    ensures
        p == usage_period_spec(name@),
{
    if str_eq(name, "month") {
        UsagePeriod::Month
    } else {
        UsagePeriod::Today
    }
}

/// Seconds from 1601-01-01 UTC (the FILETIME epoch) to 1970-01-01 UTC (the Unix epoch).
pub const FILETIME_EPOCH_OFFSET_SECS: i64 = 11_644_473_600;

/// FILETIME ticks (100 ns) per second.
pub const TICKS_PER_SEC: i64 = 10_000_000;

/// A Unix time stamp (`secs` and `subsec_nanos`) as FILETIME / `DateTime.UniversalTime`:
/// 100-ns ticks since 1601-01-01 UTC.
pub open spec fn universal_time_spec(secs: i64, subsec_nanos: u32) -> int {
    (secs + FILETIME_EPOCH_OFFSET_SECS) * TICKS_PER_SEC + (subsec_nanos as int) / 100
}

/// Whether `to_universal_time` can compute the stamp for this time within an `i64`.
pub fn universal_time_fits(secs: i64, subsec_nanos: u32) -> (r: bool)
    ensures
        r == (i64::MIN <= (secs + FILETIME_EPOCH_OFFSET_SECS) * TICKS_PER_SEC
            && universal_time_spec(secs, subsec_nanos) <= i64::MAX),
{
    let s: i128 = secs as i128 + FILETIME_EPOCH_OFFSET_SECS as i128;
    proof {
        assert(-0x1_0000_0000_0000_0000 * 10_000_000 <= s * 10_000_000 <= 0x1_0000_0000_0000_0000
            * 10_000_000) by (nonlinear_arith)
            requires
                -0x1_0000_0000_0000_0000 <= s <= 0x1_0000_0000_0000_0000,
        ;
    }
    let scaled: i128 = s * (TICKS_PER_SEC as i128);
    let t: i128 = scaled + (subsec_nanos as i128) / 100;
    i64::MIN as i128 <= scaled && t <= i64::MAX as i128
}

/// See `universal_time_spec`.
pub fn to_universal_time(secs: i64, subsec_nanos: u32) -> (t: i64)
    requires
        i64::MIN <= (secs + FILETIME_EPOCH_OFFSET_SECS) * TICKS_PER_SEC,
        universal_time_spec(secs, subsec_nanos) <= i64::MAX,
    ensures
        t == universal_time_spec(secs, subsec_nanos),
{
    let s: i128 = secs as i128 + FILETIME_EPOCH_OFFSET_SECS as i128;
    let t: i128 = s * (TICKS_PER_SEC as i128) + (subsec_nanos as i128) / 100;
    t as i64
}

/// One entry of the OS usage ledger; a count the OS could not give is `None`.
#[derive(Debug, Clone, Copy, PartialEq, Eq, Structural)]
pub struct UsageBucket {
    pub received: Option<u64>,
    pub sent: Option<u64>,
}

/// A count, or zero where the OS could not give it.
pub open spec fn count_or_zero(c: Option<u64>) -> nat {
    match c {
        Some(n) => n as nat,
        None => 0,
    }
}

/// Bytes received over all of `b`.
pub open spec fn total_received(b: Seq<UsageBucket>) -> nat
    decreases b.len(),
{
    if b.len() == 0 {
        0
    } else {
        total_received(b.drop_last()) + count_or_zero(b.last().received)
    }
}

/// Bytes sent over all of `b`.
pub open spec fn total_sent(b: Seq<UsageBucket>) -> nat
    decreases b.len(),
{
    if b.len() == 0 {
        0
    } else {
        total_sent(b.drop_last()) + count_or_zero(b.last().sent)
    }
}

proof fn lemma_totals_grow(b: Seq<UsageBucket>, i: int)
    requires
        0 <= i <= b.len(),
    ensures
        total_received(b.take(i)) <= total_received(b),
        total_sent(b.take(i)) <= total_sent(b),
    decreases b.len() - i,
{
    if i < b.len() {
        lemma_totals_grow(b, i + 1);
        assert(b.take(i + 1).drop_last() =~= b.take(i));
    } else {
        assert(b.take(i) =~= b);
    }
}

/// Everything received and everything sent over the ledger entries, or `None` where the two
/// together do not fit in a `u64`.
pub fn usage_totals(buckets: &[UsageBucket]) -> (r: Option<(u64, u64)>)
    ensures
        r is Some <==> total_received(buckets@) + total_sent(buckets@) <= u64::MAX,
        r matches Some(t) ==> t.0 == total_received(buckets@) && t.1 == total_sent(buckets@),
{
    let mut down: u64 = 0;
    let mut up: u64 = 0;
    let mut i: usize = 0;
    while i < buckets.len()
        invariant
            i <= buckets@.len(),
            down == total_received(buckets@.take(i as int)),
            up == total_sent(buckets@.take(i as int)),
            down + up <= u64::MAX,
        decreases buckets.len() - i,
    {
        let b = buckets[i];
        proof {
            assert(buckets@.take(i + 1).drop_last() =~= buckets@.take(i as int));
            lemma_totals_grow(buckets@, i + 1);
        }
        let r: u64 = match b.received {
            Some(n) => n,
            None => 0,
        };
        let s: u64 = match b.sent {
            Some(n) => n,
            None => 0,
        };
        if r > u64::MAX - down - up || s > u64::MAX - down - up - r {
            return None;
        }
        down = down + r;
        up = up + s;
        i += 1;
    }
    proof {
        assert(buckets@.take(i as int) =~= buckets@);
    }
    Some((down, up))
}

impl DataUsage {
    /// Tallies the ledger entries of a period: everything received, everything sent, and
    /// their sum.
    pub fn from_buckets(buckets: &[UsageBucket]) -> (u: DataUsage)
        requires
            total_received(buckets@) + total_sent(buckets@) <= u64::MAX,
        ensures
            u.down_bytes == total_received(buckets@),
            u.up_bytes == total_sent(buckets@),
            u.is_consistent(),
    {
        let (down, up) = usage_totals(buckets).unwrap();
        DataUsage { down_bytes: down, up_bytes: up, total_bytes: down + up }
    }
}

/// The local calendar date at whose midnight the period starts, given today's local date:
/// the first of this month for `Month`, today for `Today`.
pub open spec fn period_start_date_spec(p: UsagePeriod, year: i32, month: u32, day: u32) -> (
    i32,
    u32,
    u32,
) {
    match p {
        UsagePeriod::Month => (year, month, 1),
        UsagePeriod::Today => (year, month, day),
    }
}

/// See `period_start_date_spec`. The period runs from local midnight (00:00:00) of this date
/// until now.
pub fn period_start_date(p: UsagePeriod, year: i32, month: u32, day: u32) -> (r: (i32, u32, u32))
    ensures
        r == period_start_date_spec(p, year, month, day),
        p == UsagePeriod::Month ==> r == (year, month, 1u32),
        p == UsagePeriod::Today ==> r == (year, month, day),
{
    match p {
        UsagePeriod::Month => (year, month, 1),
        UsagePeriod::Today => (year, month, day),
    }
}

/// The error given when the local midnight that starts the period does not exist, or is
/// not a single instant, in the local time zone.
pub open spec fn no_period_start_message() -> Seq<char> {
    "could not compute period start"@
}

/// The instant (Unix seconds and sub-second nanoseconds) at which the period starts, as the
/// time-zone lookup of its local midnight gave it: the instant itself when the lookup found
/// exactly one, else the error "could not compute period start".
pub fn period_start_instant(start: Option<(i64, u32)>) -> (r: Result<(i64, u32), String>)
    ensures
        start matches Some(t) ==> (r matches Ok(u) && u == t),
        start is None ==> (r matches Err(e) && e@ == no_period_start_message()),
{
    match start {
        Some(t) => Ok(t),
        None => Err(String::from_str("could not compute period start")),
    }
}

/// The month's window starts no later than today's: on the same year and month, at day 1
/// against today's day.
pub proof fn law_month_window_contains_today(year: i32, month: u32, day: u32)
    requires
        day >= 1,
    ensures
        period_start_date_spec(UsagePeriod::Month, year, month, day).0 == period_start_date_spec(
            UsagePeriod::Today,
            year,
            month,
            day,
        ).0,
        period_start_date_spec(UsagePeriod::Month, year, month, day).1 == period_start_date_spec(
            UsagePeriod::Today,
            year,
            month,
            day,
        ).1,
        period_start_date_spec(UsagePeriod::Month, year, month, day).2 <= period_start_date_spec(
            UsagePeriod::Today,
            year,
            month,
            day,
        ).2,
{
}

/// The usage of two runs of ledger entries taken together is the sum of their usages.
pub proof fn law_usage_totals_add(a: Seq<UsageBucket>, b: Seq<UsageBucket>)
    ensures
        total_received(a + b) == total_received(a) + total_received(b),
        total_sent(a + b) == total_sent(a) + total_sent(b),
    decreases b.len(),
{
    if b.len() == 0 {
        assert(a + b =~= a);
    } else {
        law_usage_totals_add(a, b.drop_last());
        assert((a + b).drop_last() =~= a + b.drop_last());
    }
}

/// Later instants never get earlier time stamps: the FILETIME stamp grows with the Unix time.
pub proof fn law_universal_time_is_monotone(s1: i64, n1: u32, s2: i64, n2: u32)
    requires
        n1 < 1_000_000_000,
        n2 < 1_000_000_000,
        s1 < s2 || (s1 == s2 && n1 <= n2),
    ensures
        universal_time_spec(s1, n1) <= universal_time_spec(s2, n2),
        s1 < s2 ==> universal_time_spec(s1, n1) < universal_time_spec(s2, n2),
{
    if n1 <= n2 {
        vstd::arithmetic::div_mod::lemma_div_is_ordered(n1 as int, n2 as int, 100);
    }
    assert((n1 as int) / 100 < TICKS_PER_SEC);
    assert((n2 as int) / 100 >= 0);
}


/// Only the exact name "month" counts from the first of the month, at local midnight;
/// every other name counts from local midnight today.
pub proof fn law_period_windows(name: Seq<char>, year: i32, month: u32, day: u32)
    ensures
        usage_period_spec(name) == UsagePeriod::Month <==> name == "month"@,
        period_start_date_spec(usage_period_spec(name), year, month, day) == (if name == "month"@ {
            (year, month, 1u32)
        } else {
            (year, month, day)
        }),
{
}

/// A FILETIME stamp counts 100-ns ticks from 1601-01-01: the Unix epoch is tick
/// 116 444 736 000 000 000, a second is 10 000 000 ticks and a tick is 100 ns.
pub proof fn law_universal_time_ticks(secs: i64, subsec_nanos: u32)
    ensures
        universal_time_spec(secs, subsec_nanos) == secs * 10_000_000 + 116_444_736_000_000_000
            + subsec_nanos / 100,
{
}

/// One ledger entry adds what it reports in each direction, and nothing where the OS could
/// not give a count.
pub proof fn law_usage_single_entry(b: UsageBucket)
    ensures
        total_received(seq![b]) == (match b.received {
            Some(n) => n as nat,
            None => 0,
        }),
        total_sent(seq![b]) == (match b.sent {
            Some(n) => n as nat,
            None => 0,
        }),
{
    let e = Seq::<UsageBucket>::empty();
    assert(total_received(e) == 0 && total_sent(e) == 0);
    assert(seq![b].drop_last() =~= e);
    assert(seq![b].last() == b);
}

} // verus!
