//! Monitoring: the sampling interval and ring size, the ring of recent samples,
//! and the integer differences between two raw `/proc` readings (the rates and
//! percentages made of them are floating point and computed by the caller).

use vstd::prelude::*;

use super::ports::TransportError;
use super::sessions::book::{session_error_text, SessionError};
use crate::text::{contains_run, str_contains};

verus! {

/// Error of the monitoring use cases.
#[derive(Debug)]
pub enum MonitorError {
    /// The session failed.
    Session(SessionError),
    /// Collecting failed (running the command or parsing its output).
    Collect(String),
    /// The target is not Linux: nothing to collect.
    Unsupported,
}

/// The display text of a monitoring error.
pub open spec fn monitor_error_text(e: MonitorError) -> Seq<char> {
    match e {
        MonitorError::Session(s) => session_error_text(s),
        MonitorError::Collect(m) => "采集失败:"@ + m@,
        MonitorError::Unsupported => "目标系统不支持监控采集(仅支持 Linux)"@,
    }
}

impl MonitorError {
    /// The display text.
    pub fn message(&self) -> (m: String)
        ensures
            m@ == monitor_error_text(*self),
    {
        match self {
            MonitorError::Session(s) => s.message(),
            MonitorError::Collect(c) => {
                let mut m = String::from_str("采集失败:");
                m.append(c.as_str());
                m
            },
            MonitorError::Unsupported => String::from_str("目标系统不支持监控采集(仅支持 Linux)"),
        }
    }
}

/// The probe output of a target that can be monitored contains `ok`.
pub open spec fn probe_ok(output: Seq<char>) -> bool {
    exists|i: int| 0 <= i && i + 1 < output.len() && #[trigger] output[i] == 'o' && output[i + 1] == 'k'
}

/// Whether a failed collection means that the session is gone (a network
/// error that reports "会话已断开"): sampling then stops; after any other
/// failure it goes on.
pub fn session_gone(err: &TransportError) -> (b: bool)
    ensures
        b == (err matches TransportError::Network(m) && contains_run(m@, "会话已断开"@)),
{
    match err {
        TransportError::Network(m) => str_contains(m.as_str(), "会话已断开"),
        _ => false,
    }
}

/// What starting to monitor makes of the probe's run: a failed run is a
/// collection error with the transport's message; otherwise the output is
/// checked (see `check_probe`).
pub fn probe_outcome(run: Result<String, TransportError>) -> (r: Result<(), MonitorError>)
    ensures
        run matches Err(e) ==> (r matches Err(MonitorError::Collect(m)) && m@ == super::ports::transport_error_text(e)),
        run matches Ok(o) ==> (probe_ok(o@) ==> r is Ok) && (!probe_ok(o@) ==> r matches Err(MonitorError::Unsupported)),
{
    match run {
        Err(e) => Err(MonitorError::Collect(e.message())),
        Ok(o) => check_probe(o.as_str()),
    }
}

/// The verdict of the probe (`test -r /proc/stat && echo ok`): a target whose
/// output holds no `ok` cannot be monitored.
pub fn check_probe(output: &str) -> (r: Result<(), MonitorError>)
    ensures
        probe_ok(output@) ==> r is Ok,
        !probe_ok(output@) ==> r matches Err(MonitorError::Unsupported),
{
    let v = crate::text::chars_of(output);
    let mut i: usize = 0;
    while i < v.len() && i + 1 < v.len()
        invariant
            v@ == output@,
            i <= v@.len(),
            forall|j: int| 0 <= j < i ==> !(#[trigger] v@[j] == 'o' && v@[j + 1] == 'k'),
        decreases v@.len() - i,
    {
        if v[i] == 'o' && v[i + 1] == 'k' {
            return Ok(());
        }
        i = i + 1;
    }
    proof {
        assert forall|j: int| 0 <= j && j + 1 < output@.len() implies !(#[trigger] output@[j] == 'o'
            && output@[j + 1] == 'k') by {
            assert(j < i);
        }
    }
    Err(MonitorError::Unsupported)
}

/// How long the ring keeps samples, in seconds.
pub const RING_DURATION_SECS: u64 = 3600;

/// The sampling interval asked for, clamped to 2–60 seconds.
pub open spec fn clamp_interval(s: u32) -> u64 {
    if s < 2 {
        2
    } else if s > 60 {
        60
    } else {
        s as u64
    }
}

/// The sampling interval in seconds, clamped to 2–60.
pub fn monitor_interval(interval_secs: u32) -> (s: u64)
    ensures
        s == clamp_interval(interval_secs),
{
    if interval_secs < 2 {
        2
    } else if interval_secs > 60 {
        60
    } else {
        interval_secs as u64
    }
}

/// How many samples of one interval fill the ring's duration.
pub fn ring_capacity(interval_secs: u64) -> (c: usize)
    requires
        2 <= interval_secs <= 60,
    ensures
        c == RING_DURATION_SECS / interval_secs,
{
    (RING_DURATION_SECS / interval_secs) as usize
}

/// The most recent samples, at most `capacity` of them, oldest first.
pub struct SampleRing<T> {
    items: Vec<T>,
    capacity: usize,
}

impl<T> View for SampleRing<T> {
    type V = Seq<T>;

    closed spec fn view(&self) -> Seq<T> {
        self.items@
    }
}

impl<T> SampleRing<T> {
    /// The ring's capacity.
    pub closed spec fn cap(&self) -> nat {
        self.capacity as nat
    }

    /// An empty ring holding at most `capacity` samples.
    pub fn new(capacity: usize) -> (r: Self)
        ensures
            r@ == Seq::<T>::empty(),
            r.cap() == capacity,
    {
        SampleRing { items: Vec::new(), capacity }
    }

    /// Appends a sample; when that makes one too many, the oldest goes.
    pub fn push(&mut self, sample: T)
        ensures
            final(self).cap() == old(self).cap(),
            final(self)@ == if old(self)@.len() + 1 > old(self).cap() {
                old(self)@.push(sample).drop_first()
            } else {
                old(self)@.push(sample)
            },
    {
        self.items.push(sample);
        if self.items.len() > self.capacity {
            let ghost before = self.items@;
            let _ = self.items.remove(0);
            assert(self.items@ =~= before.drop_first());
        }
    }

    /// The samples, oldest first.
    pub fn items(&self) -> (r: &Vec<T>)
        ensures
            r@ == self@,
    {
        &self.items
    }
}

/// The sum of a sequence of counters.
pub open spec fn seq_sum(s: Seq<u64>) -> int
    decreases s.len(),
{
    if s.len() == 0 {
        0
    } else {
        seq_sum(s.drop_last()) + s.last()
    }
}

/// `a - b`, or 0 when `b` is larger.
pub open spec fn sat_sub(a: int, b: int) -> int {
    if a > b {
        a - b
    } else {
        0
    }
}

fn sum_counters(a: &[u64; 8]) -> (s: u64)
    requires
        seq_sum(a@) <= u64::MAX,
    ensures
        s == seq_sum(a@),
{
    let mut s: u64 = 0;
    let mut i: usize = 0;
    while i < 8
        invariant
            i <= 8,
            a@.len() == 8,
            seq_sum(a@) <= u64::MAX,
            s == seq_sum(a@.subrange(0, i as int)),
        decreases 8 - i,
    {
        proof {
            let p = a@.subrange(0, i + 1);
            assert(p.drop_last() =~= a@.subrange(0, i as int));
            lemma_prefix_sum_le(a@, i + 1);
        }
        s = s + a[i];
        i = i + 1;
    }
    assert(a@.subrange(0, 8) =~= a@);
    s
}

/// A prefix of counters sums to no more than the whole.
pub proof fn lemma_prefix_sum_le(s: Seq<u64>, n: int)
    requires
        0 <= n <= s.len(),
    ensures
        seq_sum(s.subrange(0, n)) <= seq_sum(s),
    decreases s.len() - n,
{
    if n < s.len() {
        lemma_prefix_sum_le(s, n + 1);
        let p = s.subrange(0, n + 1);
        assert(p.drop_last() =~= s.subrange(0, n));
    } else {
        assert(s.subrange(0, n) =~= s);
    }
}

/// CPU time between two readings of one CPU line (user, nice, system, idle,
/// iowait, irq, softirq, steal): (busy, total), where busy leaves out idle and
/// iowait; counters that went back count as zero.
pub fn cpu_delta(cur: &[u64; 8], old: &[u64; 8]) -> (r: (u64, u64))
    requires
        seq_sum(cur@) <= u64::MAX,
        seq_sum(old@) <= u64::MAX,
        sat_sub(cur@[3] as int, old@[3] as int) + sat_sub(cur@[4] as int, old@[4] as int)
            <= u64::MAX,
    ensures
        r.1 == sat_sub(seq_sum(cur@), seq_sum(old@)),
        r.0 == sat_sub(
            r.1 as int,
            sat_sub(cur@[3] as int, old@[3] as int) + sat_sub(cur@[4] as int, old@[4] as int),
        ),
{
    let cur_total = sum_counters(cur);
    let old_total = sum_counters(old);
    let total = cur_total.saturating_sub(old_total);
    let idle = cur[3].saturating_sub(old[3]) + cur[4].saturating_sub(old[4]);
    let busy = total.saturating_sub(idle);
    (busy, total)
}

/// Memory in use: total minus available, where a kernel without an available
/// figure gets free + buffers + cached; missing figures count as zero.
pub fn mem_used(
    total: Option<u64>,
    available: Option<u64>,
    free: Option<u64>,
    buffers: Option<u64>,
    cached: Option<u64>,
) -> (used: u64)
    requires
        available is None ==> free.unwrap_or(0) + buffers.unwrap_or(0) + cached.unwrap_or(0)
            <= u64::MAX,
    ensures
        used == sat_sub(
            total.unwrap_or(0) as int,
            match available {
                Some(a) => a as int,
                None => free.unwrap_or(0) + buffers.unwrap_or(0) + cached.unwrap_or(0),
            },
        ),
{
    let t = match total {
        Some(v) => v,
        None => 0,
    };
    let avail = match available {
        Some(a) => a,
        None => {
            let f = match free {
                Some(v) => v,
                None => 0,
            };
            let b = match buffers {
                Some(v) => v,
                None => 0,
            };
            let c = match cached {
                Some(v) => v,
                None => 0,
            };
            f + b + c
        },
    };
    t.saturating_sub(avail)
}

/// Swap in use: total minus free; a missing free figure means none is used.
pub fn swap_used(total: Option<u64>, free: Option<u64>) -> (used: u64)
    ensures
        used == sat_sub(total.unwrap_or(0) as int, free.unwrap_or(total.unwrap_or(0)) as int),
{
    let t = match total {
        Some(v) => v,
        None => 0,
    };
    let f = match free {
        Some(v) => v,
        None => t,
    };
    t.saturating_sub(f)
}

/// Received (or sent) bytes between two readings of the interfaces, summed;
/// counters that went back count as zero.
pub open spec fn net_sum(cur: Seq<(u64, u64)>, prev: Seq<(u64, u64)>, rx: bool) -> int
    decreases cur.len(),
{
    if cur.len() == 0 || prev.len() == 0 {
        0
    } else {
        net_sum(cur.drop_last(), prev.drop_last(), rx) + if rx {
            sat_sub(cur.last().0 as int, prev.last().0 as int)
        } else {
            sat_sub(cur.last().1 as int, prev.last().1 as int)
        }
    }
}

/// Bytes received and sent between two readings of the same interfaces; none
/// when the interface lists differ in length.
pub fn net_delta(cur: &Vec<(u64, u64)>, prev: &Vec<(u64, u64)>) -> (r: Option<(u128, u128)>)
    ensures
        cur@.len() != prev@.len() ==> r is None,
        cur@.len() == prev@.len() ==> r == Some(
            (net_sum(cur@, prev@, true) as u128, net_sum(cur@, prev@, false) as u128),
        ),
{
    if cur.len() != prev.len() {
        return None;
    }
    let mut rx: u128 = 0;
    let mut tx: u128 = 0;
    let mut i: usize = 0;
    while i < cur.len()
        invariant
            i <= cur@.len(),
            cur@.len() == prev@.len(),
            rx == net_sum(cur@.subrange(0, i as int), prev@.subrange(0, i as int), true),
            tx == net_sum(cur@.subrange(0, i as int), prev@.subrange(0, i as int), false),
            rx <= i * 0x1_0000_0000_0000_0000,
            tx <= i * 0x1_0000_0000_0000_0000,
        decreases cur@.len() - i,
    {
        let ghost c = cur@.subrange(0, i + 1);
        let ghost p = prev@.subrange(0, i + 1);
        assert(c.drop_last() =~= cur@.subrange(0, i as int));
        assert(p.drop_last() =~= prev@.subrange(0, i as int));
        assert(c.last() == cur@[i as int]);
        assert(p.last() == prev@[i as int]);
        assert(i < 0x1_0000_0000_0000_0000);
        assert((i + 1) * 0x1_0000_0000_0000_0000 <= 0x1_0000_0000_0000_0000_0000_0000_0000_0000)
            by (nonlinear_arith)
            requires
                i < 0x1_0000_0000_0000_0000,
        ;
        rx = rx + cur[i].0.saturating_sub(prev[i].0) as u128;
        tx = tx + cur[i].1.saturating_sub(prev[i].1) as u128;
        i = i + 1;
    }
    assert(cur@.subrange(0, cur@.len() as int) =~= cur@);
    assert(prev@.subrange(0, prev@.len() as int) =~= prev@);
    Some((rx, tx))
}

/// The ring never grows past its capacity, and a ring of capacity one or more
/// always keeps the sample just pushed as its newest.
pub proof fn law_ring_bounded<T>(s: Seq<T>, x: T, cap: nat)
    requires
        s.len() <= cap,
    ensures
        ({
            let n = if s.len() + 1 > cap {
                s.push(x).drop_first()
            } else {
                s.push(x)
            };
            n.len() <= cap && (cap > 0 ==> n.last() == x)
        }),
{
}

} // verus!
