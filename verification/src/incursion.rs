//! The off-map dread loop: the storyteller's anticipation engine.
//!
//! A vague sign from beyond the map's edge posts to the chronicle;
//! after a delay its payoff lands. Early on most signs are false alarms;
//! as the story goes on more of them pay off, and the payoffs grow more
//! dangerous. A refugee wave is a foreshadow: what they fled arrives on
//! the next sign, never a false alarm and never harmless.
//!
//! This module holds the loop's state, the payoff roll, the escalation
//! curves, the telegraph lines, and the geometry that anchors the edge
//! to the populated heart of the map.

use vstd::prelude::*;

use crate::geo::{dist_fits, dist_sq, isqrt, is_isqrt, spec_dist_sq, Tile};
use crate::mix::{rng, spec_rng};

verus! {

/// What a dread sign turns out to be.
#[derive(Clone, Copy, PartialEq, Eq, Debug)]
pub enum Payoff {
    /// Nothing comes; the unease lingers.
    FalseAlarm,
    /// A stranger band of unknown intent crosses the edge.
    Arrival,
    /// An armed band crosses, hostile to the nearest camp.
    Raiders,
    /// A military remnant crosses, hostile to every camp.
    Military,
    /// A band crosses to claim a dead base.
    Settlers,
    /// A lone figure whose meaning is never learned.
    MysteriousStranger,
    /// Real groups cross seeking shelter; what they fled comes next.
    RefugeeWave,
    /// A broadcast from beyond the edge, never explained.
    Signal,
    /// A tide of the dead walks through the populated heart of the map.
    MegaHorde,
}

/// The chance (in percent) that a sign is a false alarm: 60% at the
/// start, five points fewer per resolved sign, never below 20%.
pub open spec fn spec_false_pct(resolved: u32) -> u64 {
    let base: int = 60 - 5 * resolved;
    if base < 20 { 20 } else { base as u64 }
}

/// The chance (in percent) that a real payoff among arrivals is raiders:
/// 30% at the start, five points more per resolved sign, at most 70%.
pub open spec fn spec_raiders_pct(resolved: u32) -> u64 {
    let base: int = 30 + 5 * resolved;
    if base > 70 { 70 } else { base as u64 }
}

/// The false-alarm chance for the current escalation.
pub fn false_pct(resolved: u32) -> (p: u64)
    ensures
        p == spec_false_pct(resolved),
{
    let r = resolved as u64 * 5;
    let base: u64 = if r >= 60 { 0 } else { 60 - r };
    if base < 20 { 20 } else { base }
}

/// The raiders chance for the current escalation.
pub fn raiders_pct(resolved: u32) -> (p: u64)
    ensures
        p == spec_raiders_pct(resolved),
{
    let base = 30 + resolved as u64 * 5;
    if base > 70 { 70 } else { base }
}

/// The payoff a sign carries, rolled from the clock bits at the moment the
/// sign appears, the escalation so far, and the foreshadow flag.
pub open spec fn spec_choose_payoff(now_bits: u32, resolved: u32, next_is_real: bool) -> Payoff {
    if next_is_real {
        if resolved >= 6 && spec_rng(now_bits, 6, 100) < 30 {
            Payoff::MegaHorde
        } else if resolved >= 4 && spec_rng(now_bits, 7, 100) < 40 {
            Payoff::Military
        } else {
            Payoff::Raiders
        }
    } else if spec_rng(now_bits, 0, 100) < spec_false_pct(resolved) {
        Payoff::FalseAlarm
    } else if resolved >= 6 && spec_rng(now_bits, 6, 100) < 15 {
        Payoff::MegaHorde
    } else if resolved >= 4 && spec_rng(now_bits, 7, 100) < 20 {
        Payoff::Military
    } else if resolved >= 2 && spec_rng(now_bits, 8, 100) < 15 {
        Payoff::Settlers
    } else if spec_rng(now_bits, 9, 100) < 15 {
        Payoff::MysteriousStranger
    } else if spec_rng(now_bits, 10, 100) < 12 {
        Payoff::RefugeeWave
    } else if spec_rng(now_bits, 11, 100) < 12 {
        Payoff::Signal
    } else if spec_rng(now_bits, 4, 100) < spec_raiders_pct(resolved) {
        Payoff::Raiders
    } else {
        Payoff::Arrival
    }
}

/// Roll the payoff of a new sign.
pub fn choose_payoff(now_bits: u32, resolved: u32, next_is_real: bool) -> (p: Payoff)
    ensures
        p == spec_choose_payoff(now_bits, resolved, next_is_real),
{
    if next_is_real {
        if resolved >= 6 && rng(now_bits, 6, 100) < 30 {
            Payoff::MegaHorde
        } else if resolved >= 4 && rng(now_bits, 7, 100) < 40 {
            Payoff::Military
        } else {
            Payoff::Raiders
        }
    } else if rng(now_bits, 0, 100) < false_pct(resolved) {
        Payoff::FalseAlarm
    } else if resolved >= 6 && rng(now_bits, 6, 100) < 15 {
        Payoff::MegaHorde
    } else if resolved >= 4 && rng(now_bits, 7, 100) < 20 {
        Payoff::Military
    } else if resolved >= 2 && rng(now_bits, 8, 100) < 15 {
        Payoff::Settlers
    } else if rng(now_bits, 9, 100) < 15 {
        Payoff::MysteriousStranger
    } else if rng(now_bits, 10, 100) < 12 {
        Payoff::RefugeeWave
    } else if rng(now_bits, 11, 100) < 12 {
        Payoff::Signal
    } else if rng(now_bits, 4, 100) < raiders_pct(resolved) {
        Payoff::Raiders
    } else {
        Payoff::Arrival
    }
}

/// The dread window's position in per mille: the payoff lands this far
/// into the 60-180 second band after the sign.
pub fn dread_permille(now_bits: u32) -> (p: u64)
    ensures
        p == spec_rng(now_bits, 1, 1000),
        p < 1000,
{
    rng(now_bits, 1, 1000)
}

/// The direction (in thousandths of a radian, below 2*pi) from the map's
/// heart at which an edge arrival with this salt crosses.
pub fn edge_angle_milli(now_bits: u32, salt: u64) -> (a: u64)
    ensures
        a == spec_rng(now_bits, salt, 6283),
        a < 6283,
{
    rng(now_bits, salt, 6283)
}

/// A sign that is out, waiting for its payoff.
#[derive(Clone, Copy, PartialEq, Eq, Debug)]
pub struct Pending {
    pub payoff: Payoff,
    /// The clock bits at which the payoff lands.
    pub due_bits: u32,
}

/// The loop's state across signs.
#[derive(Clone, Copy, PartialEq, Eq, Debug)]
pub struct DreadLoop {
    /// The sign that is out, if any: one at a time, the dread builds,
    /// it does not stack.
    pub pending: Option<Pending>,
    /// Signs resolved so far; drives escalation.
    pub resolved: u32,
    /// A refugee wave landed: the next sign's payoff is a real threat.
    pub next_is_real: bool,
}

/// A fresh loop: nothing out, nothing resolved.
pub fn new_loop() -> (l: DreadLoop)
    ensures
        l.pending is None,
        l.resolved == 0,
        !l.next_is_real,
{
    DreadLoop { pending: None, resolved: 0, next_is_real: false }
}

/// True while a sign is out and its payoff has not landed.
pub fn pending(l: &DreadLoop) -> (b: bool)
    ensures
        b == l.pending is Some,
{
    l.pending.is_some()
}

/// The loop after a sign appears at `now_bits` with payoff due at
/// `due_bits`: nothing changes while a sign is out; otherwise the payoff
/// is rolled, the foreshadow flag is spent, and the sign is out.
pub open spec fn spec_sign(l: DreadLoop, now_bits: u32, due_bits: u32) -> (DreadLoop, Option<Payoff>) {
    if l.pending is Some {
        (l, None)
    } else {
        let p = spec_choose_payoff(now_bits, l.resolved, l.next_is_real);
        (
            DreadLoop {
                pending: Some(Pending { payoff: p, due_bits }),
                resolved: l.resolved,
                next_is_real: false,
            },
            Some(p),
        )
    }
}

/// Put out a new sign (the storyteller rule): returns the payoff rolled,
/// or `None` when a sign is already out.
pub fn sign(l: &mut DreadLoop, now_bits: u32, due_bits: u32) -> (p: Option<Payoff>)
    ensures
        (*final(l), p) == spec_sign(*old(l), now_bits, due_bits),
{
    if l.pending.is_some() {
        return None;
    }
    let payoff = choose_payoff(now_bits, l.resolved, l.next_is_real);
    l.next_is_real = false;
    l.pending = Some(Pending { payoff, due_bits });
    Some(payoff)
}

/// The loop after a resolve pass: when a sign is out and its time has
/// come, it is cleared and counted, and its payoff lands.
pub open spec fn spec_resolve(l: DreadLoop, due_reached: bool) -> (DreadLoop, Option<Payoff>) {
    match l.pending {
        Some(p) => if due_reached {
            (
                DreadLoop {
                    pending: None,
                    resolved: if l.resolved == u32::MAX { 0 } else { (l.resolved + 1) as u32 },
                    next_is_real: l.next_is_real,
                },
                Some(p.payoff),
            )
        } else {
            (l, None)
        },
        None => (l, None),
    }
}

/// A resolve pass: `due_reached` says the clock has reached the pending
/// sign's due time. Returns the payoff that lands now, if any.
pub fn resolve(l: &mut DreadLoop, due_reached: bool) -> (p: Option<Payoff>)
    ensures
        (*final(l), p) == spec_resolve(*old(l), due_reached),
{
    match l.pending {
        Some(pend) => {
            if due_reached {
                l.pending = None;
                l.resolved = l.resolved.wrapping_add(1);
                Some(pend.payoff)
            } else {
                None
            }
        },
        None => None,
    }
}

/// A refugee wave landed with `crossed` groups: when any crossed, what
/// they fled follows them on the next sign.
pub fn refugees_crossed(l: &mut DreadLoop, crossed: usize)
    ensures
        final(l).pending == old(l).pending,
        final(l).resolved == old(l).resolved,
        final(l).next_is_real == (old(l).next_is_real || crossed > 0),
{
    if crossed > 0 {
        l.next_is_real = true;
    }
}

/// The early telegraph lines.
pub open spec fn early_sign(i: u64) -> &'static str {
    if i == 0 {
        "smoke rises on the far horizon"
    } else if i == 1 {
        "the birds have gone quiet to the north"
    } else if i == 2 {
        "refugees on the road speak of something behind them"
    } else {
        "a cold wind carries the smell of rot from off the map"
    }
}

/// The late telegraph lines, more ominous.
pub open spec fn late_sign(i: u64) -> &'static str {
    if i == 0 {
        "gunfire echoes from beyond the ridge, closer than before"
    } else if i == 1 {
        "the dead are stirring at the map's edge, drawn by something"
    } else if i == 2 {
        "travellers will not say what they saw out there"
    } else {
        "the horizon glows at night where nothing should burn"
    }
}

/// The telegraph line. Never hints at the payoff, but grows more ominous
/// once four signs have resolved.
pub open spec fn spec_dread_sign(now_bits: u32, resolved: u32) -> &'static str {
    let i = spec_rng(now_bits, 2, 4);
    if resolved >= 4 { late_sign(i) } else { early_sign(i) }
}

/// Choose the telegraph line for a new sign.
pub fn dread_sign(now_bits: u32, resolved: u32) -> (s: &'static str)
    ensures
        s == spec_dread_sign(now_bits, resolved),
{
    let i = rng(now_bits, 2, 4);
    if resolved >= 4 {
        if i == 0 {
            "gunfire echoes from beyond the ridge, closer than before"
        } else if i == 1 {
            "the dead are stirring at the map's edge, drawn by something"
        } else if i == 2 {
            "travellers will not say what they saw out there"
        } else {
            "the horizon glows at night where nothing should burn"
        }
    } else {
        if i == 0 {
            "smoke rises on the far horizon"
        } else if i == 1 {
            "the birds have gone quiet to the north"
        } else if i == 2 {
            "refugees on the road speak of something behind them"
        } else {
            "a cold wind carries the smell of rot from off the map"
        }
    }
}

/// The false-alarm lines.
pub open spec fn spec_false_alarm_line(now_bits: u32) -> &'static str {
    let i = spec_rng(now_bits, 3, 3);
    if i == 0 {
        "whatever it was, it never came; the unease lingers"
    } else if i == 1 {
        "the horizon went still again, and no one believes it will last"
    } else {
        "the threat passed the map by, or is only waiting"
    }
}

/// Choose the line that closes a false alarm.
pub fn false_alarm_line(now_bits: u32) -> (s: &'static str)
    ensures
        s == spec_false_alarm_line(now_bits),
{
    let i = rng(now_bits, 3, 3);
    if i == 0 {
        "whatever it was, it never came; the unease lingers"
    } else if i == 1 {
        "the horizon went still again, and no one believes it will last"
    } else {
        "the threat passed the map by, or is only waiting"
    }
}

/// The compass direction a signal comes from.
pub open spec fn signal_dir(i: u64) -> &'static str {
    if i == 0 {
        "north"
    } else if i == 1 {
        "south"
    } else if i == 2 {
        "east"
    } else {
        "west"
    }
}

/// The text of a signal template before the direction.
pub open spec fn signal_head(i: u64) -> &'static str {
    if i == 0 {
        "a radio crackles to life: a voice beyond the "
    } else if i == 1 {
        "for one night a broadcast from the "
    } else {
        "a signal from beyond the "
    }
}

/// The text of a signal template after the direction.
pub open spec fn signal_tail(i: u64) -> &'static str {
    if i == 0 {
        " edge repeats the same words, then static"
    } else if i == 1 {
        " promises safety to any who come; by morning it is gone"
    } else {
        " edge counts numbers into the dark, over and over"
    }
}

/// The off-map signal: a broadcast luring listeners toward the edge. It
/// names a direction but never a meaning.
pub open spec fn spec_signal_line(now_bits: u32) -> Seq<char> {
    let d = spec_rng(now_bits, 12, 4);
    let t = spec_rng(now_bits, 13, 3);
    signal_head(t)@ + signal_dir(d)@ + signal_tail(t)@
}

/// Compose the signal line.
pub fn signal_line(now_bits: u32) -> (s: String)
    ensures
        s@ == spec_signal_line(now_bits),
{
    let d = rng(now_bits, 12, 4);
    let t = rng(now_bits, 13, 3);
    let dir: &str = if d == 0 {
        "north"
    } else if d == 1 {
        "south"
    } else if d == 2 {
        "east"
    } else {
        "west"
    };
    let head: &str = if t == 0 {
        "a radio crackles to life: a voice beyond the "
    } else if t == 1 {
        "for one night a broadcast from the "
    } else {
        "a signal from beyond the "
    };
    let tail: &str = if t == 0 {
        " edge repeats the same words, then static"
    } else if t == 1 {
        " promises safety to any who come; by morning it is gone"
    } else {
        " edge counts numbers into the dark, over and over"
    };
    let mut s = String::from_str(head);
    s.append(dir);
    s.append(tail);
    s
}

/// Rust's integer division, rounding toward zero, of `v` by `n > 0`.
pub open spec fn trunc_div(v: int, n: int) -> int {
    if v >= 0 {
        v / n
    } else {
        -((-v) / n)
    }
}

/// The sum of the x (or y) coordinates of a list of points.
pub open spec fn sum_x(ps: Seq<Tile>) -> int
    decreases ps.len(),
{
    if ps.len() == 0 {
        0
    } else {
        sum_x(ps.drop_last()) + ps.last().x
    }
}

/// The sum of the y coordinates of a list of points.
pub open spec fn sum_y(ps: Seq<Tile>) -> int
    decreases ps.len(),
{
    if ps.len() == 0 {
        0
    } else {
        sum_y(ps.drop_last()) + ps.last().y
    }
}

/// Every running coordinate sum of the points fits 64-bit arithmetic.
pub open spec fn sums_fit(ps: Seq<Tile>) -> bool {
    forall|k: int|
        0 <= k <= ps.len() ==> i64::MIN <= #[trigger] sum_x(ps.take(k)) <= i64::MAX && i64::MIN
            <= sum_y(ps.take(k)) <= i64::MAX
}

/// The centroid of the settlements: the truncated mean of their centres.
pub open spec fn spec_centroid(ps: Seq<Tile>) -> Tile {
    Tile {
        x: trunc_div(sum_x(ps), ps.len() as int) as i64,
        y: trunc_div(sum_y(ps), ps.len() as int) as i64,
    }
}

/// The spread is at least this many tiles, whatever the map's layout.
pub const MIN_SPREAD: i64 = 200;

/// `spread` is the map's spread around `c`: the largest whole-tile
/// distance from the centroid to any settlement, at least `MIN_SPREAD`.
pub open spec fn is_spread(ps: Seq<Tile>, c: Tile, spread: int) -> bool {
    &&& spread >= MIN_SPREAD
    &&& (spread == MIN_SPREAD || exists|i: int|
        0 <= i < ps.len() && is_isqrt(spec_dist_sq(#[trigger] ps[i], c), spread))
    &&& forall|i: int|
        0 <= i < ps.len() ==> forall|r: int|
            is_isqrt(spec_dist_sq(#[trigger] ps[i], c), r) ==> r <= spread
}

fn trunc_div_exec(v: i64, n: i64) -> (q: i64)
    requires
        n > 0,
    ensures
        q == trunc_div(v as int, n as int),
{
    if v >= 0 {
        v / n
    } else if n == 1 {
        assert((-(v as int)) / 1 == -(v as int));
        v
    } else {
        // -v = p + 1 with p >= 0.
        let p: i64 = -(v + 1);
        let q0: i64 = p / n;
        let r0: i64 = p % n;
        proof {
            vstd::arithmetic::div_mod::lemma_fundamental_div_mod(p as int, n as int);
            vstd::arithmetic::div_mod::lemma_mod_pos_bound(p as int, n as int);
            assert(q0 <= p / 2) by (nonlinear_arith)
                requires
                    p >= 0,
                    n >= 2,
                    q0 == p / n,
            ;
        }
        let q: i64 = if r0 + 1 == n { q0 + 1 } else { q0 };
        proof {
            assert(p == n * q0 + r0);
            if r0 + 1 == n {
                assert(p + 1 == (q as int) * n + 0) by (nonlinear_arith)
                    requires
                        p == n * q0 + r0,
                        r0 + 1 == n,
                        q == q0 + 1,
                ;
                vstd::arithmetic::div_mod::lemma_fundamental_div_mod_converse(
                    p + 1,
                    n as int,
                    q as int,
                    0,
                );
            } else {
                assert(p + 1 == (q as int) * n + (r0 + 1)) by (nonlinear_arith)
                    requires
                        p == n * q0 + r0,
                        q == q0,
                ;
                vstd::arithmetic::div_mod::lemma_fundamental_div_mod_converse(
                    p + 1,
                    n as int,
                    q as int,
                    r0 + 1,
                );
            }
            assert(-(v as int) == p + 1);
            assert(q == (-(v as int)) / (n as int));
        }
        -q
    }
}

/// The populated heart of the map and roughly how wide it is: the
/// centroid of all settlement centres and the spread around it. `None`
/// when there is nothing to threaten.
pub fn centroid_and_spread(centres: &Vec<Tile>) -> (r: Option<(Tile, i64)>)
    requires
        centres@.len() <= i64::MAX,
        sums_fit(centres@),
        forall|i: int|
            0 <= i < centres@.len() ==> dist_fits(#[trigger] centres@[i], spec_centroid(centres@)),
    ensures
        centres@.len() == 0 <==> r is None,
        r matches Some((c, spread)) ==> c == spec_centroid(centres@) && is_spread(
            centres@,
            c,
            spread as int,
        ),
{
    let n = centres.len();
    if n == 0 {
        return None;
    }
    let mut sx: i64 = 0;
    let mut sy: i64 = 0;
    let mut i: usize = 0;
    while i < n
        invariant
            n == centres@.len(),
            sums_fit(centres@),
            i <= n,
            sx == sum_x(centres@.take(i as int)),
            sy == sum_y(centres@.take(i as int)),
        decreases n - i,
    {
        proof {
            assert(centres@.take(i + 1).drop_last() =~= centres@.take(i as int));
            assert(centres@.take(i + 1).last() == centres@[i as int]);
            assert(i64::MIN <= sum_x(centres@.take(i + 1)) <= i64::MAX);
            assert(i64::MIN <= sum_y(centres@.take(i + 1)) <= i64::MAX);
        }
        sx = sx + centres[i].x;
        sy = sy + centres[i].y;
        i = i + 1;
    }
    assert(centres@.take(n as int) =~= centres@);
    let nn: i64 = n as i64;
    let c = Tile { x: trunc_div_exec(sx, nn), y: trunc_div_exec(sy, nn) };
    let mut best: i64 = MIN_SPREAD;
    let ghost mut hit: bool = false;
    let mut k: usize = 0;
    while k < n
        invariant
            n == centres@.len(),
            k <= n,
            c == spec_centroid(centres@),
            forall|i: int| 0 <= i < centres@.len() ==> dist_fits(#[trigger] centres@[i], c),
            best >= MIN_SPREAD,
            best == MIN_SPREAD || exists|i: int|
                0 <= i < k && is_isqrt(spec_dist_sq(#[trigger] centres@[i], c), best as int),
            forall|i: int|
                0 <= i < k ==> forall|r: int|
                    is_isqrt(spec_dist_sq(#[trigger] centres@[i], c), r) ==> r <= best,
        decreases n - k,
    {
        let d = dist_sq(centres[k], c);
        let s = isqrt(d);
        proof {
            assert forall|r: int| is_isqrt(spec_dist_sq(centres@[k as int], c), r) implies r == s by {
                lemma_isqrt_unique(spec_dist_sq(centres@[k as int], c), r, s as int);
            }
        }
        if s > best {
            best = s;
        }
        k = k + 1;
    }
    Some((c, best))
}

/// Two floors of the same square root are equal.
proof fn lemma_isqrt_unique(v: int, a: int, b: int)
    requires
        is_isqrt(v, a),
        is_isqrt(v, b),
    ensures
        a == b,
{
    if a < b {
        assert((a + 1) * (a + 1) <= b * b) by (nonlinear_arith)
            requires
                0 <= a,
                a + 1 <= b,
        ;
    } else if b < a {
        assert((b + 1) * (b + 1) <= a * a) by (nonlinear_arith)
            requires
                0 <= b,
                b + 1 <= a,
        ;
    }
}

/// A floor square root of a non-negative value exists.
proof fn isqrt_witness(v: int) -> (r: int)
    requires
        v >= 0,
    ensures
        is_isqrt(v, r),
    decreases v,
{
    if v == 0 {
        0
    } else {
        let q = isqrt_witness(v - 1);
        assert(0 <= q && q * q <= v - 1 && v - 1 < (q + 1) * (q + 1));
        if (q + 1) * (q + 1) <= v {
            assert((q + 1) * (q + 1) == v) by (nonlinear_arith)
                requires
                    (q + 1) * (q + 1) <= v,
                    v - 1 < (q + 1) * (q + 1),
            ;
            assert(v < (q + 2) * (q + 2)) by (nonlinear_arith)
                requires
                    (q + 1) * (q + 1) == v,
                    q >= 0,
            ;
            assert(is_isqrt(v, q + 1));
            q + 1
        } else {
            assert(is_isqrt(v, q));
            q
        }
    }
}

/// Which camps an edge band is set hostile to: every camp for a military
/// remnant, only the nearest (`best`) for raiders.
pub fn hostile_to(n: usize, best: usize, hostile_all: bool) -> (h: Vec<bool>)
    ensures
        h@.len() == n,
        forall|i: int| 0 <= i < n ==> #[trigger] h@[i] == (hostile_all || i == best),
{
    let mut h: Vec<bool> = Vec::new();
    let mut i: usize = 0;
    while i < n
        invariant
            i <= n,
            h@.len() == i,
            forall|j: int| 0 <= j < i ==> #[trigger] h@[j] == (hostile_all || j == best),
        decreases n - i,
    {
        h.push(hostile_all || i == best);
        i = i + 1;
    }
    h
}

/// At most one sign is out: a second sign while one is pending changes
/// nothing and rolls no payoff.
pub proof fn law_one_sign_at_a_time(l: DreadLoop, now_bits: u32, due_bits: u32)
    requires
        l.pending is Some,
    ensures
        spec_sign(l, now_bits, due_bits) == (l, None::<Payoff>),
{
}

/// What the refugees fled follows them: after a wave crossed, the next
/// sign's payoff is raiders, a military remnant, or the mega-horde.
pub proof fn law_refugees_foreshadow(l: DreadLoop, crossed: usize, now_bits: u32, due_bits: u32)
    requires
        l.pending is None,
        crossed > 0,
    ensures
        ({
            let l2 = DreadLoop { next_is_real: l.next_is_real || crossed > 0, ..l };
            let p = spec_sign(l2, now_bits, due_bits).1;
            p == Some(Payoff::Raiders) || p == Some(Payoff::Military) || p == Some(
                Payoff::MegaHorde,
            )
        }),
{
}

/// Every sign pays off once: the payoff a sign rolled is the one that
/// lands when its time comes, and the loop is free for the next sign.
pub proof fn law_sign_then_resolve(l: DreadLoop, now_bits: u32, due_bits: u32)
    requires
        l.pending is None,
    ensures
        ({
            let (l2, p) = spec_sign(l, now_bits, due_bits);
            let (l3, q) = spec_resolve(l2, true);
            p is Some && q == p && l3.pending is None
        }),
{
}

/// Escalation: the false-alarm chance never rises and never drops below
/// 20%; the raiders chance never falls and never exceeds 70%.
pub proof fn law_escalation(a: u32, b: u32)
    requires
        a <= b,
    ensures
        spec_false_pct(b) <= spec_false_pct(a),
        20 <= spec_false_pct(b) <= 60,
        spec_raiders_pct(a) <= spec_raiders_pct(b),
        30 <= spec_raiders_pct(a) <= 70,
{
}

/// The payoff table against its rolls, one payoff at a time: each payoff
/// comes only from its own roll under its own threshold, after every
/// earlier roll of the table missed. Early signs are false alarms below
/// 60% (five points less per resolved sign, never below 20%); then,
/// late, the mega-horde (below 15%), the military (below 20%), the
/// settlers (below 15%); at any time the lone stranger (below 15%), the
/// refugee wave (below 12%), the signal (below 12%); else raiders
/// (30% rising five points a sign to 70%) or a plain arrival. After a
/// refugee wave the next sign is a real threat: the mega-horde (below
/// 30%), the military (below 40%) or raiders.
pub proof fn law_payoff_table(now_bits: u32, resolved: u32, next_is_real: bool)
    ensures
        ({
            let p = spec_choose_payoff(now_bits, resolved, next_is_real);
            let r0 = spec_rng(now_bits, 0, 100);
            let r4 = spec_rng(now_bits, 4, 100);
            let r6 = spec_rng(now_bits, 6, 100);
            let r7 = spec_rng(now_bits, 7, 100);
            let r8 = spec_rng(now_bits, 8, 100);
            let r9 = spec_rng(now_bits, 9, 100);
            let r10 = spec_rng(now_bits, 10, 100);
            let r11 = spec_rng(now_bits, 11, 100);
            let past_alarm = r0 >= 60 - 5 * resolved && r0 >= 20;
            let no_late = !(resolved >= 6 && r6 < 15) && !(resolved >= 4 && r7 < 20) && !(resolved
                >= 2 && r8 < 15);
            let calm = !next_is_real && past_alarm && no_late && r9 >= 15;
            &&& next_is_real ==> (p == Payoff::MegaHorde || p == Payoff::Military || p
                == Payoff::Raiders)
            &&& next_is_real ==> (p == Payoff::MegaHorde <==> resolved >= 6 && r6 < 30)
            &&& next_is_real ==> (p == Payoff::Military <==> !(resolved >= 6 && r6 < 30) && resolved
                >= 4 && r7 < 40)
            &&& !next_is_real ==> (p == Payoff::FalseAlarm <==> !past_alarm)
            &&& p == Payoff::Settlers ==> !next_is_real && past_alarm && resolved >= 2 && r8 < 15
            &&& p == Payoff::MysteriousStranger ==> !next_is_real && past_alarm && no_late && r9 < 15
            &&& (p == Payoff::RefugeeWave <==> calm && r10 < 12)
            &&& (p == Payoff::Signal <==> calm && r10 >= 12 && r11 < 12)
            &&& !next_is_real && p == Payoff::MegaHorde ==> past_alarm && resolved >= 6 && r6 < 15
            &&& !next_is_real && p == Payoff::Military ==> past_alarm && !(resolved >= 6 && r6 < 15)
                && resolved >= 4 && r7 < 20
            &&& !next_is_real && p == Payoff::Raiders ==> calm && r10 >= 12 && r11 >= 12 && r4 < 30
                + 5 * resolved && r4 < 70
            &&& p == Payoff::Arrival ==> calm && r10 >= 12 && r11 >= 12 && (r4 >= 30 + 5 * resolved
                || r4 >= 70)
        }),
{
}

} // verus!
