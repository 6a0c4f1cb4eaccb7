//! Structure growth by annexes: a settlement whose beds are full, that
//! can feed more people and is building nothing, fences one strip of
//! ground beside its base, puts a gate in the middle of the strip's
//! outer edge and a shack in its middle, and claims the strip.
//!
//! The game's builders do the building from real materials; this module
//! plans: which camps want an annex, which side of the base takes it,
//! which tiles get fence posts, and the orders handed to the builders.
//! Ground passability is the game's; the planner takes the passable
//! tiles it was told of and counts every other tile as blocked.

use vstd::prelude::*;

use crate::camp::{CommunityKind, is_settlement_kind};
use crate::geo::Tile;

verus! {

/// How deep, in tiles, an annex reaches out from the base's edge.
pub const ANNEX_DEPTH: i64 = 6;

/// A base rectangle, corners inclusive.
#[derive(Clone, Copy, PartialEq, Eq, Debug)]
pub struct Rect {
    pub minx: i64,
    pub miny: i64,
    pub maxx: i64,
    pub maxy: i64,
}

/// A rectangle the game reports for a real base: not the invalid
/// marker, and not degenerate.
pub open spec fn spec_valid_base(r: Rect) -> bool {
    r.minx >= 0 && r.maxx > r.minx && r.maxy > r.miny
}

/// Whether a base rectangle read from the game is a real base.
pub fn valid_base(r: Rect) -> (b: bool)
    ensures
        b == spec_valid_base(r),
{
    !(r.minx < 0 || r.maxx <= r.minx || r.maxy <= r.miny)
}

/// The base lies far enough from the ends of the 64-bit range for every
/// annex coordinate to be computed.
pub open spec fn base_fits(r: Rect) -> bool {
    r.maxx < i64::MAX - ANNEX_DEPTH && r.maxy < i64::MAX - ANNEX_DEPTH && r.miny > i64::MIN + ANNEX_DEPTH
}

/// The side of the base an annex is attached to.
#[derive(Clone, Copy, PartialEq, Eq, Debug, Structural)]
pub enum Side {
    East,
    South,
    West,
    North,
}

/// The side's name, as the chronicle writes it.
pub fn side_name(s: Side) -> (n: &'static str)
    ensures
        n@ == spec_side_name(s)@,
{
    match s {
        Side::East => "east",
        Side::South => "south",
        Side::West => "west",
        Side::North => "north",
    }
}

/// The side's name.
pub open spec fn spec_side_name(s: Side) -> &'static str {
    match s {
        Side::East => "east",
        Side::South => "south",
        Side::West => "west",
        Side::North => "north",
    }
}

/// The strip an annex on side `s` covers: `ANNEX_DEPTH` tiles beyond
/// the base's edge, as long as the base along that edge.
pub open spec fn spec_strip(b: Rect, s: Side) -> Rect {
    match s {
        Side::East => Rect { minx: (b.maxx + 1) as i64, miny: b.miny, maxx: (b.maxx + ANNEX_DEPTH) as i64, maxy: b.maxy },
        Side::West => Rect { minx: (b.minx - ANNEX_DEPTH) as i64, miny: b.miny, maxx: (b.minx - 1) as i64, maxy: b.maxy },
        Side::South => Rect { minx: b.minx, miny: (b.maxy + 1) as i64, maxx: b.maxx, maxy: (b.maxy + ANNEX_DEPTH) as i64 },
        Side::North => Rect { minx: b.minx, miny: (b.miny - ANNEX_DEPTH) as i64, maxx: b.maxx, maxy: (b.miny - 1) as i64 },
    }
}

/// A strip that runs off the map's first row or column is not used.
pub open spec fn strip_usable(a: Rect) -> bool {
    a.minx >= 1 && a.miny >= 1
}

/// The posts of one column `x` of the strip: its top post unless the
/// top is the edge shared with the base, then its bottom post unless the
/// bottom is.
pub open spec fn column_posts(a: Rect, s: Side, x: int) -> Seq<Tile> {
    (if s != Side::South { seq![Tile { x: x as i64, y: a.miny }] } else { Seq::empty() }) + (if s
        != Side::North {
        seq![Tile { x: x as i64, y: a.maxy }]
    } else {
        Seq::empty()
    })
}

/// The posts of one row `y` strictly between the strip's top and
/// bottom: its left post unless the left is shared with the base, then
/// its right post unless the right is.
pub open spec fn row_posts(a: Rect, s: Side, y: int) -> Seq<Tile> {
    (if s != Side::East { seq![Tile { x: a.minx, y: y as i64 }] } else { Seq::empty() }) + (if s
        != Side::West {
        seq![Tile { x: a.maxx, y: y as i64 }]
    } else {
        Seq::empty()
    })
}

/// The posts of the first `k` columns, left to right.
pub open spec fn columns(a: Rect, s: Side, k: nat) -> Seq<Tile>
    decreases k,
{
    if k == 0 {
        Seq::empty()
    } else {
        columns(a, s, (k - 1) as nat) + column_posts(a, s, a.minx + k - 1)
    }
}

/// The posts of the first `k` inner rows, top to bottom.
pub open spec fn rows(a: Rect, s: Side, k: nat) -> Seq<Tile>
    decreases k,
{
    if k == 0 {
        Seq::empty()
    } else {
        rows(a, s, (k - 1) as nat) + row_posts(a, s, a.miny + k)
    }
}

/// The fence line of the strip: its perimeter without the side it
/// shares with the base, columns first, then the inner rows.
pub open spec fn spec_fence(a: Rect, s: Side) -> Seq<Tile> {
    columns(a, s, (a.maxx - a.minx + 1) as nat) + rows(a, s, (a.maxy - a.miny - 1) as nat)
}

/// Ground the planner was not told is passable counts as blocked.
pub open spec fn blocked(passable: Seq<Tile>, t: Tile) -> bool {
    !passable.contains(t)
}

/// How many tiles of `ts` are blocked.
pub open spec fn count_blocked(ts: Seq<Tile>, passable: Seq<Tile>) -> nat
    decreases ts.len(),
{
    if ts.len() == 0 {
        0
    } else {
        count_blocked(ts.drop_last(), passable) + (if blocked(passable, ts.last()) { 1nat } else { 0nat })
    }
}

/// Where an annex's gate stands: the middle of the strip's outer edge.
pub open spec fn spec_gate(a: Rect, s: Side) -> Tile {
    let mx = ((a.minx + a.maxx) / 2) as i64;
    let my = ((a.miny + a.maxy) / 2) as i64;
    match s {
        Side::East => Tile { x: a.maxx, y: my },
        Side::West => Tile { x: a.minx, y: my },
        Side::South => Tile { x: mx, y: a.maxy },
        Side::North => Tile { x: mx, y: a.miny },
    }
}

/// The shack: the middle of the strip.
pub open spec fn spec_hut(a: Rect) -> Tile {
    Tile { x: ((a.minx + a.maxx) / 2) as i64, y: ((a.miny + a.maxy) / 2) as i64 }
}

/// The side takes an annex: its strip is on the map, at most a quarter
/// of its fence line is blocked, and the shack's tile is not.
pub open spec fn side_ok(b: Rect, passable: Seq<Tile>, s: Side) -> bool {
    let a = spec_strip(b, s);
    let f = spec_fence(a, s);
    &&& strip_usable(a)
    &&& 4 * count_blocked(f, passable) <= f.len()
    &&& !blocked(passable, spec_hut(a))
}

/// The first side, in the order east, south, west, north, that takes an
/// annex.
pub open spec fn spec_first_side(b: Rect, passable: Seq<Tile>) -> Option<Side> {
    if side_ok(b, passable, Side::East) {
        Some(Side::East)
    } else if side_ok(b, passable, Side::South) {
        Some(Side::South)
    } else if side_ok(b, passable, Side::West) {
        Some(Side::West)
    } else if side_ok(b, passable, Side::North) {
        Some(Side::North)
    } else {
        None
    }
}

/// The posts actually ordered: the fence line without its gate tile
/// and without blocked tiles.
pub open spec fn kept_posts(f: Seq<Tile>, gate: Tile, passable: Seq<Tile>) -> Seq<Tile> {
    f.filter(keeps_post(gate, passable))
}

/// A post is kept off its gate tile and off blocked ground.
pub open spec fn keeps_post(gate: Tile, passable: Seq<Tile>) -> spec_fn(Tile) -> bool {
    |t: Tile| t != gate && !blocked(passable, t)
}

/// The smallest rectangle holding both.
pub open spec fn spec_union(b: Rect, a: Rect) -> Rect {
    Rect {
        minx: if b.minx <= a.minx { b.minx } else { a.minx },
        miny: if b.miny <= a.miny { b.miny } else { a.miny },
        maxx: if b.maxx >= a.maxx { b.maxx } else { a.maxx },
        maxy: if b.maxy >= a.maxy { b.maxy } else { a.maxy },
    }
}

/// An annex ready to be ordered.
#[derive(Clone, Debug)]
pub struct AnnexPlan {
    pub side: Side,
    pub fence_tiles: Vec<Tile>,
    pub gate: Tile,
    pub hut: Tile,
    /// The base rectangle once the strip is claimed.
    pub new_rect: Rect,
}

/// `p` is the annex on side `s` of base `b`.
pub open spec fn plan_of(p: AnnexPlan, b: Rect, passable: Seq<Tile>, s: Side) -> bool {
    let a = spec_strip(b, s);
    &&& p.side == s
    &&& p.gate == spec_gate(a, s)
    &&& p.hut == spec_hut(a)
    &&& p.fence_tiles@ == kept_posts(spec_fence(a, s), spec_gate(a, s), passable)
    &&& p.new_rect == spec_union(b, a)
}

fn strip(b: Rect, s: Side) -> (a: Rect)
    requires
        spec_valid_base(b),
        base_fits(b),
    ensures
        a == spec_strip(b, s),
        a.maxx > a.minx || (s == Side::East || s == Side::West),
        a.maxx >= a.minx,
        a.maxy > a.miny,
        a.maxx < i64::MAX,
        a.maxy < i64::MAX,
{
    match s {
        Side::East => Rect { minx: b.maxx + 1, miny: b.miny, maxx: b.maxx + ANNEX_DEPTH, maxy: b.maxy },
        Side::West => Rect { minx: b.minx - ANNEX_DEPTH, miny: b.miny, maxx: b.minx - 1, maxy: b.maxy },
        Side::South => Rect { minx: b.minx, miny: b.maxy + 1, maxx: b.maxx, maxy: b.maxy + ANNEX_DEPTH },
        Side::North => Rect { minx: b.minx, miny: b.miny - ANNEX_DEPTH, maxx: b.maxx, maxy: b.miny - 1 },
    }
}

/// The fence line of strip `a` on side `s`.
pub fn fence_line(a: Rect, s: Side) -> (f: Vec<Tile>)
    requires
        a.maxx >= a.minx,
        a.maxy > a.miny,
        a.maxx < i64::MAX,
    ensures
        f@ == spec_fence(a, s),
{
    let mut f: Vec<Tile> = Vec::new();
    let mut x: i64 = a.minx;
    while x <= a.maxx
        invariant
            a.maxx >= a.minx,
            a.maxx < i64::MAX,
            a.minx <= x <= a.maxx + 1,
            f@ == columns(a, s, (x - a.minx) as nat),
        decreases a.maxx + 1 - x,
    {
        let ghost before = f@;
        let top = Tile { x, y: a.miny };
        let bottom = Tile { x, y: a.maxy };
        if s != Side::South {
            f.push(top);
        }
        let ghost mid_f = f@;
        assert(mid_f =~= before + (if s != Side::South { seq![top] } else { Seq::empty() }));
        if s != Side::North {
            f.push(bottom);
        }
        assert(f@ =~= mid_f + (if s != Side::North { seq![bottom] } else { Seq::empty() }));
        proof {
            let k = (x - a.minx) as nat;
            assert(columns(a, s, k + 1) == columns(a, s, k) + column_posts(a, s, a.minx + k));
            assert(f@ =~= before + column_posts(a, s, x as int));
        }
        x = x + 1;
    }
    let ghost cols = f@;
    let mut y: i64 = a.miny + 1;
    while y < a.maxy
        invariant
            a.maxy > a.miny,
            a.miny + 1 <= y <= a.maxy,
            f@ == cols + rows(a, s, (y - a.miny - 1) as nat),
        decreases a.maxy - y,
    {
        let ghost before = f@;
        let left = Tile { x: a.minx, y };
        let right = Tile { x: a.maxx, y };
        if s != Side::East {
            f.push(left);
        }
        let ghost mid_f = f@;
        assert(mid_f =~= before + (if s != Side::East { seq![left] } else { Seq::empty() }));
        if s != Side::West {
            f.push(right);
        }
        assert(f@ =~= mid_f + (if s != Side::West { seq![right] } else { Seq::empty() }));
        proof {
            let k = (y - a.miny - 1) as nat;
            assert(rows(a, s, k + 1) == rows(a, s, k) + row_posts(a, s, a.miny + k + 1));
            assert(before + row_posts(a, s, y as int) =~= cols + rows(a, s, k + 1));
            assert(f@ =~= before + row_posts(a, s, y as int));
        }
        y = y + 1;
    }
    f
}

/// Whether `t` is among the passable tiles.
fn is_passable(passable: &Vec<Tile>, t: Tile) -> (r: bool)
    ensures
        r == passable@.contains(t),
{
    let mut i: usize = 0;
    while i < passable.len()
        invariant
            i <= passable.len(),
            forall|j: int| 0 <= j < i ==> passable@[j] != t,
        decreases passable.len() - i,
    {
        if passable[i] == t {
            return true;
        }
        i = i + 1;
    }
    false
}

/// How many tiles of the fence line are blocked.
fn blocked_count(f: &Vec<Tile>, passable: &Vec<Tile>) -> (n: usize)
    ensures
        n == count_blocked(f@, passable@),
{
    let mut n: usize = 0;
    let mut i: usize = 0;
    while i < f.len()
        invariant
            i <= f.len(),
            n <= i,
            n == count_blocked(f@.take(i as int), passable@),
        decreases f.len() - i,
    {
        proof {
            assert(f@.take(i + 1).drop_last() =~= f@.take(i as int));
        }
        if !is_passable(passable, f[i]) {
            n = n + 1;
        }
        i = i + 1;
    }
    assert(f@.take(f.len() as int) =~= f@);
    n
}

/// Floor of half the sum of two positive coordinates, computed without
/// overflow.
fn mid(lo: i64, hi: i64) -> (m: i64)
    requires
        1 <= lo <= hi,
    ensures
        m == (lo + hi) / 2,
{
    lo + (hi - lo) / 2
}

/// The annex on side `s`, if that side takes one.
fn try_side(b: Rect, passable: &Vec<Tile>, s: Side) -> (r: Option<AnnexPlan>)
    requires
        spec_valid_base(b),
        base_fits(b),
    ensures
        r is Some <==> side_ok(b, passable@, s),
        r matches Some(p) ==> plan_of(p, b, passable@, s),
{
    let a = strip(b, s);
    if a.minx < 1 || a.miny < 1 {
        return None;
    }
    let f = fence_line(a, s);
    let n = blocked_count(&f, passable);
    if (n as u128) * 4 > f.len() as u128 {
        return None;
    }
    let mx = mid(a.minx, a.maxx);
    let my = mid(a.miny, a.maxy);
    let hut = Tile { x: mx, y: my };
    if !is_passable(passable, hut) {
        return None;
    }
    let gate = match s {
        Side::East => Tile { x: a.maxx, y: my },
        Side::West => Tile { x: a.minx, y: my },
        Side::South => Tile { x: mx, y: a.maxy },
        Side::North => Tile { x: mx, y: a.miny },
    };
    let mut kept: Vec<Tile> = Vec::new();
    let mut i: usize = 0;
    while i < f.len()
        invariant
            i <= f.len(),
            kept@ == kept_posts(f@.take(i as int), gate, passable@),
        decreases f.len() - i,
    {
        let t = f[i];
        proof {
            reveal_with_fuel(Seq::<Tile>::filter, 1);
            assert(f@.take(i + 1).drop_last() =~= f@.take(i as int));
        }
        if t != gate && is_passable(passable, t) {
            kept.push(t);
        }
        i = i + 1;
    }
    assert(f@.take(f.len() as int) =~= f@);
    let new_rect = Rect {
        minx: if b.minx <= a.minx { b.minx } else { a.minx },
        miny: if b.miny <= a.miny { b.miny } else { a.miny },
        maxx: if b.maxx >= a.maxx { b.maxx } else { a.maxx },
        maxy: if b.maxy >= a.maxy { b.maxy } else { a.maxy },
    };
    Some(AnnexPlan { side: s, fence_tiles: kept, gate, hut, new_rect })
}

/// Plan the annex of base `b`: the first side, east, south, west, north,
/// that takes one, or none. A rectangle that is no real base (the game's
/// invalid marker, or a degenerate one) gets no annex.
pub fn plan_annex(b: Rect, passable: &Vec<Tile>) -> (r: Option<AnnexPlan>)
    requires
        base_fits(b),
    ensures
        !spec_valid_base(b) ==> r is None,
        spec_valid_base(b) ==> (r is None <==> spec_first_side(b, passable@) is None),
        r matches Some(p) ==> spec_first_side(b, passable@) == Some(p.side) && plan_of(
            p,
            b,
            passable@,
            p.side,
        ),
{
    if !valid_base(b) {
        return None;
    }
    if let Some(p) = try_side(b, passable, Side::East) {
        return Some(p);
    }
    if let Some(p) = try_side(b, passable, Side::South) {
        return Some(p);
    }
    if let Some(p) = try_side(b, passable, Side::West) {
        return Some(p);
    }
    try_side(b, passable, Side::North)
}

/// The tiles the planner looks at on side `s`: the fence line and the
/// shack's tile, where the strip is on the map.
pub open spec fn side_probe(b: Rect, s: Side) -> Seq<Tile> {
    let a = spec_strip(b, s);
    if strip_usable(a) {
        spec_fence(a, s).push(spec_hut(a))
    } else {
        Seq::empty()
    }
}

/// Every tile whose passability the planner may ask about, side by side.
pub open spec fn spec_probe_tiles(b: Rect) -> Seq<Tile> {
    side_probe(b, Side::East) + side_probe(b, Side::South) + side_probe(b, Side::West) + side_probe(
        b,
        Side::North,
    )
}

fn probe_side(b: Rect, s: Side, out: &mut Vec<Tile>)
    requires
        spec_valid_base(b),
        base_fits(b),
    ensures
        final(out)@ == old(out)@ + side_probe(b, s),
{
    let a = strip(b, s);
    if a.minx < 1 || a.miny < 1 {
        assert(old(out)@ + side_probe(b, s) =~= old(out)@);
        return;
    }
    let f = fence_line(a, s);
    let ghost start = out@;
    let mut i: usize = 0;
    while i < f.len()
        invariant
            i <= f.len(),
            out@ == start + f@.take(i as int),
        decreases f.len() - i,
    {
        out.push(f[i]);
        assert(f@.take(i + 1) =~= f@.take(i as int).push(f@[i as int]));
        assert(out@ =~= start + f@.take(i + 1));
        i = i + 1;
    }
    assert(f@.take(f.len() as int) =~= f@);
    out.push(Tile { x: mid(a.minx, a.maxx), y: mid(a.miny, a.maxy) });
    assert(out@ =~= start + f@.push(spec_hut(a)));
}

/// The tiles whose passability the app reads from the game before
/// planning an annex of base `b`; none for a rectangle that is no real
/// base.
pub fn probe_tiles(b: Rect) -> (r: Vec<Tile>)
    requires
        base_fits(b),
    ensures
        !spec_valid_base(b) ==> r@.len() == 0,
        spec_valid_base(b) ==> r@ == spec_probe_tiles(b),
{
    if !valid_base(b) {
        return Vec::new();
    }
    let mut r: Vec<Tile> = Vec::new();
    probe_side(b, Side::East, &mut r);
    probe_side(b, Side::South, &mut r);
    probe_side(b, Side::West, &mut r);
    probe_side(b, Side::North, &mut r);
    assert(r@ =~= spec_probe_tiles(b));
    r
}

/// A camp as the annex scan sees it.
#[derive(Clone, Copy, Debug)]
pub struct AnnexCamp {
    pub kind: CommunityKind,
    pub ai_settlement: bool,
    /// Living, non-zombie members.
    pub living: i64,
    /// Beds the camp has.
    pub beds: i64,
    /// The camp's food would feed one more mouth (its nutrition level is
    /// at least one).
    pub well_fed: bool,
    /// Construction records waiting for a builder.
    pub queued_builds: usize,
    /// Buildings under construction.
    pub builds_under_way: usize,
}

/// The camp wants an annex: a living AI settlement whose beds are full,
/// that can feed more people and is building nothing.
pub open spec fn spec_wants_annex(c: AnnexCamp) -> bool {
    &&& is_settlement_kind(c.kind)
    &&& c.ai_settlement
    &&& c.living != 0
    &&& c.living >= c.beds
    &&& c.well_fed
    &&& c.queued_builds == 0
    &&& c.builds_under_way == 0
}

/// Whether the camp wants an annex.
pub fn wants_annex(c: &AnnexCamp) -> (b: bool)
    ensures
        b == spec_wants_annex(*c),
{
    let settlement = matches!(c.kind, CommunityKind::Normal | CommunityKind::Looter);
    settlement && c.ai_settlement && c.living != 0 && c.living >= c.beds && c.well_fed
        && c.queued_builds == 0 && c.builds_under_way == 0
}

/// What a builder is asked to put up.
#[derive(Clone, Copy, PartialEq, Eq, Debug, Structural)]
pub enum Structure {
    WoodFence,
    WireFence,
    WoodGate,
    WireGate,
    Shack,
}

/// The game prototype a structure is built from.
pub fn structure_name(s: Structure) -> (n: &'static str)
    ensures
        n@ == spec_structure_name(s)@,
{
    match s {
        Structure::WoodFence => "WoodFence",
        Structure::WireFence => "WireFence",
        Structure::WoodGate => "WoodGate",
        Structure::WireGate => "WireGate",
        Structure::Shack => "Shack",
    }
}

/// The game prototype a structure is built from.
pub open spec fn spec_structure_name(s: Structure) -> &'static str {
    match s {
        Structure::WoodFence => "WoodFence",
        Structure::WireFence => "WireFence",
        Structure::WoodGate => "WoodGate",
        Structure::WireGate => "WireGate",
        Structure::Shack => "Shack",
    }
}

/// The wall doctrine: looters fence with wire, everyone else with wood.
pub open spec fn spec_walls(kind: CommunityKind) -> (Structure, Structure) {
    if kind == CommunityKind::Looter {
        (Structure::WireFence, Structure::WireGate)
    } else {
        (Structure::WoodFence, Structure::WoodGate)
    }
}

/// The fence and gate a camp of this kind builds.
pub fn walls(kind: CommunityKind) -> (r: (Structure, Structure))
    ensures
        r == spec_walls(kind),
{
    match kind {
        CommunityKind::Looter => (Structure::WireFence, Structure::WireGate),
        _ => (Structure::WoodFence, Structure::WoodGate),
    }
}

/// One construction record.
#[derive(Clone, Copy, PartialEq, Eq, Debug)]
pub struct BuildOrder {
    pub structure: Structure,
    pub tile: Tile,
}

/// The records of an annex, in the order the builders take them: every
/// fence post first (the area is not safe until enclosed), then the
/// gate, then the shack.
pub open spec fn spec_build_orders(p: AnnexPlan, kind: CommunityKind) -> Seq<BuildOrder> {
    let (fence, gate) = spec_walls(kind);
    p.fence_tiles@.map_values(|t: Tile| BuildOrder { structure: fence, tile: t }).push(
        BuildOrder { structure: gate, tile: p.gate },
    ).push(BuildOrder { structure: Structure::Shack, tile: p.hut })
}

/// The construction records of an annex.
pub fn build_orders(p: &AnnexPlan, kind: CommunityKind) -> (r: Vec<BuildOrder>)
    ensures
        r@ == spec_build_orders(*p, kind),
{
    let (fence, gate) = walls(kind);
    let mut r: Vec<BuildOrder> = Vec::new();
    let mut i: usize = 0;
    while i < p.fence_tiles.len()
        invariant
            i <= p.fence_tiles.len(),
            r@ == p.fence_tiles@.take(i as int).map_values(|t: Tile| BuildOrder { structure: fence, tile: t }),
        decreases p.fence_tiles.len() - i,
    {
        r.push(BuildOrder { structure: fence, tile: p.fence_tiles[i] });
        proof {
            assert(p.fence_tiles@.take(i + 1).map_values(|t: Tile| BuildOrder { structure: fence, tile: t })
                =~= p.fence_tiles@.take(i as int).map_values(|t: Tile| BuildOrder { structure: fence, tile: t }).push(
                BuildOrder { structure: fence, tile: p.fence_tiles@[i as int] },
            ));
        }
        i = i + 1;
    }
    assert(p.fence_tiles@.take(p.fence_tiles.len() as int) =~= p.fence_tiles@);
    r.push(BuildOrder { structure: gate, tile: p.gate });
    r.push(BuildOrder { structure: Structure::Shack, tile: p.hut });
    r
}

/// An annex never fences its own gate nor blocked ground, every post
/// lies on the strip's fence line, and the claimed rectangle holds both
/// the old base and the strip.
pub proof fn law_annex_posts_stand_on_open_ground(b: Rect, passable: Seq<Tile>, p: AnnexPlan)
    requires
        spec_first_side(b, passable) == Some(p.side),
        plan_of(p, b, passable, p.side),
    ensures
        forall|i: int| 0 <= i < p.fence_tiles@.len() ==> {
            &&& #[trigger] p.fence_tiles@[i] != p.gate
            &&& passable.contains(p.fence_tiles@[i])
            &&& spec_fence(spec_strip(b, p.side), p.side).contains(p.fence_tiles@[i])
        },
        passable.contains(p.hut),
        p.new_rect.minx <= b.minx && p.new_rect.miny <= b.miny,
        p.new_rect.maxx >= b.maxx && p.new_rect.maxy >= b.maxy,
{
    let a = spec_strip(b, p.side);
    let f = spec_fence(a, p.side);
    let g = spec_gate(a, p.side);
    let pred = keeps_post(g, passable);
    assert forall|i: int| 0 <= i < p.fence_tiles@.len() implies {
        &&& #[trigger] p.fence_tiles@[i] != p.gate
        &&& passable.contains(p.fence_tiles@[i])
        &&& f.contains(p.fence_tiles@[i])
    } by {
        assert(p.fence_tiles@ == f.filter(pred));
        f.lemma_filter_pred(pred, i);
        assert(f.filter(pred).contains(p.fence_tiles@[i]));
        f.lemma_filter_contains_rev(pred, p.fence_tiles@[i]);
    }
}

/// The first side a camp would annex is never one whose strip runs off
/// the map, nor one with more than a quarter of its fence line blocked.
pub proof fn law_annex_side_is_sound(b: Rect, passable: Seq<Tile>)
    ensures
        spec_first_side(b, passable) matches Some(s) ==> side_ok(b, passable, s),
        spec_first_side(b, passable) is None ==> !side_ok(b, passable, Side::East) && !side_ok(
            b,
            passable,
            Side::South,
        ) && !side_ok(b, passable, Side::West) && !side_ok(b, passable, Side::North),
{
}

proof fn lemma_columns_hold(a: Rect, s: Side, k: nat, j: int, t: Tile)
    requires
        0 <= j < k,
        column_posts(a, s, a.minx + j).contains(t),
    ensures
        columns(a, s, k).contains(t),
    decreases k,
{
    let prev = columns(a, s, (k - 1) as nat);
    let last = column_posts(a, s, a.minx + k - 1);
    assert(columns(a, s, k) == prev + last);
    if j == k - 1 {
        let i = choose|i: int| 0 <= i < last.len() && last[i] == t;
        assert((prev + last)[prev.len() + i] == t);
    } else {
        lemma_columns_hold(a, s, (k - 1) as nat, j, t);
        let i = choose|i: int| 0 <= i < prev.len() && prev[i] == t;
        assert((prev + last)[i] == t);
    }
}

proof fn lemma_rows_hold(a: Rect, s: Side, k: nat, j: int, t: Tile)
    requires
        1 <= j <= k,
        row_posts(a, s, a.miny + j).contains(t),
    ensures
        rows(a, s, k).contains(t),
    decreases k,
{
    let prev = rows(a, s, (k - 1) as nat);
    let last = row_posts(a, s, a.miny + k);
    assert(rows(a, s, k) == prev + last);
    if j == k {
        let i = choose|i: int| 0 <= i < last.len() && last[i] == t;
        assert((prev + last)[prev.len() + i] == t);
    } else {
        lemma_rows_hold(a, s, (k - 1) as nat, j, t);
        let i = choose|i: int| 0 <= i < prev.len() && prev[i] == t;
        assert((prev + last)[i] == t);
    }
}

/// An annex's gate opens its outer fence: it stands on the strip's fence
/// line (so the fence has its opening there and no post takes its tile),
/// on the edge of the strip farthest from the base, six tiles out, and
/// halfway along that edge.
pub proof fn law_gate_opens_the_outer_fence(b: Rect, passable: Seq<Tile>, p: AnnexPlan)
    requires
        spec_valid_base(b),
        base_fits(b),
        plan_of(p, b, passable, p.side),
    ensures
        spec_fence(spec_strip(b, p.side), p.side).contains(p.gate),
        !p.fence_tiles@.contains(p.gate),
        p.side == Side::East ==> p.gate.x == b.maxx + ANNEX_DEPTH && p.gate.y == (b.miny + b.maxy) / 2,
        p.side == Side::West ==> p.gate.x == b.minx - ANNEX_DEPTH && p.gate.y == (b.miny + b.maxy) / 2,
        p.side == Side::South ==> p.gate.y == b.maxy + ANNEX_DEPTH && p.gate.x == (b.minx + b.maxx) / 2,
        p.side == Side::North ==> p.gate.y == b.miny - ANNEX_DEPTH && p.gate.x == (b.minx + b.maxx) / 2,
        b.minx - ANNEX_DEPTH <= p.gate.x <= b.maxx + ANNEX_DEPTH,
        b.miny - ANNEX_DEPTH <= p.gate.y <= b.maxy + ANNEX_DEPTH,
{
    let s = p.side;
    let a = spec_strip(b, s);
    let g = spec_gate(a, s);
    assert(a.maxx >= a.minx && a.maxy > a.miny);
    let mx: int = (a.minx + a.maxx) / 2;
    let my: int = (a.miny + a.maxy) / 2;
    assert(a.minx <= mx <= a.maxx && a.miny <= my < a.maxy);
    let ncols = (a.maxx - a.minx + 1) as nat;
    let nrows = (a.maxy - a.miny - 1) as nat;
    let cols = columns(a, s, ncols);
    let rws = rows(a, s, nrows);
    assert(spec_fence(a, s) == cols + rws);
    let on_column = match s {
        Side::East => my == a.miny,
        Side::West => my == a.miny,
        _ => true,
    };
    if on_column {
        let j: int = match s {
            Side::East => a.maxx - a.minx,
            Side::West => 0,
            _ => mx - a.minx,
        };
        let cp = column_posts(a, s, a.minx + j);
        match s {
            Side::South => assert(cp[cp.len() - 1] == g),
            _ => assert(cp[0] == g),
        }
        lemma_columns_hold(a, s, ncols, j, g);
        let i = choose|i: int| 0 <= i < cols.len() && cols[i] == g;
        assert((cols + rws)[i] == g);
    } else {
        let j: int = my - a.miny;
        let rp = row_posts(a, s, a.miny + j);
        match s {
            Side::East => assert(rp[rp.len() - 1] == g),
            _ => assert(rp[0] == g),
        }
        lemma_rows_hold(a, s, nrows, j, g);
        let i = choose|i: int| 0 <= i < rws.len() && rws[i] == g;
        assert((cols + rws)[cols.len() + i] == g);
    }
    let pred = keeps_post(g, passable);
    if p.fence_tiles@.contains(p.gate) {
        let f = spec_fence(a, s);
        assert(p.fence_tiles@ == f.filter(pred));
        f.lemma_filter_contains_rev(pred, p.gate);
    }
}

} // verus!
