//! Trade: a well-fed camp whose franchise votes caution sends its most
//! careful free member, with food from its stores and from campmates'
//! surplus, to the nearest meaningfully hungrier camp that is not its
//! enemy; the trader hands the food into the host's storage, carries a
//! non-food stack home as payment, and the voters learn defensiveness
//! from the outcome.
//!
//! This module holds the decisions: who sells, to whom, who carries,
//! what each campmate gives, how a caravan's pass ends, and what the
//! camp learns. The vote itself, the nutrition comparisons and every
//! transfer are the game's.

use vstd::prelude::*;

use crate::camp::{CommunityKind, is_settlement_kind};
use crate::courier::{Handle, Leg};
use crate::errand::{Lesson, Step, eligible_fit, is_first_best, is_first_nearest_eligible};
use crate::genome::DEFENSIVENESS;
use crate::geo::Tile;

verus! {

/// Food stacks a caravan carries out.
pub const TRADE_FOOD_STACKS: i64 = 2;

/// Non-food stacks taken home as payment.
pub const TRADE_PAY_STACKS: i64 = 1;

/// At most this many caravans on the road map-wide.
pub const MAX_ACTIVE_TRADES: usize = 3;

/// A camp as the trade scan sees it.
#[derive(Clone, Copy, Debug)]
pub struct TradeCamp {
    pub handle: Handle,
    pub id: i64,
    pub kind: CommunityKind,
    /// Living, non-zombie members.
    pub living: i64,
    pub at_war: bool,
    /// Threats the camp faces.
    pub threats: usize,
    pub centre: Tile,
    /// The camp's franchise voted for trading.
    pub voted: bool,
    /// The franchise's mean defensiveness, as the bit pattern of a
    /// non-negative value (bit order is value order).
    pub careful_bits: u64,
}

/// A camp that may sell: an AI settlement (never the player's camp)
/// that can spare a body and is not otherwise occupied, whose franchise
/// voted for it, and that has no caravan on the road.
pub open spec fn spec_may_sell(c: TradeCamp, active: Seq<i64>) -> bool {
    &&& is_settlement_kind(c.kind)
    &&& c.living >= 3
    &&& !c.at_war
    &&& c.threats == 0
    &&& c.voted
    &&& !active.contains(c.id)
}

/// Whether the camp may sell now.
pub fn may_sell(c: &TradeCamp, active: &Vec<i64>) -> (b: bool)
    ensures
        b == spec_may_sell(*c, active@),
{
    let settlement = matches!(c.kind, CommunityKind::Normal | CommunityKind::Looter);
    settlement && c.living >= 3 && !c.at_war && c.threats == 0 && c.voted && !crate::errand::holds_id(
        active,
        c.id,
    )
}

/// The seller and its host: among the camps that may sell and have a
/// host, the one with the most careful franchise (the first on ties);
/// its host is the nearest of its candidate hosts (the first on ties).
/// `host_ok[s][t]` says camp `t` is a host for seller `s`: another camp,
/// meaningfully hungrier, and not its enemy.
pub open spec fn is_trade_plan(
    camps: Seq<TradeCamp>,
    active: Seq<i64>,
    host_ok: Seq<Seq<bool>>,
    s: int,
    h: int,
) -> bool {
    let sellers = Seq::new(
        camps.len(),
        |i: int| spec_may_sell(camps[i], active) && host_ok[i].contains(true),
    );
    let scores = Seq::new(camps.len(), |i: int| camps[i].careful_bits);
    let tiles = Seq::new(camps.len(), |i: int| camps[i].centre);
    &&& is_first_best(sellers, scores, s)
    &&& is_first_nearest_eligible(tiles, host_ok[s], camps[s].centre, h)
}

/// Every candidate host lies within 64-bit squared distance of its
/// seller.
pub open spec fn hosts_fit(camps: Seq<TradeCamp>, host_ok: Seq<Seq<bool>>) -> bool {
    forall|s: int|
        0 <= s < camps.len() ==> eligible_fit(
            Seq::new(camps.len(), |i: int| camps[i].centre),
            #[trigger] host_ok[s],
            camps[s].centre,
        )
}

fn has_true(v: &Vec<bool>) -> (r: bool)
    ensures
        r == v@.contains(true),
{
    let mut i: usize = 0;
    while i < v.len()
        invariant
            i <= v.len(),
            forall|j: int| 0 <= j < i ==> !v@[j],
        decreases v.len() - i,
    {
        if v[i] {
            assert(v@[i as int] == true);
            return true;
        }
        i = i + 1;
    }
    false
}

/// Choose this scan's caravan: the seller and its host, or none.
pub fn plan_trade(camps: &Vec<TradeCamp>, active: &Vec<i64>, host_ok: &Vec<Vec<bool>>) -> (r: Option<
    (usize, usize),
>)
    requires
        host_ok@.len() == camps@.len(),
        forall|s: int| 0 <= s < host_ok@.len() ==> (#[trigger] host_ok@[s])@.len() == camps@.len(),
        hosts_fit(camps@, host_ok@.map_values(|v: Vec<bool>| v@)),
    ensures
        r matches Some((s, h)) ==> is_trade_plan(camps@, active@, host_ok@.map_values(|v: Vec<bool>| v@), s as int, h as int),
        r is None <==> forall|i: int|
            0 <= i < camps@.len() ==> !(spec_may_sell(#[trigger] camps@[i], active@) && host_ok@[i]@.contains(true)),
{
    let ghost ok = host_ok@.map_values(|v: Vec<bool>| v@);
    let mut sellers: Vec<bool> = Vec::new();
    let mut scores: Vec<u64> = Vec::new();
    let mut tiles: Vec<Tile> = Vec::new();
    let mut i: usize = 0;
    while i < camps.len()
        invariant
            i <= camps.len(),
            host_ok@.len() == camps@.len(),
            ok == host_ok@.map_values(|v: Vec<bool>| v@),
            sellers@.len() == i && scores@.len() == i && tiles@.len() == i,
            forall|j: int| 0 <= j < i ==> #[trigger] sellers@[j] == (spec_may_sell(camps@[j], active@) && ok[j].contains(true)),
            forall|j: int| 0 <= j < i ==> #[trigger] scores@[j] == camps@[j].careful_bits,
            forall|j: int| 0 <= j < i ==> #[trigger] tiles@[j] == camps@[j].centre,
        decreases camps.len() - i,
    {
        let c = camps[i];
        let yes = may_sell(&c, active) && has_true(&host_ok[i]);
        sellers.push(yes);
        scores.push(c.careful_bits);
        tiles.push(c.centre);
        i = i + 1;
    }
    let ghost sel = Seq::new(camps@.len(), |j: int| spec_may_sell(camps@[j], active@) && ok[j].contains(true));
    let ghost sc = Seq::new(camps@.len(), |j: int| camps@[j].careful_bits);
    let ghost ts = Seq::new(camps@.len(), |j: int| camps@[j].centre);
    assert(sellers@ =~= sel);
    assert(scores@ =~= sc);
    assert(tiles@ =~= ts);
    match crate::errand::first_best(&sellers, &scores) {
        None => {
            assert forall|k: int| 0 <= k < camps@.len() implies !(spec_may_sell(
                #[trigger] camps@[k],
                active@,
            ) && host_ok@[k]@.contains(true)) by {
                assert(!sellers@[k]);
                assert(ok[k] == host_ok@[k]@);
            }
            None
        },
        Some(s) => {
            assert(ok[s as int] == host_ok@[s as int]@);
            assert(host_ok@[s as int]@.len() == camps@.len());
            let h = crate::errand::nearest_eligible(&tiles, &host_ok[s], camps[s].centre);
            match h {
                Some(h) => Some((s, h)),
                None => {
                    assert(!host_ok@[s as int]@.contains(true));
                    None
                },
            }
        },
    }
}

/// What each campmate gives the caravan from their carried food, in
/// camp order: a donor keeps at least one stack, and giving stops once
/// `need` stacks are loaded. `food[i]` is donor `i`'s food stacks.
pub open spec fn spec_donations(food: Seq<i64>, need: int) -> Seq<i64>
    decreases food.len(),
{
    if food.len() == 0 {
        Seq::empty()
    } else {
        let spare: int = if food[0] > 1 { food[0] - 1 } else { 0 };
        let left: int = if need > 0 { need } else { 0 };
        let give: int = if spare < left { spare } else { left };
        seq![give as i64] + spec_donations(food.drop_first(), need - give)
    }
}

/// Plan the hand-offs from campmates to the trader.
pub fn donations(food: &Vec<i64>, need: i64) -> (r: Vec<i64>)
    requires
        need >= 0,
    ensures
        r@ == spec_donations(food@, need as int),
{
    let mut r: Vec<i64> = Vec::new();
    let mut left: i64 = need;
    let mut i: usize = 0;
    assert(food@.skip(0) =~= food@);
    assert(r@ + spec_donations(food@, need as int) =~= spec_donations(food@, need as int));
    while i < food.len()
        invariant
            i <= food.len(),
            0 <= left <= need,
            r@ + spec_donations(food@.skip(i as int), left as int) == spec_donations(food@, need as int),
        decreases food.len() - i,
    {
        let f = food[i];
        let spare: i64 = if f > 1 { f - 1 } else { 0 };
        let give: i64 = if spare < left { spare } else { left };
        proof {
            let rest = food@.skip(i as int);
            assert(rest.drop_first() =~= food@.skip(i + 1));
            assert(rest[0] == f);
            assert(spec_donations(rest, left as int) == seq![give] + spec_donations(
                food@.skip(i + 1),
                left - give,
            ));
            assert(r@.push(give) + spec_donations(food@.skip(i + 1), left - give) =~= r@ + (seq![give]
                + spec_donations(food@.skip(i + 1), left - give)));
        }
        r.push(give);
        left = left - give;
        i = i + 1;
    }
    proof {
        assert(food@.skip(food.len() as int) =~= Seq::<i64>::empty());
        assert(r@ + Seq::<i64>::empty() =~= r@);
    }
    r
}

/// A caravan on the road.
#[derive(Clone, Debug)]
pub struct TradeMission {
    pub seller_h: Handle,
    pub seller_id: i64,
    pub seller_name: String,
    pub host_h: Handle,
    pub host_name: String,
    pub host_is_player: bool,
    pub trader_h: Handle,
    pub trader_name: String,
    pub squad_id: i64,
    pub home: Tile,
    pub leg: Leg,
    pub loaded: i64,
    pub delivered: i64,
    pub paid: i64,
    pub voter_ids: Vec<i64>,
    /// The game clock (its bit pattern) at which the caravan is recalled.
    pub deadline_bits: u32,
}

/// The caravans on the road.
pub struct TradeBook {
    pub missions: Vec<TradeMission>,
}

/// An empty book.
pub fn new_trade_book() -> (b: TradeBook)
    ensures
        b.missions@.len() == 0,
{
    TradeBook { missions: Vec::new() }
}

/// A scan may launch a caravan: fewer than the cap are on the road.
pub fn room_for_trade(b: &TradeBook) -> (r: bool)
    ensures
        r == (b.missions@.len() < MAX_ACTIVE_TRADES),
{
    b.missions.len() < MAX_ACTIVE_TRADES
}

/// The sellers with a caravan on the road.
pub fn active_sellers(b: &TradeBook) -> (r: Vec<i64>)
    ensures
        r@ == b.missions@.map_values(|m: TradeMission| m.seller_id),
{
    let mut r: Vec<i64> = Vec::new();
    let mut i: usize = 0;
    while i < b.missions.len()
        invariant
            i <= b.missions.len(),
            r@ == b.missions@.take(i as int).map_values(|m: TradeMission| m.seller_id),
        decreases b.missions.len() - i,
    {
        r.push(b.missions[i].seller_id);
        assert(b.missions@.take(i + 1).map_values(|m: TradeMission| m.seller_id) =~= b.missions@.take(
            i as int,
        ).map_values(|m: TradeMission| m.seller_id).push(b.missions@[i as int].seller_id));
        i = i + 1;
    }
    assert(b.missions@.take(b.missions.len() as int) =~= b.missions@);
    r
}

/// The caravan a faction is running, if any: the first in the book.
pub fn active_trade(b: &TradeBook, faction_id: i64) -> (r: Option<usize>)
    ensures
        r matches Some(i) ==> i < b.missions@.len() && b.missions@[i as int].seller_id == faction_id
            && forall|j: int| 0 <= j < i ==> (#[trigger] b.missions@[j]).seller_id != faction_id,
        r is None ==> forall|j: int| 0 <= j < b.missions@.len() ==> (#[trigger] b.missions@[j]).seller_id != faction_id,
{
    let mut i: usize = 0;
    while i < b.missions.len()
        invariant
            i <= b.missions.len(),
            forall|j: int| 0 <= j < i ==> (#[trigger] b.missions@[j]).seller_id != faction_id,
        decreases b.missions.len() - i,
    {
        if b.missions[i].seller_id == faction_id {
            return Some(i);
        }
        i = i + 1;
    }
    None
}

/// Put a launched caravan on the road.
pub fn start_trade(b: &mut TradeBook, m: TradeMission)
    requires
        old(b).missions@.len() < MAX_ACTIVE_TRADES,
    ensures
        final(b).missions@ == old(b).missions@.push(m),
        final(b).missions@.len() <= MAX_ACTIVE_TRADES,
{
    b.missions.push(m);
}

/// Take a finished caravan off the road.
pub fn end_trade(b: &mut TradeBook, i: usize) -> (m: TradeMission)
    requires
        i < old(b).missions@.len(),
    ensures
        m == old(b).missions@[i as int],
        final(b).missions@ == old(b).missions@.remove(i as int),
{
    b.missions.remove(i)
}

/// What a caravan does on its way out.
#[derive(Clone, Copy, PartialEq, Eq, Debug)]
pub enum TradeGoing {
    /// The host camp is gone: the caravan is over.
    HostGone,
    /// Still walking.
    OnTheRoad,
    /// At the host's buildings: hand over the food, take the payment,
    /// and turn for home.
    Barter,
}

/// The decision for a caravan on its way out.
pub open spec fn spec_trade_going(host_alive: bool, arrived: bool) -> TradeGoing {
    if !host_alive {
        TradeGoing::HostGone
    } else if !arrived {
        TradeGoing::OnTheRoad
    } else {
        TradeGoing::Barter
    }
}

/// Decide a caravan's pass on its way out.
pub fn trade_going(host_alive: bool, arrived: bool) -> (g: TradeGoing)
    ensures
        g == spec_trade_going(host_alive, arrived),
{
    if !host_alive {
        TradeGoing::HostGone
    } else if !arrived {
        TradeGoing::OnTheRoad
    } else {
        TradeGoing::Barter
    }
}

/// After the barter: the caravan turns for home with what it handed
/// over and what it was paid.
pub fn bartered(m: TradeMission, delivered: i64, paid: i64) -> (r: TradeMission)
    ensures
        r == (TradeMission { leg: Leg::Returning, delivered, paid, ..m }),
{
    TradeMission { leg: Leg::Returning, delivered, paid, ..m }
}

/// The player's camp hears of the caravan only when it received food.
pub fn announces_gift(m: &TradeMission) -> (b: bool)
    ensures
        b == (m.host_is_player && m.delivered > 0),
{
    m.host_is_player && m.delivered > 0
}

/// The chronicle's line when a caravan brings food to the player.
pub open spec fn spec_gift_line(seller: Seq<char>, trader: Seq<char>) -> Seq<char> {
    seller + " has sent "@ + trader + " to your gate with food"@
}

/// Write the chronicle's line for a caravan at the player's gate.
pub fn gift_line(seller: &str, trader: &str) -> (s: String)
    ensures
        s@ == spec_gift_line(seller@, trader@),
{
    let mut s = String::from_str(seller);
    s.append(" has sent ");
    s.append(trader);
    s.append(" to your gate with food");
    s
}

/// The end of a caravan's trip home: still walking, or home; a caravan
/// that delivered food teaches the careful way.
pub open spec fn spec_trade_returning(arrived: bool, delivered: i64) -> (Step, Option<Lesson>) {
    if !arrived {
        (Step::Continue, None)
    } else if delivered > 0 {
        (Step::Complete, Some(Lesson { trait_index: DEFENSIVENESS, up: true, tenths: 10 }))
    } else {
        (Step::Complete, None)
    }
}

/// Decide a caravan's pass on its way home.
pub fn trade_returning(arrived: bool, delivered: i64) -> (r: (Step, Option<Lesson>))
    ensures
        r == spec_trade_returning(arrived, delivered),
{
    if !arrived {
        (Step::Continue, None)
    } else if delivered > 0 {
        (Step::Complete, Some(Lesson { trait_index: DEFENSIVENESS, up: true, tenths: 10 }))
    } else {
        (Step::Complete, None)
    }
}

/// A trader lost on the road weakens the careful way, twice as hard as
/// a paid trip strengthens it.
pub fn trader_lost_lesson() -> (l: Lesson)
    ensures
        l == (Lesson { trait_index: DEFENSIVENESS, up: false, tenths: 20 }),
{
    Lesson { trait_index: DEFENSIVENESS, up: false, tenths: 20 }
}

/// No donor gives its last food stack, and the caravan never loads more
/// than it asked for.
pub proof fn law_donors_keep_a_stack(food: Seq<i64>, need: int)
    requires
        need >= 0,
    ensures
        spec_donations(food, need).len() == food.len(),
        forall|i: int| 0 <= i < food.len() ==> 0 <= #[trigger] spec_donations(food, need)[i] && (food[i]
            >= 1 ==> spec_donations(food, need)[i] <= food[i] - 1) && (food[i] < 1 ==> spec_donations(food, need)[i] == 0),
        total(spec_donations(food, need)) <= need,
    decreases food.len(),
{
    if food.len() > 0 {
        let spare: int = if food[0] > 1 { food[0] - 1 } else { 0 };
        let give: int = if spare < need { spare } else { need };
        law_donors_keep_a_stack(food.drop_first(), need - give);
        let d = spec_donations(food, need);
        let rest = spec_donations(food.drop_first(), need - give);
        assert(d == seq![give as i64] + rest);
        assert forall|i: int| 0 <= i < food.len() implies 0 <= #[trigger] d[i] && (food[i] >= 1 ==> d[i]
            <= food[i] - 1) && (food[i] < 1 ==> d[i] == 0) by {
            if i > 0 {
                assert(d[i] == rest[i - 1]);
                assert(food.drop_first()[i - 1] == food[i]);
            }
        }
        assert(d.drop_first() =~= rest);
        lemma_total_first(d);
    }
}

/// The sum of a sequence of counts.
pub open spec fn total(s: Seq<i64>) -> int
    decreases s.len(),
{
    if s.len() == 0 {
        0
    } else {
        total(s.drop_last()) + s.last()
    }
}

pub proof fn lemma_total_first(s: Seq<i64>)
    requires
        s.len() > 0,
    ensures
        total(s) == s[0] + total(s.drop_first()),
    decreases s.len(),
{
    if s.len() > 1 {
        lemma_total_first(s.drop_last());
        assert(s.drop_last().drop_first() =~= s.drop_first().drop_last());
        assert(s.drop_first().last() == s.last());
        assert(total(s.drop_first()) == total(s.drop_first().drop_last()) + s.drop_first().last());
        assert(s.drop_last()[0] == s[0]);
    } else {
        assert(s.drop_first().len() == 0);
        assert(s.drop_last().len() == 0);
        assert(total(s.drop_last()) == 0);
        assert(total(s.drop_first()) == 0);
    }
}

/// When each camp last logged that it voted to trade but could not
/// launch: its id and the clock bits of that line. A camp re-voting every
/// scan logs the line at most once per cooldown.
#[derive(Clone, Debug)]
pub struct FailLog {
    pub entries: Vec<(i64, u32)>,
}

/// An empty log.
pub fn new_fail_log() -> (l: FailLog)
    ensures
        l.entries@.len() == 0,
{
    FailLog { entries: Vec::new() }
}

/// Entry `i` is the first for the camp `id`.
pub open spec fn is_first_entry(es: Seq<(i64, u32)>, id: i64, i: int) -> bool {
    &&& 0 <= i < es.len()
    &&& es[i].0 == id
    &&& forall|j: int| 0 <= j < i ==> (#[trigger] es[j]).0 != id
}

/// The log has no entry for the camp `id`.
pub open spec fn unlogged(es: Seq<(i64, u32)>, id: i64) -> bool {
    forall|j: int| 0 <= j < es.len() ==> (#[trigger] es[j]).0 != id
}

fn find_entry(l: &FailLog, id: i64) -> (r: Option<usize>)
    ensures
        r is None ==> unlogged(l.entries@, id),
        r matches Some(i) ==> is_first_entry(l.entries@, id, i as int),
{
    let mut i: usize = 0;
    while i < l.entries.len()
        invariant
            i <= l.entries@.len(),
            forall|j: int| 0 <= j < i ==> (#[trigger] l.entries@[j]).0 != id,
        decreases l.entries@.len() - i,
    {
        if l.entries[i].0 == id {
            return Some(i);
        }
        i = i + 1;
    }
    None
}

/// When the camp last logged the line (its clock bits), if ever.
pub fn last_logged(l: &FailLog, faction_id: i64) -> (r: Option<u32>)
    ensures
        r is None <==> unlogged(l.entries@, faction_id),
        forall|i: int| is_first_entry(l.entries@, faction_id, i) ==> r == Some(l.entries@[i].1),
{
    match find_entry(l, faction_id) {
        Some(i) => {
            proof {
                assert forall|k: int| is_first_entry(l.entries@, faction_id, k) implies k == i by {
                    if k < i {
                        assert(l.entries@[k].0 != faction_id);
                    }
                    if i < k {
                        assert(l.entries@[i as int].0 != faction_id);
                    }
                }
            }
            Some(l.entries[i].1)
        },
        None => None,
    }
}

/// Whether the camp's voted-but-could-not-launch line logs now. A camp
/// never logged logs, and is remembered at `now_bits`; one logged before
/// logs again only once its cooldown has passed (`cooled`, measured from
/// its last line by the clock), and is then remembered at `now_bits`; a
/// camp inside its cooldown stays silent and the log is unchanged.
pub fn should_log_failed_launch(l: &mut FailLog, faction_id: i64, now_bits: u32, cooled: bool) -> (r: bool)
    ensures
        unlogged(old(l).entries@, faction_id) ==> r && final(l).entries@ == old(l).entries@.push(
            (faction_id, now_bits),
        ),
        forall|i: int|
            is_first_entry(old(l).entries@, faction_id, i) ==> r == cooled && final(l).entries@ == (
            if cooled {
                old(l).entries@.update(i, (faction_id, now_bits))
            } else {
                old(l).entries@
            }),
{
    match find_entry(l, faction_id) {
        Some(i) => {
            proof {
                assert forall|k: int| is_first_entry(old(l).entries@, faction_id, k) implies k == i by {
                    if k < i {
                        assert(old(l).entries@[k].0 != faction_id);
                    }
                    if i < k {
                        assert(old(l).entries@[i as int].0 != faction_id);
                    }
                }
            }
            if !cooled {
                return false;
            }
            l.entries.set(i, (faction_id, now_bits));
            true
        },
        None => {
            l.entries.push((faction_id, now_bits));
            true
        },
    }
}

} // verus!
