//! Murder: a camp at war whose franchise votes for the knife sends its
//! most guileful free member to assassinate the enemy's leader. The
//! operative walks out in a one-member squad, shadows the leader until
//! close, then the game's own assassination command does the rest; a
//! kill, a blown attempt or a dead operative teaches the voters.
//!
//! This module holds the choice of plotting camp and operative, each
//! pass of the plot, its lessons and its chronicle lines; the vote, the
//! walking and the knife are the game's. One plot runs at a time.

use vstd::prelude::*;

use crate::camp::{CommunityKind, is_settlement_kind};
use crate::courier::{Handle, Leg};
use crate::errand::{Lesson, Step, is_first_best};
use crate::genome::{AGGRESSION, GUILE};
use crate::geo::{Tile, spec_dist_sq};

verus! {

/// Squared tile distance at which the operative is close enough for the
/// kill command.
pub const STRIKE_DIST_SQ: i64 = 144;

/// Squared tile distance from home at which the operative is home.
pub const HOME_DIST_SQ: i64 = 64;

/// A camp as the murder scan sees it.
#[derive(Clone, Copy, Debug)]
pub struct PlotCamp {
    pub handle: Handle,
    pub id: i64,
    pub kind: CommunityKind,
    pub ai_settlement: bool,
    pub living: i64,
    /// The camp it is invading, if any.
    pub enemy: Option<Handle>,
    /// The franchise voted for the knife.
    pub voted: bool,
    /// The franchise's mean guile, as the bit pattern of a non-negative
    /// value.
    pub mean_guile_bits: u64,
}

/// The camp may plot: an AI settlement of three or more at war, whose
/// franchise voted for the knife.
pub open spec fn spec_may_plot(c: PlotCamp) -> bool {
    is_settlement_kind(c.kind) && c.ai_settlement && c.living >= 3 && c.enemy is Some && c.voted
}

/// The plotting camp: the darkest franchise among those that may plot,
/// the first on ties.
pub fn pick_plotter(camps: &Vec<PlotCamp>) -> (r: Option<usize>)
    ensures
        r matches Some(i) ==> is_first_best(
            Seq::new(camps@.len(), |k: int| spec_may_plot(camps@[k])),
            Seq::new(camps@.len(), |k: int| camps@[k].mean_guile_bits),
            i as int,
        ),
        r is None <==> forall|k: int| 0 <= k < camps@.len() ==> !spec_may_plot(#[trigger] camps@[k]),
{
    let mut can: Vec<bool> = Vec::new();
    let mut scores: Vec<u64> = Vec::new();
    let mut i: usize = 0;
    while i < camps.len()
        invariant
            i <= camps.len(),
            can@.len() == i && scores@.len() == i,
            forall|j: int| 0 <= j < i ==> #[trigger] can@[j] == spec_may_plot(camps@[j]),
            forall|j: int| 0 <= j < i ==> #[trigger] scores@[j] == camps@[j].mean_guile_bits,
        decreases camps.len() - i,
    {
        let c = camps[i];
        let settlement = matches!(c.kind, CommunityKind::Normal | CommunityKind::Looter);
        can.push(settlement && c.ai_settlement && c.living >= 3 && c.enemy.is_some() && c.voted);
        scores.push(c.mean_guile_bits);
        i = i + 1;
    }
    assert(can@ =~= Seq::new(camps@.len(), |k: int| spec_may_plot(camps@[k])));
    assert(scores@ =~= Seq::new(camps@.len(), |k: int| camps@[k].mean_guile_bits));
    let r = crate::errand::first_best(&can, &scores);
    proof {
        if r is None {
            assert forall|k: int| 0 <= k < camps@.len() implies !spec_may_plot(#[trigger] camps@[k]) by {
                assert(!can@[k]);
            }
        }
    }
    r
}

/// The mark: the enemy's leader, while alive.
pub fn mark_of(leader: Option<Handle>, leader_alive: bool) -> (r: Option<Handle>)
    ensures
        r == (if leader_alive { leader } else { None::<Handle> }),
{
    if leader_alive { leader } else { None }
}

/// A plot in motion.
#[derive(Clone, Debug)]
pub struct MurderMission {
    pub camp_h: Handle,
    pub camp_id: i64,
    pub camp_name: String,
    pub victim_h: Handle,
    pub victim_name: String,
    pub victim_camp_name: String,
    pub operative_h: Handle,
    pub operative_name: String,
    pub squad_id: i64,
    pub home: Tile,
    pub leg: Leg,
    /// The kill command was given; the strike is under way.
    pub strike_phase: bool,
    /// The game clock (its bit pattern) at which the strike is blown.
    pub strike_deadline_bits: u32,
    pub voter_ids: Vec<i64>,
    pub deadline_bits: u32,
}

/// What the game reported about a plot on this pass.
#[derive(Clone, Copy, Debug)]
pub struct PlotReport {
    pub operative_alive: bool,
    pub victim_alive: bool,
    /// The strike's window has closed (only read during the strike).
    pub strike_expired: bool,
    pub operative_tile: Tile,
    pub victim_tile: Tile,
}

/// What one pass decides for a plot.
#[derive(Clone, Copy, PartialEq, Eq, Debug)]
pub enum PlotOutcome {
    /// The operative died: the plot is over.
    OperativeLost,
    /// The leader is dead by the operative's hand: walk home.
    Killed,
    /// The strike's window closed with the leader alive: walk home.
    Blown,
    /// Still striking.
    Striking,
    /// The leader died before the operative got there: walk home.
    MarkGone,
    /// Still too far: follow the leader to where they stand now.
    Shadow,
    /// Close enough: give the kill command and open the strike window.
    Strike,
    /// Still walking home.
    Homeward,
    /// Home: the plot is over.
    Home,
}

/// One pass of a plot, judged in order: the operative's life, then the
/// strike if one is under way, then the leader and the distance.
pub open spec fn spec_plot_step(leg: Leg, strike_phase: bool, home: Tile, r: PlotReport) -> PlotOutcome {
    if !r.operative_alive {
        PlotOutcome::OperativeLost
    } else {
        match leg {
            Leg::Going => if strike_phase {
                if !r.victim_alive {
                    PlotOutcome::Killed
                } else if r.strike_expired {
                    PlotOutcome::Blown
                } else {
                    PlotOutcome::Striking
                }
            } else if !r.victim_alive {
                PlotOutcome::MarkGone
            } else if spec_dist_sq(r.operative_tile, r.victim_tile) > STRIKE_DIST_SQ {
                PlotOutcome::Shadow
            } else {
                PlotOutcome::Strike
            },
            Leg::Returning => if spec_dist_sq(r.operative_tile, home) > HOME_DIST_SQ {
                PlotOutcome::Homeward
            } else {
                PlotOutcome::Home
            },
        }
    }
}

/// Decide one pass of a plot.
pub fn plot_step(leg: Leg, strike_phase: bool, home: Tile, r: PlotReport) -> (o: PlotOutcome)
    ensures
        o == spec_plot_step(leg, strike_phase, home, r),
{
    if !r.operative_alive {
        return PlotOutcome::OperativeLost;
    }
    match leg {
        Leg::Going => {
            if strike_phase {
                if !r.victim_alive {
                    PlotOutcome::Killed
                } else if r.strike_expired {
                    PlotOutcome::Blown
                } else {
                    PlotOutcome::Striking
                }
            } else if !r.victim_alive {
                PlotOutcome::MarkGone
            } else if !crate::geo::within(r.operative_tile, r.victim_tile, STRIKE_DIST_SQ) {
                PlotOutcome::Shadow
            } else {
                PlotOutcome::Strike
            }
        },
        Leg::Returning => {
            if !crate::geo::within(r.operative_tile, home, HOME_DIST_SQ) {
                PlotOutcome::Homeward
            } else {
                PlotOutcome::Home
            }
        },
    }
}

/// The step the mission takes after the outcome.
pub open spec fn spec_plot_mission_step(o: PlotOutcome) -> Step {
    match o {
        PlotOutcome::OperativeLost | PlotOutcome::Home => Step::Complete,
        PlotOutcome::Killed | PlotOutcome::Blown | PlotOutcome::MarkGone => Step::Transition,
        _ => Step::Continue,
    }
}

/// The step the mission takes after the outcome.
pub fn plot_mission_step(o: PlotOutcome) -> (s: Step)
    ensures
        s == spec_plot_mission_step(o),
{
    match o {
        PlotOutcome::OperativeLost | PlotOutcome::Home => Step::Complete,
        PlotOutcome::Killed | PlotOutcome::Blown | PlotOutcome::MarkGone => Step::Transition,
        _ => Step::Continue,
    }
}

/// The lessons each voter draws: a dead operative turns guile down hard
/// and aggression down; a kill turns guile up; a blown strike turns it
/// down. The camp itself learns the first of these (guile only).
pub open spec fn spec_plot_lessons(o: PlotOutcome) -> Seq<Lesson> {
    match o {
        PlotOutcome::OperativeLost => seq![
            Lesson { trait_index: GUILE, up: false, tenths: 20 },
            Lesson { trait_index: AGGRESSION, up: false, tenths: 10 },
        ],
        PlotOutcome::Killed => seq![Lesson { trait_index: GUILE, up: true, tenths: 15 }],
        PlotOutcome::Blown => seq![Lesson { trait_index: GUILE, up: false, tenths: 10 }],
        _ => Seq::empty(),
    }
}

/// The voters' lessons from an outcome.
pub fn plot_lessons(o: PlotOutcome) -> (ls: Vec<Lesson>)
    ensures
        ls@ == spec_plot_lessons(o),
{
    let mut ls: Vec<Lesson> = Vec::new();
    match o {
        PlotOutcome::OperativeLost => {
            ls.push(Lesson { trait_index: GUILE, up: false, tenths: 20 });
            ls.push(Lesson { trait_index: AGGRESSION, up: false, tenths: 10 });
        },
        PlotOutcome::Killed => {
            ls.push(Lesson { trait_index: GUILE, up: true, tenths: 15 });
        },
        PlotOutcome::Blown => {
            ls.push(Lesson { trait_index: GUILE, up: false, tenths: 10 });
        },
        _ => {},
    }
    assert(ls@ =~= spec_plot_lessons(o));
    ls
}

/// The plot after the kill command: the strike is under way until the
/// given clock.
pub fn strike_begun(m: MurderMission, strike_deadline_bits: u32) -> (r: MurderMission)
    ensures
        r == (MurderMission { strike_phase: true, strike_deadline_bits, ..m }),
{
    MurderMission { strike_phase: true, strike_deadline_bits, ..m }
}

/// The chronicle's line for a dead operative.
pub open spec fn spec_cut_down_line(camp: Seq<char>, victim_camp: Seq<char>) -> Seq<char> {
    "an assassin from "@ + camp + " was cut down in "@ + victim_camp
}

/// Write the chronicle's line for a dead operative.
pub fn cut_down_line(camp: &str, victim_camp: &str) -> (s: String)
    ensures
        s@ == spec_cut_down_line(camp@, victim_camp@),
{
    let mut s = String::from_str("an assassin from ");
    s.append(camp);
    s.append(" was cut down in ");
    s.append(victim_camp);
    s
}

/// The chronicle's line for a kill.
pub open spec fn spec_assassinated_line(victim: Seq<char>, victim_camp: Seq<char>) -> Seq<char> {
    victim + ", leader of "@ + victim_camp + ", has been assassinated"@
}

/// Write the chronicle's line for a kill.
pub fn assassinated_line(victim: &str, victim_camp: &str) -> (s: String)
    ensures
        s@ == spec_assassinated_line(victim@, victim_camp@),
{
    let mut s = String::from_str(victim);
    s.append(", leader of ");
    s.append(victim_camp);
    s.append(", has been assassinated");
    s
}

/// The kill command is only ever given to a living operative standing
/// within striking distance of a living leader, and a plot teaches guile
/// up only when the leader died during the strike.
pub proof fn law_strike_only_when_close(leg: Leg, strike_phase: bool, home: Tile, r: PlotReport)
    ensures
        spec_plot_step(leg, strike_phase, home, r) == PlotOutcome::Strike ==> r.operative_alive && r.victim_alive
            && !strike_phase && spec_dist_sq(r.operative_tile, r.victim_tile) <= STRIKE_DIST_SQ,
        (exists|i: int|
            0 <= i < spec_plot_lessons(spec_plot_step(leg, strike_phase, home, r)).len()
                && (#[trigger] spec_plot_lessons(spec_plot_step(leg, strike_phase, home, r))[i]).up) ==> (
        strike_phase && r.operative_alive && !r.victim_alive),
{
}

} // verus!
