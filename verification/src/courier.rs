//! The work pillar's payment courier: when a debt to the player comes
//! due, the hirer loads real non-food stacks onto its first free member,
//! who walks them to the player's gate as a one-member squad, hands them
//! into storage, and walks home. Shared by every work kind.
//!
//! This module holds the courier's record and the decision each pass
//! makes from what the game reports; the walking, the loading and the
//! hand-over are the game's own calls.

use vstd::prelude::*;

use crate::geo::Tile;

verus! {

/// Non-food stacks a payment carries; also the cap the offers advertise.
pub const PAY_STACKS: i64 = 3;

/// A handle to a live game object, as the bridge hands it out.
pub type Handle = i32;

/// Which way the courier is walking.
#[derive(Clone, Copy, PartialEq, Eq, Debug)]
pub enum Leg {
    /// Out to the player's gate with the payment.
    Going,
    /// Back to the hirer's base after the hand-over.
    Returning,
}

/// A payment on the road. It owns the hirer, courier and player handles
/// until the run ends.
#[derive(Clone, Debug)]
pub struct Courier {
    pub hirer_h: Handle,
    pub hirer_name: String,
    pub courier_h: Handle,
    pub courier_name: String,
    pub player_h: Handle,
    pub squad_id: i64,
    pub home: Tile,
    pub leg: Leg,
    /// Stacks carried out; after the hand-over, the stacks delivered.
    pub loaded: i64,
    /// The game clock (its bit pattern) at which the courier is recalled.
    pub deadline_bits: u32,
}

/// The handles a courier owns.
pub open spec fn courier_handles(c: Courier) -> Set<Handle> {
    set![c.hirer_h, c.courier_h, c.player_h]
}

/// What the game reported about a courier on this pass.
#[derive(Clone, Copy, Debug)]
pub struct PayingReport {
    /// The courier is alive and not a zombie.
    pub courier_alive: bool,
    /// The clock has reached the courier's deadline.
    pub timed_out: bool,
    /// The courier's tile could be read.
    pub tile_known: bool,
    /// The courier stands within arrival range of the leg's goal
    /// (the player's buildings going out, the hirer's coming home).
    pub arrived: bool,
}

/// What one pass decides for a courier.
#[derive(Clone, Copy, PartialEq, Eq, Debug)]
pub enum PayingOutcome {
    /// The courier died on the road; the payment is lost.
    CourierLost,
    /// The deadline passed; the courier is recalled unpaid.
    Recalled,
    /// The courier's position could not be read; the run is abandoned.
    TileLost,
    /// Still walking.
    OnTheRoad,
    /// At the player's gate: hand the payment over and turn for home.
    Deliver,
    /// Home again: the debt is paid and closed.
    PaidHome,
}

/// The decision for one pass, checked in the order the run is judged:
/// death, then the deadline, then the position, then arrival.
pub open spec fn spec_paying_outcome(leg: Leg, r: PayingReport) -> PayingOutcome {
    if !r.courier_alive {
        PayingOutcome::CourierLost
    } else if r.timed_out {
        PayingOutcome::Recalled
    } else if !r.tile_known {
        PayingOutcome::TileLost
    } else if !r.arrived {
        PayingOutcome::OnTheRoad
    } else {
        match leg {
            Leg::Going => PayingOutcome::Deliver,
            Leg::Returning => PayingOutcome::PaidHome,
        }
    }
}

/// True when the outcome ends the run (every handle is released).
pub open spec fn ends_run(o: PayingOutcome) -> bool {
    o != PayingOutcome::OnTheRoad && o != PayingOutcome::Deliver
}

/// Decide one pass of a courier's run.
pub fn paying_outcome(leg: Leg, r: PayingReport) -> (o: PayingOutcome)
    ensures
        o == spec_paying_outcome(leg, r),
{
    if !r.courier_alive {
        PayingOutcome::CourierLost
    } else if r.timed_out {
        PayingOutcome::Recalled
    } else if !r.tile_known {
        PayingOutcome::TileLost
    } else if !r.arrived {
        PayingOutcome::OnTheRoad
    } else {
        match leg {
            Leg::Going => PayingOutcome::Deliver,
            Leg::Returning => PayingOutcome::PaidHome,
        }
    }
}

/// After the hand-over: the courier turns for home, and what it carried
/// becomes what it delivered.
pub fn turn_home(c: Courier, delivered: i64) -> (r: Courier)
    ensures
        r == (Courier { leg: Leg::Returning, loaded: delivered, ..c }),
{
    Courier { leg: Leg::Returning, loaded: delivered, ..c }
}

/// How a courier launch went, in the order its steps run: find the
/// player's gate, check the hirer still stands, pick a free member, load
/// the payment, form the squad.
#[derive(Clone, Debug)]
pub enum LaunchReport {
    /// No player camp exists to pay.
    NoPlayerCamp,
    /// The hirer has no living members; the player camp was found.
    HirerFell { player_h: Handle },
    /// Nobody in the hirer is free to walk today.
    NoFreeMember { player_h: Handle },
    /// The hirer's stores held nothing to load.
    BareStores { player_h: Handle, courier_h: Handle },
    /// The squad would not form.
    SquadFailed { player_h: Handle, courier_h: Handle },
    /// The courier is on the road.
    Launched { courier: Courier },
}

/// The outcome of a launch attempt.
#[derive(Clone, Debug)]
pub enum Launch {
    /// The courier is on the road.
    Launched(Courier),
    /// No free member today; keep the debt and retry next pass.
    Waiting,
    /// The debt is void.
    Void,
}

/// The meaning of a launch report: waiting only when nobody was free,
/// on the road only when the courier left, void otherwise.
pub open spec fn spec_launch(r: LaunchReport) -> Launch {
    match r {
        LaunchReport::NoFreeMember { .. } => Launch::Waiting,
        LaunchReport::Launched { courier } => Launch::Launched(courier),
        _ => Launch::Void,
    }
}

/// The handles a launch attempt acquired besides the hirer.
pub open spec fn launch_acquired(r: LaunchReport) -> Set<Handle> {
    match r {
        LaunchReport::NoPlayerCamp => Set::empty(),
        LaunchReport::HirerFell { player_h } => set![player_h],
        LaunchReport::NoFreeMember { player_h } => set![player_h],
        LaunchReport::BareStores { player_h, courier_h } => set![player_h, courier_h],
        LaunchReport::SquadFailed { player_h, courier_h } => set![player_h, courier_h],
        LaunchReport::Launched { courier } => set![courier.courier_h, courier.player_h],
    }
}

/// Classify a launch report.
pub fn classify_launch(r: LaunchReport) -> (l: Launch)
    ensures
        l == spec_launch(r),
{
    match r {
        LaunchReport::NoFreeMember { .. } => Launch::Waiting,
        LaunchReport::Launched { courier } => Launch::Launched(courier),
        _ => Launch::Void,
    }
}

} // verus!
