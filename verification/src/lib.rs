//! Decision logic of the Survivalist faction-world mod, verified.
//!
//! Every module here holds what the mod decides or computes from plain
//! values: which camp a band marches on, which payoff an off-map sign
//! carries, how a contract moves from offer to payment, what a line of
//! the chronicle reads. Talking to the running game (reading fields,
//! invoking methods, spawning bands) happens outside this crate, which
//! hands these functions snapshots and performs the actions they return.

pub mod bounty;
pub mod geo;
pub mod handles;
pub mod mix;
pub mod courier;
pub mod threat;
pub mod incursion;
pub mod text;
pub mod camp;
pub mod stranger;
pub mod genome;
pub mod storyteller;
pub mod horde;
pub mod settler;
pub mod vendor;
pub mod survival;
pub mod quality;
pub mod upgrade;
pub mod war;
pub mod predation;
pub mod development;
pub mod board;
pub mod errand;
pub mod trade;
pub mod steal;
pub mod rob;
pub mod murder;
pub mod scavenge;
pub mod growth;
pub mod unique;
pub mod stores;
