use survivalist_mod::camp::{MemberSnapshot, best_free, first_free, headroom, joiners};
use survivalist_mod::courier::{Leg, PayingOutcome, PayingReport, paying_outcome};
use survivalist_mod::genome::{drop_individual, is_conscript, mark_conscript, new_book as new_genome_book, restore_conscripts};
use survivalist_mod::geo::{Tile, base_centre, dist_sq, isqrt, nearest_index};
use survivalist_mod::horde::{AlphaCandidate, PackSize, Strain, live_pack_count, new_tracker, pick_alpha, prune, tier, track};
use survivalist_mod::incursion::{Payoff, choose_payoff, dread_permille, false_pct, raiders_pct};
use survivalist_mod::mix::{hash_pick, rng, scramble};
use survivalist_mod::quality::{craft_odds, edge_odds, is_tiered, surplus, tier_name, variant_name};
use survivalist_mod::settler::{SettleOutcome, SettleReport, husk, settle};
use survivalist_mod::storyteller::{guard_max_threats, new_guard, safe_to_pressure, set_guard};
use survivalist_mod::stranger::{
    Arrival, ArrivalReport, Intent, Mystery, StrangerMission, active_count as stranger_count, announce_refugee_line,
    arrival, gift_plan, is_claimed as stranger_claimed, launch as stranger_launch, may_launch as stranger_may_launch,
    mystery, new_book as new_stranger_book, reveal_aggressive, reveal_friendly, reveal_share, reveal_wary, roll_intent,
    spoke_line, timeout_line, tribute_carrier, watched_line,
};
use survivalist_mod::survival::{Rung, SurvivalFacts, assess, name as rung_name};
use survivalist_mod::text::{around_name, decimal_string};
use survivalist_mod::upgrade::scope;
use survivalist_mod::vendor::{VendorCamp, new_book as new_vendor_book, pick_source, pick_target};

fn t(x: i64, y: i64) -> Tile {
    Tile { x, y }
}

fn member(handle: i32, id: i64) -> MemberSnapshot {
    MemberSnapshot { handle, id, alive: true, human: true, conscious: true, squadded: false }
}

#[test]
fn scramble_matches_its_formula() {
    assert_eq!(scramble(1, 2, 100), 49);
    assert_eq!(scramble(0, 0, 0), 0);
    assert_eq!(scramble(12345, 678, 1000), 397);
    assert_eq!(rng(100.0f32.to_bits(), 7793, 100), 8);
    assert_eq!(hash_pick(42, 9.0f32.to_bits(), 3), 2);
}

#[test]
fn false_alarms_fade_and_raids_grow_with_escalation() {
    assert_eq!(false_pct(0), 60);
    assert_eq!(false_pct(3), 45);
    assert_eq!(false_pct(20), 20);
    assert_eq!(raiders_pct(0), 30);
    assert_eq!(raiders_pct(4), 50);
    assert_eq!(raiders_pct(100), 70);
}

#[test]
fn payoffs_follow_the_clock_roll() {
    let ten = 10.0f32.to_bits();
    assert_eq!(choose_payoff(ten, 0, false), Payoff::FalseAlarm);
    assert_eq!(choose_payoff(ten, 2, false), Payoff::Arrival);
    assert_eq!(choose_payoff(ten, 4, false), Payoff::Military);
    assert_eq!(choose_payoff(ten, 6, true), Payoff::Military);
    assert_eq!(choose_payoff(250.5f32.to_bits(), 6, true), Payoff::Raiders);
    assert_eq!(choose_payoff(100.0f32.to_bits(), 0, false), Payoff::Arrival);
    assert_eq!(dread_permille(ten), 299);
}

#[test]
fn camp_members_are_picked_by_freedom_and_score() {
    let mut ms = vec![member(1, 10), member(2, 20), member(3, 30)];
    ms[0].squadded = true;
    assert_eq!(first_free(&ms, Some(20)), Some(2));
    assert_eq!(best_free(&ms, &vec![9, 5, 5], None), Some(1));
    assert_eq!(best_free(&ms, &vec![9, 5, 7], Some(30)), Some(1));
    assert_eq!(headroom(5, 7), 0);
    assert_eq!(headroom(9, 7), 2);
    let mut group = vec![member(1, 1), member(2, 2), member(3, 3)];
    group[0].alive = false;
    let j: Vec<i32> = joiners(&group, 1).iter().map(|m| m.handle).collect();
    assert_eq!(j, vec![2]);
}

#[test]
fn geometry_basics() {
    assert_eq!(dist_sq(t(1, 2), t(4, 6)), 25);
    assert_eq!(nearest_index(&vec![t(9, 9), t(1, 1), t(-1, -1)], t(0, 0)), Some(1));
    assert_eq!(base_centre(t(0, 0), t(5, 3)), t(2, 1));
    assert_eq!(isqrt(99), 9);
    assert_eq!(isqrt(100), 10);
}

#[test]
fn text_builders() {
    assert_eq!(decimal_string(0), "0");
    assert_eq!(decimal_string(1207), "1207");
    assert_eq!(around_name("a ", "b", " c"), "a b c");
}

#[test]
fn quality_catalog() {
    assert_eq!(tier_name(0), "Legendary");
    assert_eq!(tier_name(3), "Uncommon");
    assert_eq!(variant_name("AssaultRifle", 2, 1), "AssaultRifle_Rare1");
    assert!(is_tiered("AssaultRifle_Rare1"));
    assert!(!is_tiered("AssaultRifle"));
    assert_eq!(craft_odds(-3), [0, 3, 12, 40]);
    assert_eq!(craft_odds(2), [2, 9, 36, 120]);
    assert_eq!(craft_odds(50), [8, 27, 108, 360]);
    assert_eq!(surplus(5, 7), 0);
    assert_eq!(surplus(9, 7), 2);
    assert_eq!(edge_odds(true), [10, 40, 100, 200]);
    assert_eq!(edge_odds(false), [3, 15, 50, 120]);
}

#[test]
fn horde_tiers_and_packs() {
    assert_eq!(tier(15), None);
    assert_eq!(tier(16), Some(PackSize { min: 4, max: 6, strain: Strain::Green }));
    assert_eq!(tier(44), Some(PackSize { min: 10, max: 12, strain: Strain::White }));
    let cs = vec![
        AlphaCandidate { eligible: true, members: 20, has_centre: true },
        AlphaCandidate { eligible: true, members: 30, has_centre: false },
        AlphaCandidate { eligible: true, members: 25, has_centre: true },
        AlphaCandidate { eligible: false, members: 90, has_centre: true },
    ];
    assert_eq!(pick_alpha(&cs), Some(2));
    let mut tr = new_tracker();
    track(&mut tr, 1, 100);
    track(&mut tr, 2, 200);
    assert_eq!(live_pack_count(&tr), 2);
    prune(&mut tr, &vec![true, false]);
    assert_eq!(live_pack_count(&tr), 1);
}

#[test]
fn survival_ladder() {
    let f = SurvivalFacts { members: 10, initial: 10, threats: 0, starving: false, underfed: false };
    assert_eq!(assess(f), Rung::Comfortable);
    assert_eq!(assess(SurvivalFacts { underfed: true, ..f }), Rung::Strained);
    assert_eq!(assess(SurvivalFacts { starving: true, ..f }), Rung::Desperate);
    assert_eq!(assess(SurvivalFacts { members: 4, ..f }), Rung::Desperate);
    assert_eq!(assess(SurvivalFacts { members: 2, threats: 1, ..f }), Rung::Terminal);
    assert_eq!(assess(SurvivalFacts { members: 0, ..f }), Rung::Terminal);
    assert_eq!(rung_name(Rung::Desperate), "desperate");
}

#[test]
fn the_storyteller_guard() {
    let mut g = new_guard();
    assert_eq!(guard_max_threats(&g), 0);
    assert!(safe_to_pressure(&g, 0));
    assert!(!safe_to_pressure(&g, 1));
    assert_eq!(set_guard(&mut g, Some(2)), 2);
    assert_eq!(set_guard(&mut g, None), 2);
    assert!(safe_to_pressure(&g, 2));
}

#[test]
fn conscripts_are_remembered_and_forgotten() {
    let mut b = new_genome_book();
    mark_conscript(&mut b, 7);
    assert!(is_conscript(&b, 7));
    drop_individual(&mut b, 7);
    assert!(!is_conscript(&b, 7));
    assert_eq!(restore_conscripts(&mut b, &vec![1, 2, 2]), 3);
    assert!(is_conscript(&b, 2));
}

#[test]
fn settlers_claim_husks() {
    assert!(husk(true, 0, true));
    assert!(!husk(true, 1, true));
    assert!(!husk(false, 0, true));
    let r = SettleReport { settled: false, members: 3, timed_out: false };
    assert_eq!(settle(r), SettleOutcome::Walking);
    assert_eq!(settle(SettleReport { settled: true, members: 0, timed_out: true }), SettleOutcome::Settled);
    assert_eq!(settle(SettleReport { members: 0, ..r }), SettleOutcome::DiedOnRoad);
    assert_eq!(settle(SettleReport { timed_out: true, ..r }), SettleOutcome::TimedOut);
}

#[test]
fn couriers_are_judged_in_order() {
    let r = PayingReport { courier_alive: true, timed_out: false, tile_known: true, arrived: true };
    assert_eq!(paying_outcome(Leg::Going, r), PayingOutcome::Deliver);
    assert_eq!(paying_outcome(Leg::Returning, r), PayingOutcome::PaidHome);
    assert_eq!(paying_outcome(Leg::Going, PayingReport { arrived: false, ..r }), PayingOutcome::OnTheRoad);
    assert_eq!(paying_outcome(Leg::Going, PayingReport { tile_known: false, ..r }), PayingOutcome::TileLost);
    assert_eq!(paying_outcome(Leg::Going, PayingReport { timed_out: true, ..r }), PayingOutcome::Recalled);
    assert_eq!(
        paying_outcome(Leg::Going, PayingReport { courier_alive: false, timed_out: true, ..r }),
        PayingOutcome::CourierLost
    );
}

#[test]
fn vendors_pick_by_roll() {
    let c = VendorCamp { handle: 1, id: 1, is_player: false, centre: t(0, 0), members: 5, at_war: false, threats: 0 };
    let cs = vec![
        VendorCamp { members: 2, ..c },
        VendorCamp { handle: 2, id: 2, ..c },
        VendorCamp { handle: 3, id: 3, is_player: true, ..c },
    ];
    let b = new_vendor_book();
    // Only camp 1 may send a vendor.
    assert_eq!(pick_source(&cs, &b, 10.0f32.to_bits()), Some(1));
    // At 10.0 the player's-gate roll is odd, so the second roll picks
    // among camps 0 and 2.
    assert_eq!(pick_target(&cs, 1, &vec![false, false, false], 10.0f32.to_bits()), Some(2));
    assert_eq!(pick_target(&cs, 1, &vec![true, false, true], 10.0f32.to_bits()), None);
}

#[test]
fn strangers_roll_and_reveal() {
    let ten = 10.0f32.to_bits();
    assert_eq!(roll_intent(1, ten), Intent::Shakedown);
    assert_eq!(roll_intent(2, ten), Intent::FriendlyJoin);
    assert_eq!(roll_intent(3, ten), Intent::Aggressive);
    assert_eq!(roll_intent(42, ten), Intent::WaryLeave);
    assert_eq!(mystery(3), Mystery::LeavesGift);
    assert_eq!(mystery(1), Mystery::Watches);
    assert_eq!(mystery(42), Mystery::Speaks);
    assert_eq!(reveal_aggressive(2, "Oak"), "it was a raid; the band fell on Oak");
    assert_eq!(reveal_wary(1, "Oak"), "the newcomers thought better of Oak and left");
    assert_eq!(reveal_share(2, "Oak", 3), "the strangers proved traders: they left Oak some supplies and moved on");
    assert_eq!(reveal_friendly("Oak", 2), "the strangers came in peace: 2 threw in with Oak");
    assert_eq!(reveal_friendly("Oak", 0), "the strangers sought shelter at Oak, but there was no room");
    assert_eq!(
        announce_refugee_line(7, "Oak"),
        "families on the road make for Oak, carrying what they could"
    );
    assert_eq!(watched_line("Oak"), "a lone figure watched Oak from a distance for hours; by nightfall there was no trace");
    assert_eq!(spoke_line("Oak"), "the stranger spoke a single sentence at Oak's gate and left; no two retellings agree");
    assert_eq!(timeout_line(Intent::Refugee, "Oak"), "the refugees scattered before reaching Oak");
    assert_eq!(timeout_line(Intent::Mysterious, "Oak"), "the lone figure never reached Oak; perhaps it was never coming");
    assert_eq!(timeout_line(Intent::Aggressive, "Oak"), "the strangers never reached Oak and moved on");
}

#[test]
fn stranger_arrivals_and_caps() {
    let r = ArrivalReport { members: 3, timed_out: false, leader_placed: true, camp_placed: true, at_gate: true };
    assert_eq!(arrival(r), Arrival::AtGate);
    assert_eq!(arrival(ArrivalReport { members: 0, ..r }), Arrival::Vanished);
    assert_eq!(arrival(ArrivalReport { camp_placed: false, ..r }), Arrival::CampGone);
    assert_eq!(arrival(ArrivalReport { at_gate: false, ..r }), Arrival::Walking);
    let mut b = new_stranger_book();
    let m = StrangerMission { group_h: 1, group_id: 5, target_h: 2, target_name: "Oak".to_string(), intent: Intent::Aggressive, deadline_bits: 0 };
    assert!(stranger_may_launch(&b, None));
    stranger_launch(&mut b, m.clone());
    stranger_launch(&mut b, StrangerMission { group_id: 6, ..m.clone() });
    assert!(!stranger_may_launch(&b, None));
    assert!(stranger_may_launch(&b, Some(Intent::Refugee)));
    assert!(stranger_claimed(&b, 6));
    assert_eq!(stranger_count(&b), 2);
}

#[test]
fn bands_give_until_the_gift_is_full() {
    assert_eq!(gift_plan(&vec![Some(1), None, Some(4), Some(2)], 3), vec![1, 0, 2, 0]);
    assert_eq!(gift_plan(&vec![Some(0), Some(-2)], 1), vec![0, 0]);
    assert_eq!(tribute_carrier(Some(4), &vec![7, 8]), Some(4));
    assert_eq!(tribute_carrier(None, &vec![7, 8]), Some(7));
    assert_eq!(tribute_carrier(None, &vec![]), None);
}

#[test]
fn upgrade_scopes() {
    assert_eq!(scope(0), Some("props"));
    assert_eq!(scope(1), Some("communities"));
    assert_eq!(scope(2), None);
}
