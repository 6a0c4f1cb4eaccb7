use survivalist_mod::camp::CommunityKind;
use survivalist_mod::courier::Leg;
use survivalist_mod::errand::{
    Lesson, Step, Tally, first_best, holds_id, majority, nearest_eligible, pick_pair, tally, top_k,
};
use survivalist_mod::genome::{AGGRESSION, DEFENSIVENESS, EXPANSIONISM, GUILE};
use survivalist_mod::geo::Tile;
use survivalist_mod::murder::{
    MurderMission, PlotCamp, PlotOutcome, PlotReport, assassinated_line, cut_down_line, mark_of,
    pick_plotter, plot_lessons, plot_mission_step, plot_step, strike_begun,
};
use survivalist_mod::rob::{
    Party, RobBook, RobCamp, RobMission, RobOutcome, Stack, Traveller, active_robbers, best_stack,
    end_robbery, judge_robbery, may_rob, new_rob_book, pick_robber, pick_victim, rob_lesson,
    robbery_words, start_robbery,
};
use survivalist_mod::scavenge::{
    Candidate, PropView, ScavCamp, ScavMission, ScavOutcome, active_scavengers, end_scavenge,
    haul_line, haul_plan, new_scav_book, party, party_size, pick_prop, pick_scavenger, scav_result,
    scav_step, start_scavenge,
};
use survivalist_mod::steal::{
    StealCamp, StealMission, StealOutcome, StealReport, active_theft, active_thieves, caught_line,
    end_theft, may_steal, new_steal_book, plan_theft, raided, room_for_theft, start_theft,
    steal_lesson, steal_step,
};
use survivalist_mod::trade::{
    TradeCamp, TradeGoing, TradeMission, active_sellers, active_trade, announces_gift, bartered,
    donations, end_trade, gift_line, may_sell, new_trade_book, plan_trade, room_for_trade,
    start_trade, trade_going, trade_returning, trader_lost_lesson,
};

fn bits(v: f64) -> u64 {
    v.to_bits()
}

fn t(x: i64, y: i64) -> Tile {
    Tile { x, y }
}

// ---- the vote and the choices -------------------------------------------------

#[test]
fn tally_counts_scores_at_or_above_the_floor() {
    let scores = vec![bits(0.2), bits(0.5), bits(0.9), bits(0.49)];
    let v = tally(&scores, bits(0.5));
    assert_eq!(v, Tally { votes: 2, franchise: 4 });
}

#[test]
fn majority_is_strict_and_needs_voters() {
    assert!(!majority(Tally { votes: 0, franchise: 0 }));
    assert!(!majority(Tally { votes: 2, franchise: 4 }));
    assert!(majority(Tally { votes: 3, franchise: 5 }));
    assert!(majority(Tally { votes: 1, franchise: 1 }));
    assert!(!majority(Tally { votes: 1, franchise: 2 }));
}

#[test]
fn first_best_prefers_the_earlier_on_ties() {
    let eligible = vec![false, true, true, true];
    let scores = vec![99, 5, 7, 7];
    assert_eq!(first_best(&eligible, &scores), Some(2));
    assert_eq!(first_best(&vec![false, false], &vec![1, 2]), None);
}

#[test]
fn nearest_eligible_skips_the_ineligible() {
    let tiles = vec![t(1, 0), t(5, 5), t(3, 4), t(-3, 4)];
    let ok = vec![false, true, true, true];
    // (1,0) is nearest but not eligible; (3,4) and (-3,4) tie at 25.
    assert_eq!(nearest_eligible(&tiles, &ok, t(0, 0)), Some(2));
}

#[test]
fn holds_id_finds_members() {
    assert!(holds_id(&vec![4, 9, 2], 9));
    assert!(!holds_id(&vec![4, 9, 2], 3));
}

#[test]
fn top_k_is_a_stable_descending_prefix() {
    let scores = vec![3, 9, 9, 1, 5];
    assert_eq!(top_k(&scores, 3), vec![1, 2, 4]);
    assert_eq!(top_k(&scores, 0), Vec::<usize>::new());
    assert_eq!(top_k(&scores, 5), vec![1, 2, 4, 0, 3]);
}

#[test]
fn pick_pair_takes_the_best_actor_with_a_candidate() {
    let can_act = vec![true, true, false];
    let scores = vec![9, 3, 10];
    let tiles = vec![t(0, 0), t(10, 0), t(20, 0)];
    // The best actor (0) has no candidate, so the next one acts.
    let ok = vec![vec![false, false, false], vec![true, false, true], vec![true, true, false]];
    assert_eq!(pick_pair(&can_act, &scores, &tiles, &ok), Some((1, 0)));
}

// ---- trade -------------------------------------------------------------------

fn trade_camp(handle: i32, id: i64, kind: CommunityKind, centre: Tile, careful: f64) -> TradeCamp {
    TradeCamp {
        handle,
        id,
        kind,
        living: 5,
        at_war: false,
        threats: 0,
        centre,
        voted: true,
        careful_bits: bits(careful),
    }
}

#[test]
fn may_sell_needs_a_peaceful_voting_settlement() {
    let c = trade_camp(1, 10, CommunityKind::Normal, t(0, 0), 0.6);
    assert!(may_sell(&c, &vec![]));
    assert!(!may_sell(&c, &vec![10]));
    assert!(!may_sell(&TradeCamp { kind: CommunityKind::Player, ..c }, &vec![]));
    assert!(!may_sell(&TradeCamp { living: 2, ..c }, &vec![]));
    assert!(!may_sell(&TradeCamp { at_war: true, ..c }, &vec![]));
    assert!(!may_sell(&TradeCamp { threats: 1, ..c }, &vec![]));
    assert!(!may_sell(&TradeCamp { voted: false, ..c }, &vec![]));
}

#[test]
fn plan_trade_sends_the_most_careful_seller_to_its_nearest_host() {
    let camps = vec![
        trade_camp(1, 10, CommunityKind::Normal, t(0, 0), 0.6),
        trade_camp(2, 20, CommunityKind::Looter, t(100, 0), 0.8),
        trade_camp(3, 30, CommunityKind::Player, t(30, 0), 0.0),
        trade_camp(4, 40, CommunityKind::Normal, t(60, 0), 0.1),
    ];
    let host_ok = vec![
        vec![false, false, true, true],
        vec![false, false, true, true],
        vec![false, false, false, false],
        vec![false, false, false, false],
    ];
    // Camp 1 (0.8) sells; of its hosts (30,0) and (60,0), (60,0) is nearer.
    assert_eq!(plan_trade(&camps, &vec![], &host_ok), Some((1, 3)));
    // With camp 1 already trading, camp 0 sells to (30,0).
    assert_eq!(plan_trade(&camps, &vec![20], &host_ok), Some((0, 2)));
    assert_eq!(plan_trade(&camps, &vec![10, 20], &host_ok), None);
}

#[test]
fn donations_leave_every_donor_a_stack() {
    assert_eq!(donations(&vec![3, 1, 0, 5], 2), vec![2, 0, 0, 0]);
    assert_eq!(donations(&vec![2, 2, 5], 3), vec![1, 1, 1]);
    assert_eq!(donations(&vec![1, 4], 0), vec![0, 0]);
}

fn trade_mission(seller_id: i64, host_is_player: bool) -> TradeMission {
    TradeMission {
        seller_h: 1,
        seller_id,
        seller_name: "Oak Hollow".to_string(),
        host_h: 2,
        host_name: "Player Camp".to_string(),
        host_is_player,
        trader_h: 3,
        trader_name: "Mara".to_string(),
        squad_id: 77,
        home: t(5, 5),
        leg: Leg::Going,
        loaded: 2,
        delivered: 0,
        paid: 0,
        voter_ids: vec![1, 2],
        deadline_bits: 0,
    }
}

#[test]
fn trade_book_caps_caravans_and_finds_them() {
    let mut b = new_trade_book();
    assert!(room_for_trade(&b));
    start_trade(&mut b, trade_mission(10, false));
    start_trade(&mut b, trade_mission(20, false));
    start_trade(&mut b, trade_mission(30, false));
    assert!(!room_for_trade(&b));
    assert_eq!(active_sellers(&b), vec![10, 20, 30]);
    assert_eq!(active_trade(&b, 20), Some(1));
    assert_eq!(active_trade(&b, 99), None);
    let m = end_trade(&mut b, 0);
    assert_eq!(m.seller_id, 10);
    assert_eq!(active_sellers(&b), vec![20, 30]);
}

#[test]
fn a_caravan_trades_only_when_arrived_at_a_living_host() {
    assert_eq!(trade_going(false, true), TradeGoing::HostGone);
    assert_eq!(trade_going(true, false), TradeGoing::OnTheRoad);
    assert_eq!(trade_going(true, true), TradeGoing::Barter);
}

#[test]
fn a_barter_turns_the_caravan_home() {
    let m = bartered(trade_mission(10, true), 2, 1);
    assert_eq!(m.leg, Leg::Returning);
    assert_eq!(m.delivered, 2);
    assert_eq!(m.paid, 1);
    assert!(announces_gift(&m));
    assert!(!announces_gift(&bartered(trade_mission(10, true), 0, 1)));
    assert!(!announces_gift(&bartered(trade_mission(10, false), 2, 1)));
}

#[test]
fn gift_line_reads_naturally() {
    assert_eq!(gift_line("Oak Hollow", "Mara"), "Oak Hollow has sent Mara to your gate with food");
}

#[test]
fn the_trip_home_teaches_only_when_food_was_delivered() {
    assert_eq!(trade_returning(false, 2), (Step::Continue, None));
    assert_eq!(
        trade_returning(true, 2),
        (Step::Complete, Some(Lesson { trait_index: DEFENSIVENESS, up: true, tenths: 10 }))
    );
    assert_eq!(trade_returning(true, 0), (Step::Complete, None));
    assert_eq!(trader_lost_lesson(), Lesson { trait_index: DEFENSIVENESS, up: false, tenths: 20 });
}

// ---- theft -------------------------------------------------------------------

fn steal_camp(handle: i32, id: i64, centre: Tile, guile: Vec<f64>, mean: f64) -> StealCamp {
    StealCamp {
        handle,
        id,
        kind: CommunityKind::Normal,
        living: 4,
        at_war: false,
        threats: 0,
        centre,
        guile_bits: guile.into_iter().map(bits).collect(),
        mean_guile_bits: bits(mean),
    }
}

#[test]
fn may_steal_needs_a_strict_majority_of_guile() {
    let c = steal_camp(1, 10, t(0, 0), vec![0.6, 0.7, 0.1], 0.47);
    assert!(may_steal(&c, &vec![]));
    assert!(!may_steal(&c, &vec![10]));
    let split = steal_camp(1, 10, t(0, 0), vec![0.6, 0.1], 0.35);
    assert!(!may_steal(&split, &vec![]));
    let empty = steal_camp(1, 10, t(0, 0), vec![], 0.0);
    assert!(!may_steal(&empty, &vec![]));
    assert!(!may_steal(&StealCamp { living: 2, ..c.clone() }, &vec![]));
}

#[test]
fn plan_theft_picks_the_most_guileful_thief_and_its_nearest_mark() {
    let camps = vec![
        steal_camp(1, 10, t(0, 0), vec![0.6, 0.7], 0.65),
        steal_camp(2, 20, t(50, 0), vec![0.9, 0.8], 0.85),
        steal_camp(3, 30, t(10, 0), vec![0.1], 0.1),
    ];
    let ok = vec![vec![false, true, true], vec![true, false, true], vec![false, false, false]];
    assert_eq!(plan_theft(&camps, &vec![], &ok), Some((1, 2)));
    assert_eq!(plan_theft(&camps, &vec![20], &ok), Some((0, 2)));
}

#[test]
fn a_theft_pass_checks_life_then_deadline_then_leg() {
    let r = StealReport { thief_alive: true, timed_out: false, target_alive: true, arrived: true };
    assert_eq!(steal_step(Leg::Going, r), StealOutcome::Raid);
    assert_eq!(steal_step(Leg::Returning, r), StealOutcome::Home);
    assert_eq!(steal_step(Leg::Going, StealReport { arrived: false, ..r }), StealOutcome::OnTheRoad);
    assert_eq!(steal_step(Leg::Going, StealReport { target_alive: false, ..r }), StealOutcome::MarkGone);
    assert_eq!(steal_step(Leg::Going, StealReport { timed_out: true, ..r }), StealOutcome::Fizzled);
    assert_eq!(
        steal_step(Leg::Returning, StealReport { thief_alive: false, timed_out: true, ..r }),
        StealOutcome::ThiefDied
    );
}

#[test]
fn theft_lessons_follow_the_outcome() {
    assert_eq!(
        steal_lesson(StealOutcome::ThiefDied, false, 0),
        Some(Lesson { trait_index: GUILE, up: false, tenths: 20 })
    );
    assert_eq!(
        steal_lesson(StealOutcome::Raid, true, 2),
        Some(Lesson { trait_index: GUILE, up: false, tenths: 15 })
    );
    assert_eq!(steal_lesson(StealOutcome::Raid, false, 2), None);
    assert_eq!(
        steal_lesson(StealOutcome::Home, false, 2),
        Some(Lesson { trait_index: GUILE, up: true, tenths: 10 })
    );
    assert_eq!(steal_lesson(StealOutcome::Home, true, 2), None);
    assert_eq!(steal_lesson(StealOutcome::Home, false, 0), None);
}

fn steal_mission(faction_id: i64) -> StealMission {
    StealMission {
        faction_h: 1,
        faction_id,
        faction_name: "Ash Ford".to_string(),
        target_h: 2,
        target_name: "Red Mill".to_string(),
        thief_h: 3,
        thief_name: "Pell".to_string(),
        squad_id: 5,
        home: t(0, 0),
        leg: Leg::Going,
        caught: false,
        stolen: 0,
        voter_ids: vec![],
        deadline_bits: 0,
    }
}

#[test]
fn steal_book_caps_at_four_and_raids_turn_home() {
    let mut b = new_steal_book();
    for id in 1..=4 {
        assert!(room_for_theft(&b));
        start_theft(&mut b, steal_mission(id));
    }
    assert!(!room_for_theft(&b));
    assert_eq!(active_thieves(&b), vec![1, 2, 3, 4]);
    assert_eq!(active_theft(&b, 3), Some(2));
    let m = end_theft(&mut b, 2);
    assert_eq!(m.faction_id, 3);
    let r = raided(m, 2, true);
    assert_eq!((r.leg, r.stolen, r.caught), (Leg::Returning, 2, true));
    assert_eq!(caught_line("Ash Ford", "Red Mill"), "a thief from Ash Ford was caught in Red Mill's stores");
}

// ---- robbery -----------------------------------------------------------------

fn rob_camp(id: i64, menace: Vec<f64>, mean: f64) -> RobCamp {
    RobCamp {
        handle: id as i32,
        id,
        kind: CommunityKind::Looter,
        ai_settlement: true,
        living: 6,
        at_war: false,
        threats: 0,
        ambushing: false,
        menace_bits: menace.into_iter().map(bits).collect(),
        mean_menace_bits: bits(mean),
    }
}

#[test]
fn may_rob_needs_a_spare_party_and_a_majority() {
    let c = rob_camp(1, vec![0.6, 0.55, 0.2], 0.45);
    assert!(may_rob(&c, &vec![]));
    assert!(!may_rob(&RobCamp { living: 4, ..c.clone() }, &vec![]));
    assert!(!may_rob(&RobCamp { ambushing: true, ..c.clone() }, &vec![]));
    assert!(!may_rob(&c, &vec![1]));
    assert!(!may_rob(&rob_camp(1, vec![0.54, 0.9], 0.7), &vec![]));
}

#[test]
fn pick_robber_takes_the_most_menacing() {
    let camps = vec![
        rob_camp(1, vec![0.6, 0.6], 0.6),
        rob_camp(2, vec![0.9, 0.9], 0.9),
        rob_camp(3, vec![0.9, 0.1], 0.5),
    ];
    assert_eq!(pick_robber(&camps, &vec![]), Some(1));
    assert_eq!(pick_robber(&camps, &vec![2]), Some(0));
    assert_eq!(pick_robber(&camps, &vec![1, 2]), None);
}

#[test]
fn best_stack_is_the_largest_worthy_one() {
    let stacks = vec![
        Stack { amount: 1, has_proto: true },
        Stack { amount: 5, has_proto: false },
        Stack { amount: 3, has_proto: true },
        Stack { amount: 3, has_proto: true },
    ];
    assert_eq!(best_stack(&stacks), Some(2));
    assert_eq!(best_stack(&vec![Stack { amount: 1, has_proto: true }]), None);
}

#[test]
fn pick_victim_takes_the_first_rich_roving_traveller() {
    let poor = Traveller { handle: 7, alive: true, stacks: vec![Stack { amount: 1, has_proto: true }] };
    let dead_rich = Traveller { handle: 8, alive: false, stacks: vec![Stack { amount: 9, has_proto: true }] };
    let rich = Traveller {
        handle: 9,
        alive: true,
        stacks: vec![Stack { amount: 2, has_proto: true }, Stack { amount: 4, has_proto: true }],
    };
    let parties = vec![
        Party { roving: false, allied: false, members: vec![rich.clone()] },
        Party { roving: true, allied: true, members: vec![rich.clone()] },
        Party { roving: true, allied: false, members: vec![poor, dead_rich, rich] },
    ];
    assert_eq!(pick_victim(&parties), Some((2, 2, 1)));
    assert_eq!(pick_victim(&parties[..2].to_vec()), None);
}

#[test]
fn robbery_is_judged_by_the_lead_then_the_loot() {
    assert_eq!(judge_robbery(false, true), RobOutcome::LeadDied);
    assert_eq!(judge_robbery(true, true), RobOutcome::LootHome);
    assert_eq!(judge_robbery(true, false), RobOutcome::CameHomeEmpty);
    assert_eq!(rob_lesson(RobOutcome::LeadDied), (false, 20));
    assert_eq!(rob_lesson(RobOutcome::LootHome), (true, 10));
    assert_eq!(rob_lesson(RobOutcome::CameHomeEmpty), (false, 5));
    assert_eq!(robbery_words(RobOutcome::LootHome), "the loot is in camp hands; menace paid");
}

#[test]
fn rob_book_lists_and_removes() {
    let mut b: RobBook = new_rob_book();
    let m = RobMission {
        robber_h: 1,
        robber_id: 11,
        robber_name: "Grey Dogs".to_string(),
        victim_name: "Wanderers".to_string(),
        lead_h: 2,
        lead_name: "Kett".to_string(),
        proto_h: 3,
        eval_at_bits: 0,
        voter_ids: vec![],
    };
    start_robbery(&mut b, m.clone());
    start_robbery(&mut b, RobMission { robber_id: 12, ..m });
    assert_eq!(active_robbers(&b), vec![11, 12]);
    assert_eq!(end_robbery(&mut b, 0).robber_id, 11);
    assert_eq!(active_robbers(&b), vec![12]);
}

// ---- murder ------------------------------------------------------------------

fn plot_camp(id: i64, enemy: Option<i32>, voted: bool, mean: f64) -> PlotCamp {
    PlotCamp {
        handle: id as i32,
        id,
        kind: CommunityKind::Normal,
        ai_settlement: true,
        living: 3,
        enemy,
        voted,
        mean_guile_bits: bits(mean),
    }
}

#[test]
fn only_camps_at_war_plot() {
    let camps = vec![
        plot_camp(1, None, true, 0.9),
        plot_camp(2, Some(5), true, 0.7),
        plot_camp(3, Some(6), false, 0.95),
        plot_camp(4, Some(7), true, 0.7),
    ];
    assert_eq!(pick_plotter(&camps), Some(1));
    assert_eq!(pick_plotter(&camps[..1].to_vec()), None);
    assert_eq!(mark_of(Some(9), true), Some(9));
    assert_eq!(mark_of(Some(9), false), None);
}

fn plot_report(op: Tile, victim: Tile) -> PlotReport {
    PlotReport {
        operative_alive: true,
        victim_alive: true,
        strike_expired: false,
        operative_tile: op,
        victim_tile: victim,
    }
}

#[test]
fn the_operative_strikes_only_within_twelve_tiles() {
    let home = t(0, 0);
    assert_eq!(plot_step(Leg::Going, false, home, plot_report(t(0, 0), t(12, 0))), PlotOutcome::Strike);
    assert_eq!(plot_step(Leg::Going, false, home, plot_report(t(0, 0), t(12, 1))), PlotOutcome::Shadow);
    assert_eq!(
        plot_step(Leg::Going, false, home, PlotReport { victim_alive: false, ..plot_report(t(0, 0), t(1, 1)) }),
        PlotOutcome::MarkGone
    );
    assert_eq!(
        plot_step(Leg::Going, false, home, PlotReport { operative_alive: false, ..plot_report(t(0, 0), t(1, 1)) }),
        PlotOutcome::OperativeLost
    );
}

#[test]
fn the_strike_ends_in_a_kill_or_is_blown() {
    let home = t(0, 0);
    let r = plot_report(t(0, 0), t(100, 100));
    assert_eq!(plot_step(Leg::Going, true, home, r), PlotOutcome::Striking);
    assert_eq!(plot_step(Leg::Going, true, home, PlotReport { victim_alive: false, ..r }), PlotOutcome::Killed);
    assert_eq!(plot_step(Leg::Going, true, home, PlotReport { strike_expired: true, ..r }), PlotOutcome::Blown);
    assert_eq!(plot_step(Leg::Returning, false, home, plot_report(t(8, 0), t(0, 0))), PlotOutcome::Home);
    assert_eq!(plot_step(Leg::Returning, false, home, plot_report(t(8, 1), t(0, 0))), PlotOutcome::Homeward);
}

#[test]
fn plot_steps_and_lessons() {
    assert_eq!(plot_mission_step(PlotOutcome::Killed), Step::Transition);
    assert_eq!(plot_mission_step(PlotOutcome::Strike), Step::Continue);
    assert_eq!(plot_mission_step(PlotOutcome::OperativeLost), Step::Complete);
    assert_eq!(
        plot_lessons(PlotOutcome::OperativeLost),
        vec![
            Lesson { trait_index: GUILE, up: false, tenths: 20 },
            Lesson { trait_index: AGGRESSION, up: false, tenths: 10 },
        ]
    );
    assert_eq!(plot_lessons(PlotOutcome::Killed), vec![Lesson { trait_index: GUILE, up: true, tenths: 15 }]);
    assert_eq!(plot_lessons(PlotOutcome::Blown), vec![Lesson { trait_index: GUILE, up: false, tenths: 10 }]);
    assert!(plot_lessons(PlotOutcome::Shadow).is_empty());
}

#[test]
fn murder_lines_and_strike_window() {
    assert_eq!(cut_down_line("Ash Ford", "Red Mill"), "an assassin from Ash Ford was cut down in Red Mill");
    assert_eq!(
        assassinated_line("Boss Harl", "Red Mill"),
        "Boss Harl, leader of Red Mill, has been assassinated"
    );
    let m = MurderMission {
        camp_h: 1,
        camp_id: 2,
        camp_name: "Ash Ford".to_string(),
        victim_h: 3,
        victim_name: "Boss Harl".to_string(),
        victim_camp_name: "Red Mill".to_string(),
        operative_h: 4,
        operative_name: "Vey".to_string(),
        squad_id: 5,
        home: t(0, 0),
        leg: Leg::Going,
        strike_phase: false,
        strike_deadline_bits: 0,
        voter_ids: vec![],
        deadline_bits: 0,
    };
    let s = strike_begun(m, 1234);
    assert!(s.strike_phase);
    assert_eq!(s.strike_deadline_bits, 1234);
}

// ---- scavenging --------------------------------------------------------------

fn scav_camp(id: i64, voted: bool, mean: f64, candidates: usize) -> ScavCamp {
    ScavCamp {
        handle: id as i32,
        id,
        kind: CommunityKind::Normal,
        ai_settlement: true,
        living: 6,
        at_war: false,
        threats: 0,
        voted,
        mean_bits: bits(mean),
        candidates: (0..candidates).map(|i| Candidate { id: i as i64, score_bits: bits(0.6) }).collect(),
    }
}

#[test]
fn pick_scavenger_needs_free_yes_voters() {
    let camps = vec![scav_camp(1, true, 0.9, 0), scav_camp(2, true, 0.7, 2), scav_camp(3, false, 0.8, 3)];
    assert_eq!(pick_scavenger(&camps, &vec![]), Some(1));
    assert_eq!(pick_scavenger(&camps, &vec![2]), None);
}

#[test]
fn pick_prop_takes_the_nearest_ownerless_store() {
    let props = vec![
        PropView { handle: 1, living_owner: true, items: 5, tile: Some(t(1, 1)) },
        PropView { handle: 2, living_owner: false, items: 0, tile: Some(t(2, 2)) },
        PropView { handle: 3, living_owner: false, items: 2, tile: None },
        PropView { handle: 4, living_owner: false, items: 4, tile: Some(t(9, 9)) },
        PropView { handle: 5, living_owner: false, items: 1, tile: Some(t(-5, -5)) },
    ];
    assert_eq!(pick_prop(&props, t(0, 0)), Some(4));
    assert_eq!(pick_prop(&props[..3].to_vec(), t(0, 0)), None);
}

#[test]
fn party_size_follows_the_camp_and_the_loot() {
    // 12 members spare 4; 7 stacks need 3 carriers; 5 volunteers.
    assert_eq!(party_size(12, 5, 7), 3);
    // 20 stacks are capped at 9, which needs 3 carriers; the camp spares 2.
    assert_eq!(party_size(6, 5, 20), 2);
    // A tiny camp still sends one.
    assert_eq!(party_size(2, 4, 1), 1);
    assert_eq!(party_size(30, 1, 9), 1);
}

#[test]
fn the_party_is_the_most_eager_volunteers() {
    let cands = vec![
        Candidate { id: 100, score_bits: bits(0.6) },
        Candidate { id: 101, score_bits: bits(0.9) },
        Candidate { id: 102, score_bits: bits(0.6) },
        Candidate { id: 103, score_bits: bits(0.7) },
    ];
    assert_eq!(party(&cands, 3), vec![101, 103, 100]);
}

#[test]
fn the_haul_is_three_each_nine_in_all() {
    assert_eq!(haul_plan(&vec![true, true, true, true], 20), vec![3, 3, 3, 0]);
    assert_eq!(haul_plan(&vec![true, false, true], 4), vec![3, 0, 1]);
    assert_eq!(haul_plan(&vec![true], 0), vec![0]);
}

#[test]
fn scavenging_passes_and_lessons() {
    assert_eq!(scav_step(Leg::Going, true, t(0, 0), t(10, 0), false), ScavOutcome::Loot);
    assert_eq!(scav_step(Leg::Going, true, t(0, 0), t(10, 1), false), ScavOutcome::OnTheRoad);
    assert_eq!(scav_step(Leg::Returning, true, t(0, 0), t(99, 99), true), ScavOutcome::Home);
    assert_eq!(scav_step(Leg::Returning, false, t(0, 0), t(99, 99), true), ScavOutcome::PartyLost);
    assert_eq!(
        scav_result(ScavOutcome::Home, 3),
        (Step::Complete, Some(Lesson { trait_index: EXPANSIONISM, up: true, tenths: 10 }))
    );
    assert_eq!(
        scav_result(ScavOutcome::Home, 0),
        (Step::Complete, Some(Lesson { trait_index: EXPANSIONISM, up: false, tenths: 5 }))
    );
    assert_eq!(
        scav_result(ScavOutcome::PartyLost, 0),
        (Step::Complete, Some(Lesson { trait_index: EXPANSIONISM, up: false, tenths: 20 }))
    );
    assert_eq!(scav_result(ScavOutcome::Loot, 0), (Step::Transition, None));
    assert_eq!(haul_line("Ash Ford", "a ruin"), "Ash Ford's scavengers came home from a ruin with a haul");
}

#[test]
fn scav_book_lists_and_removes() {
    let mut b = new_scav_book();
    let m = ScavMission {
        scav_h: 1,
        scav_id: 41,
        scav_name: "Ash Ford".to_string(),
        carriers: vec![7, 8],
        prop_h: 9,
        prop_tile: t(3, 3),
        prop_name: "a ruin".to_string(),
        home: t(0, 0),
        squad_id: 1,
        leg: Leg::Going,
        hauled: 0,
        voter_ids: vec![],
        deadline_bits: 0,
    };
    start_scavenge(&mut b, m.clone());
    start_scavenge(&mut b, ScavMission { scav_id: 42, ..m });
    assert_eq!(active_scavengers(&b), vec![41, 42]);
    assert_eq!(end_scavenge(&mut b, 1).scav_id, 42);
    assert_eq!(active_scavengers(&b), vec![41]);
}
