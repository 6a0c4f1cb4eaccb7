use survivalist_mod::courier::Leg;
use survivalist_mod::development::{Rect, plan_annex, probe_tiles};
use survivalist_mod::genome::{drop_individual, is_conscript, mark_conscript, new_book as new_genome_book, restore_conscripts};
use survivalist_mod::geo::Tile;
use survivalist_mod::settler::{self, SettlerMission};
use survivalist_mod::stranger::{self, Intent, StrangerMission};
use survivalist_mod::survival::{Rung, readout_order};
use survivalist_mod::trade::{last_logged, new_fail_log, should_log_failed_launch};
use survivalist_mod::vendor::{self, VendorMission};

fn band(group_id: i64, intent: Intent) -> StrangerMission {
    StrangerMission { group_h: 1, group_id, target_h: 2, target_name: "Oak".to_string(), intent, deadline_bits: 0 }
}

#[test]
fn each_cap_counts_its_own_bands() {
    let mut b = stranger::new_book();
    stranger::launch(&mut b, band(1, Intent::Aggressive));
    stranger::launch(&mut b, band(2, Intent::Mysterious));
    assert!(!stranger::has_room(&b, Intent::Shakedown));
    for id in 3..6 {
        assert!(stranger::has_room(&b, Intent::Refugee));
        stranger::launch(&mut b, band(id, Intent::Refugee));
    }
    assert!(!stranger::has_room(&b, Intent::Refugee));
    assert_eq!(stranger::refugees(&b), 3);
    assert_eq!(stranger::active_count(&b), 5);
}

#[test]
fn a_finished_band_frees_its_group_and_its_cap() {
    let mut b = stranger::new_book();
    stranger::launch(&mut b, band(1, Intent::Aggressive));
    stranger::launch(&mut b, band(2, Intent::WaryLeave));
    let m = stranger::finish(&mut b, 0);
    assert_eq!(m.group_id, 1);
    assert!(!stranger::is_claimed(&b, 1));
    assert!(stranger::is_claimed(&b, 2));
    assert!(stranger::has_room(&b, Intent::FriendlyJoin));
}

#[test]
fn one_settling_band_at_a_time() {
    let mut b = settler::new_book();
    assert!(settler::may_launch(&b));
    let m = SettlerMission { group_h: 1, group_id: 9, husk_h: 2, husk_name: "Old Mill".to_string(), deadline_bits: 0 };
    settler::launch(&mut b, m);
    assert!(!settler::may_launch(&b));
    assert!(settler::is_claimed(&b, 9));
    settler::finish(&mut b, 0);
    assert!(!settler::is_claimed(&b, 9));
    assert!(settler::may_launch(&b));
}

fn vendor_from(source_id: i64) -> VendorMission {
    VendorMission {
        source_h: 1,
        source_id,
        source_name: "Oak".to_string(),
        target_h: 2,
        target_name: "Elm".to_string(),
        target_is_player: false,
        trader_h: 3,
        trader_name: "Mae".to_string(),
        squad_id: 4,
        home: Tile { x: 0, y: 0 },
        leg: Leg::Going,
        brought: 2,
        sold: 0,
        paid: 0,
        deadline_bits: 0,
    }
}

#[test]
fn vendors_keep_to_their_cap_and_their_camps() {
    let mut b = vendor::new_book();
    vendor::launch(&mut b, vendor_from(7));
    assert!(vendor::mission_active_source(&b, 7));
    assert!(vendor::may_launch(&b));
    vendor::launch(&mut b, vendor_from(8));
    assert!(!vendor::may_launch(&b));
    let m = vendor::finish(&mut b, 0);
    assert_eq!(m.source_id, 7);
    assert!(!vendor::mission_active_source(&b, 7));
    assert_eq!(vendor::active_count(&b), 1);
}

#[test]
fn conscripts_follow_their_history() {
    let mut b = new_genome_book();
    assert!(!is_conscript(&b, 1));
    mark_conscript(&mut b, 1);
    restore_conscripts(&mut b, &vec![2, 3]);
    drop_individual(&mut b, 2);
    mark_conscript(&mut b, 2);
    drop_individual(&mut b, 3);
    assert!(is_conscript(&b, 1));
    assert!(is_conscript(&b, 2));
    assert!(!is_conscript(&b, 3));
    assert!(!is_conscript(&b, 4));
}

#[test]
fn a_failed_launch_is_logged_once_per_cooldown() {
    let mut l = new_fail_log();
    assert_eq!(last_logged(&l, 5), None);
    assert!(should_log_failed_launch(&mut l, 5, 100, false));
    assert_eq!(last_logged(&l, 5), Some(100));
    assert!(!should_log_failed_launch(&mut l, 5, 200, false));
    assert_eq!(last_logged(&l, 5), Some(100));
    assert!(should_log_failed_launch(&mut l, 5, 300, true));
    assert_eq!(last_logged(&l, 5), Some(300));
    assert!(should_log_failed_launch(&mut l, 6, 300, false));
    assert_eq!(l.entries.len(), 2);
}

#[test]
fn the_survival_readout_puts_the_desperate_first() {
    let rungs = vec![Rung::Comfortable, Rung::Desperate, Rung::Terminal, Rung::Strained, Rung::Desperate];
    assert_eq!(readout_order(&rungs), vec![2, 1, 4, 3, 0]);
    assert!(readout_order(&vec![]).is_empty());
}

#[test]
fn no_base_gets_no_annex() {
    let invalid = Rect { minx: -1, miny: -1, maxx: -1, maxy: -1 };
    assert!(probe_tiles(invalid).is_empty());
    assert!(plan_annex(invalid, &vec![]).is_none());
    let flat = Rect { minx: 10, miny: 10, maxx: 20, maxy: 10 };
    assert!(probe_tiles(flat).is_empty());
    assert!(plan_annex(flat, &vec![Tile { x: 21, y: 10 }]).is_none());
}
