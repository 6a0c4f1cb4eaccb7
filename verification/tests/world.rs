use survivalist_mod::board::{BOARD_PREFIX, is_orphan, is_owned, new_board, own_entry, release_entry};
use survivalist_mod::camp::{CommunityKind, MemberSnapshot};
use survivalist_mod::development::{
    AnnexCamp, BuildOrder, Rect, Side, Structure, build_orders, fence_line, plan_annex, probe_tiles,
    side_name, structure_name, valid_base, walls, wants_annex,
};
use survivalist_mod::geo::{Tile, within};
use survivalist_mod::growth::{DoorCamp, door_for, open_door, walk_in};
use survivalist_mod::predation::{
    WarFront, absorbed_members, carrier_for, is_beaten, loot_done, pick_conquest,
};
use survivalist_mod::stores::{count_capped, orphan_squads};
use survivalist_mod::unique::{
    COLONELS_RIFLE, carrier, has_entered, mark_entered, new_unique_book, rifle_enters,
};
use survivalist_mod::war::{
    DeathFacts, bytes_eq, ceasefire_pair, eq_ignore_ascii_case, revenge_target, war_pair,
};

fn t(x: i64, y: i64) -> Tile {
    Tile { x, y }
}

fn member(handle: i32, id: i64, alive: bool, human: bool) -> MemberSnapshot {
    MemberSnapshot { handle, id, alive, human, conscious: true, squadded: false }
}

// ---- war ---------------------------------------------------------------------

fn facts() -> DeathFacts {
    DeathFacts {
        killer_camp: Some(20),
        victim_camp: Some(10),
        victim_camp_id: Some(1),
        killer_camp_id: Some(2),
        victim_is_ai_settlement: true,
        killer_is_ai_settlement: true,
        hostile: true,
        victim_invading: false,
    }
}

#[test]
fn a_killing_between_hostile_ai_camps_starts_a_revenge() {
    assert_eq!(revenge_target(&facts()), Some(20));
}

#[test]
fn no_revenge_without_every_condition() {
    let f = facts();
    assert_eq!(revenge_target(&DeathFacts { killer_camp: None, ..f }), None);
    assert_eq!(revenge_target(&DeathFacts { victim_camp: None, ..f }), None);
    assert_eq!(revenge_target(&DeathFacts { killer_camp_id: Some(1), ..f }), None);
    assert_eq!(revenge_target(&DeathFacts { victim_is_ai_settlement: false, ..f }), None);
    assert_eq!(revenge_target(&DeathFacts { killer_is_ai_settlement: false, ..f }), None);
    assert_eq!(revenge_target(&DeathFacts { hostile: false, ..f }), None);
    assert_eq!(revenge_target(&DeathFacts { victim_invading: true, ..f }), None);
    // Two unreadable camp ids never count as the same camp.
    assert_eq!(revenge_target(&DeathFacts { victim_camp_id: None, killer_camp_id: None, ..f }), Some(20));
}

fn b(s: &str) -> Vec<u8> {
    s.as_bytes().to_vec()
}

#[test]
fn war_names_match_without_case() {
    assert!(eq_ignore_ascii_case(&b("Red Mill"), &b("red MILL")));
    assert!(!eq_ignore_ascii_case(&b("Red Mill"), &b("Red Mil")));
    assert!(bytes_eq(&b("Ash"), &b("Ash")));
    assert!(!bytes_eq(&b("Ash"), &b("ash")));
    let names = vec![b("Ash Ford"), b("red mill"), b("Red Mill"), b("Oak")];
    assert_eq!(war_pair(&names, &b("RED MILL"), &b("oak")), (Some(1), Some(3)));
    assert_eq!(war_pair(&names, &b("Nowhere"), &b("ash ford")), (None, Some(0)));
}

#[test]
fn a_ceasefire_takes_the_last_exact_names() {
    let names = vec![b("Oak"), b("Ash"), b("Oak"), b("Ash")];
    assert_eq!(ceasefire_pair(&names, &b("Oak"), &b("Ash")), (Some(2), Some(3)));
    assert_eq!(ceasefire_pair(&names, &b("Oak"), &b("Oak")), (Some(2), None));
    assert_eq!(ceasefire_pair(&names, &b("oak"), &b("Ash")), (None, Some(3)));
}

// ---- predation ---------------------------------------------------------------

#[test]
fn a_camp_is_beaten_at_two_or_when_nobody_is_conscious() {
    assert!(!is_beaten(0, false));
    assert!(is_beaten(1, true));
    assert!(is_beaten(2, true));
    assert!(!is_beaten(3, true));
    assert!(is_beaten(7, false));
}

fn front(kind: CommunityKind, living: i64, target: Option<i32>, target_living: i64, conscious: bool) -> WarFront {
    WarFront {
        camp: 1,
        kind,
        ai_settlement: true,
        living,
        target,
        target_living,
        target_anyone_conscious: conscious,
    }
}

#[test]
fn the_first_ripe_war_is_consumed() {
    let fronts = vec![
        front(CommunityKind::Normal, 5, None, 1, true),
        front(CommunityKind::RovingTrader, 5, Some(3), 1, true),
        front(CommunityKind::Looter, 0, Some(3), 1, true),
        front(CommunityKind::Normal, 5, Some(4), 6, true),
        front(CommunityKind::Looter, 4, Some(5), 6, false),
        front(CommunityKind::Normal, 4, Some(6), 2, true),
    ];
    assert_eq!(pick_conquest(&fronts), Some(4));
    assert_eq!(pick_conquest(&fronts[..4].to_vec()), None);
}

#[test]
fn living_humans_are_absorbed_and_take_turns_carrying() {
    let ms = vec![member(1, 1, true, true), member(2, 2, false, true), member(3, 3, true, false), member(4, 4, true, true)];
    let got: Vec<i32> = absorbed_members(&ms).iter().map(|m| m.handle).collect();
    assert_eq!(got, vec![1, 4]);
    assert_eq!(carrier_for(0, 3), 0);
    assert_eq!(carrier_for(4, 3), 1);
    assert_eq!(carrier_for(5, 1), 0);
    assert!(!loot_done(499));
    assert!(loot_done(500));
}

// ---- development -------------------------------------------------------------

fn base() -> Rect {
    Rect { minx: 10, miny: 10, maxx: 12, maxy: 11 }
}

#[test]
fn base_rectangles_must_be_real() {
    assert!(valid_base(base()));
    assert!(!valid_base(Rect { minx: -1, ..base() }));
    assert!(!valid_base(Rect { maxx: 10, ..base() }));
    assert!(!valid_base(Rect { maxy: 10, ..base() }));
}

#[test]
fn the_east_fence_line_skips_the_shared_west_side() {
    let strip = Rect { minx: 13, miny: 10, maxx: 18, maxy: 11 };
    let f = fence_line(strip, Side::East);
    let mut expect = Vec::new();
    for x in 13..=18 {
        expect.push(t(x, 10));
        expect.push(t(x, 11));
    }
    assert_eq!(f, expect);
}

#[test]
fn the_south_fence_line_skips_the_shared_north_side() {
    let strip = Rect { minx: 10, miny: 12, maxx: 12, maxy: 17 };
    let f = fence_line(strip, Side::South);
    let mut expect = Vec::new();
    for x in 10..=12 {
        expect.push(t(x, 17));
    }
    for y in 13..17 {
        expect.push(t(10, y));
        expect.push(t(12, y));
    }
    assert_eq!(f, expect);
}

#[test]
fn an_annex_goes_east_on_open_ground() {
    let b = base();
    let passable = probe_tiles(b);
    let p = plan_annex(b, &passable).expect("open ground takes an annex");
    assert_eq!(p.side, Side::East);
    assert_eq!(side_name(p.side), "east");
    // Strip x 13..=18, y 10..=11: gate at the east edge, shack in the middle.
    assert_eq!(p.gate, t(18, 10));
    assert_eq!(p.hut, t(15, 10));
    assert_eq!(p.new_rect, Rect { minx: 10, miny: 10, maxx: 18, maxy: 11 });
    assert_eq!(p.fence_tiles.len(), 11);
    assert!(!p.fence_tiles.contains(&p.gate));
}

#[test]
fn a_blocked_east_sends_the_annex_south() {
    let b = base();
    // Nothing east of the base is passable.
    let passable: Vec<Tile> = probe_tiles(b).into_iter().filter(|t| t.x <= 12).collect();
    let p = plan_annex(b, &passable).expect("the south is open");
    assert_eq!(p.side, Side::South);
    assert_eq!(p.gate, t(11, 17));
    assert_eq!(p.hut, t(11, 14));
    assert_eq!(p.new_rect, Rect { minx: 10, miny: 10, maxx: 12, maxy: 17 });
}

#[test]
fn no_annex_on_blocked_ground_nor_off_the_map() {
    let b = base();
    assert!(plan_annex(b, &vec![]).is_none());
    // A base on the map's first row and column has no strip on the map.
    let corner = Rect { minx: 0, miny: 0, maxx: 2, maxy: 2 };
    assert!(probe_tiles(corner).is_empty());
    assert!(plan_annex(corner, &vec![t(3, 0), t(3, 1)]).is_none());
    // One tile in, the east strip fits.
    let inner = Rect { minx: 1, miny: 1, maxx: 3, maxy: 3 };
    let p = plan_annex(inner, &probe_tiles(inner)).unwrap();
    assert_eq!(p.side, Side::East);
}

#[test]
fn annex_wants_and_orders() {
    let c = AnnexCamp {
        kind: CommunityKind::Looter,
        ai_settlement: true,
        living: 6,
        beds: 6,
        well_fed: true,
        queued_builds: 0,
        builds_under_way: 0,
    };
    assert!(wants_annex(&c));
    assert!(!wants_annex(&AnnexCamp { beds: 7, ..c }));
    assert!(!wants_annex(&AnnexCamp { well_fed: false, ..c }));
    assert!(!wants_annex(&AnnexCamp { queued_builds: 1, ..c }));
    assert!(!wants_annex(&AnnexCamp { kind: CommunityKind::Player, ..c }));
    assert_eq!(walls(CommunityKind::Looter), (Structure::WireFence, Structure::WireGate));
    assert_eq!(walls(CommunityKind::Normal), (Structure::WoodFence, Structure::WoodGate));
    assert_eq!(structure_name(Structure::Shack), "Shack");
    let b = base();
    let p = plan_annex(b, &probe_tiles(b)).unwrap();
    let orders = build_orders(&p, CommunityKind::Looter);
    assert_eq!(orders.len(), p.fence_tiles.len() + 2);
    assert_eq!(orders[0], BuildOrder { structure: Structure::WireFence, tile: p.fence_tiles[0] });
    assert_eq!(orders[orders.len() - 2], BuildOrder { structure: Structure::WireGate, tile: p.gate });
    assert_eq!(orders[orders.len() - 1], BuildOrder { structure: Structure::Shack, tile: p.hut });
}

// ---- the work board ----------------------------------------------------------

#[test]
fn the_board_book_owns_and_releases_entries() {
    let mut book = new_board();
    own_entry(&mut book, 5);
    own_entry(&mut book, 9);
    own_entry(&mut book, 5);
    assert!(is_owned(&book, 9));
    release_entry(&mut book, 5);
    assert_eq!(book.owned, vec![9]);
    assert!(!is_owned(&book, 5));
}

#[test]
fn orphans_are_unowned_board_entries() {
    assert_eq!(BOARD_PREFIX, "WorkBoard_");
    let owned = vec!["WorkBoard_Bounty_3".to_string()];
    assert!(is_orphan("WorkBoard_Bounty_7", &owned));
    assert!(!is_orphan("WorkBoard_Bounty_3", &owned));
    assert!(!is_orphan("MainStory_1", &owned));
    assert!(!is_orphan("Work", &owned));
}

// ---- growth ------------------------------------------------------------------

#[test]
fn doors_open_for_fed_normal_camps_with_beds() {
    let c = DoorCamp {
        kind: CommunityKind::Normal,
        ai_settlement: true,
        living: 4,
        beds: 7,
        well_fed: true,
        has_anchor: true,
    };
    assert_eq!(open_door(&c), Some(3));
    assert_eq!(open_door(&DoorCamp { kind: CommunityKind::Looter, ..c }), None);
    assert_eq!(open_door(&DoorCamp { beds: 4, ..c }), None);
    assert_eq!(open_door(&DoorCamp { well_fed: false, ..c }), None);
    assert_eq!(open_door(&DoorCamp { living: 0, ..c }), None);
}

#[test]
fn refugees_walk_in_up_to_the_beds() {
    assert_eq!(door_for(&vec![0, 2, 3], &vec![true, false, true]), Some(2));
    assert_eq!(door_for(&vec![0, 2], &vec![true, false]), None);
    let group = vec![member(1, 1, true, true), member(2, 2, false, true), member(3, 3, true, true), member(4, 4, true, true)];
    let mut room = vec![5, 2];
    let joined: Vec<i32> = walk_in(&group, &mut room, 1).iter().map(|m| m.handle).collect();
    assert_eq!(joined, vec![1, 3]);
    assert_eq!(room, vec![5, 0]);
}

// ---- uniques -----------------------------------------------------------------

#[test]
fn the_rifle_enters_once() {
    let mut book = new_unique_book();
    let rifle = COLONELS_RIFLE.to_string();
    assert!(!has_entered(&book, &rifle));
    // 10.0 on the clock rolls under one in five; 1.0 does not.
    assert!(rifle_enters(&book, 10.0f32.to_bits()));
    assert!(!rifle_enters(&book, 1.0f32.to_bits()));
    mark_entered(&mut book, rifle.clone());
    mark_entered(&mut book, rifle.clone());
    assert_eq!(book.entered, vec![rifle.clone()]);
    assert!(has_entered(&book, &rifle));
    assert!(!rifle_enters(&book, 10.0f32.to_bits()));
}

#[test]
fn the_leader_carries_the_unique_when_alive() {
    let ms = vec![member(1, 1, false, true), member(2, 2, true, true)];
    assert_eq!(carrier(Some(9), true, &ms), Some(9));
    assert_eq!(carrier(Some(9), false, &ms), Some(2));
    assert_eq!(carrier(None, true, &ms), Some(2));
    assert_eq!(carrier(None, false, &vec![member(1, 1, false, true)]), None);
}

// ---- stores and distances ----------------------------------------------------

#[test]
fn stores_are_counted_up_to_the_cap() {
    let m = vec![vec![true, false], vec![], vec![true, true, true]];
    assert_eq!(count_capped(&m, 10), 4);
    assert_eq!(count_capped(&m, 2), 2);
    assert_eq!(count_capped(&m, 1), 1);
    assert_eq!(count_capped(&m, 0), 1);
    assert_eq!(count_capped(&vec![vec![false]], 3), 0);
    assert_eq!(orphan_squads(&vec![false, true, true, false, true]), vec![1, 2, 4]);
}

#[test]
fn within_compares_squared_distances_exactly() {
    assert!(within(t(0, 0), t(3, 4), 25));
    assert!(!within(t(0, 0), t(3, 4), 24));
    assert!(!within(t(i64::MIN, 0), t(i64::MAX, 0), i64::MAX));
    assert!(within(t(-7, -7), t(-7, -7), 0));
}
