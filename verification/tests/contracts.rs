use survivalist_mod::bounty::{self, Bounty, BountyNote, BountyReport};
use survivalist_mod::courier::{Courier, LaunchReport, Leg, PayingOutcome, PayingReport};
use survivalist_mod::geo::Tile;
use survivalist_mod::handles::{QuestClose, Release};
use survivalist_mod::threat::{self, ClearThreat, Raider, ThreatMember, ThreatNote, ThreatReport};

fn offered_bounty() -> Bounty {
    Bounty::Offered {
        hirer_h: 10,
        hirer_name: "Oakridge".to_string(),
        mark_h: 11,
        mark_id: 500,
        mark_name: "Vance".to_string(),
        enemy_name: "Red Hand".to_string(),
        pays: 3,
        quest_h: Some(12),
        expires_bits: 1000,
    }
}

fn courier(leg: Leg) -> Courier {
    Courier {
        hirer_h: 10,
        hirer_name: "Oakridge".to_string(),
        courier_h: 20,
        courier_name: "Mae".to_string(),
        player_h: 21,
        squad_id: 77,
        home: Tile { x: 5, y: 6 },
        leg,
        loaded: 3,
        deadline_bits: 4000,
    }
}

fn walking() -> PayingReport {
    PayingReport { courier_alive: true, timed_out: false, tile_known: true, arrived: false }
}

fn offer(expired: bool, hirer_standing: bool, at_war: bool, mark_alive: bool) -> BountyReport {
    BountyReport::Offer(bounty::OfferReport { expired, hirer_standing, at_war, mark_alive })
}

#[test]
fn a_standing_bounty_keeps_everything() {
    let s = bounty::advance(offered_bounty(), offer(false, true, true, true));
    assert_eq!(s.note, BountyNote::Standing);
    assert!(matches!(s.next, Some(Bounty::Offered { mark_id: 500, .. })));
    assert_eq!(s.release, Release { hirer: None, mark: None, courier: None, player: None });
    assert_eq!(s.quest, QuestClose::Keep);
    assert_eq!(s.disband_squad, None);
}

#[test]
fn a_lapsed_bounty_fails_its_entry_and_lets_go() {
    let s = bounty::advance(offered_bounty(), offer(true, true, true, true));
    assert_eq!(s.note, BountyNote::Lapsed);
    assert!(s.next.is_none());
    assert_eq!(s.release, Release { hirer: Some(10), mark: Some(11), courier: None, player: None });
    assert_eq!(s.quest, QuestClose::Fail(12));
}

#[test]
fn the_window_is_judged_before_the_war_and_the_mark() {
    assert_eq!(bounty::advance(offered_bounty(), offer(true, false, false, false)).note, BountyNote::Lapsed);
    assert_eq!(bounty::advance(offered_bounty(), offer(false, false, true, false)).note, BountyNote::WarOver);
    assert_eq!(bounty::advance(offered_bounty(), offer(false, true, false, true)).note, BountyNote::WarOver);
    assert_eq!(bounty::advance(offered_bounty(), offer(false, true, true, false)).note, BountyNote::MarkFellElsewhere);
}

#[test]
fn the_players_kill_makes_a_debt() {
    let s = bounty::on_death(Some(offered_bounty()), 500, true);
    assert_eq!(s.note, BountyNote::Claimed);
    assert!(matches!(s.next, Some(Bounty::Owed { hirer_h: 10, waiting_logged: false, .. })));
    assert_eq!(s.release, Release { hirer: None, mark: Some(11), courier: None, player: None });
    assert_eq!(s.quest, QuestClose::Complete(12));
}

#[test]
fn another_hand_voids_the_bounty() {
    let s = bounty::on_death(Some(offered_bounty()), 500, false);
    assert_eq!(s.note, BountyNote::MarkFellElsewhere);
    assert!(s.next.is_none());
    assert_eq!(s.quest, QuestClose::Fail(12));
    let other = bounty::on_death(Some(offered_bounty()), 501, true);
    assert_eq!(other.note, BountyNote::NotTheMark);
    assert!(matches!(other.next, Some(Bounty::Offered { .. })));
    assert_eq!(other.quest, QuestClose::Keep);
    assert_eq!(bounty::on_death(None, 500, true).note, BountyNote::NotTheMark);
}

fn owed() -> Bounty {
    Bounty::Owed { hirer_h: 10, hirer_name: "Oakridge".to_string(), mark_name: "Vance".to_string(), waiting_logged: false }
}

#[test]
fn an_owed_bounty_waits_then_sends_its_courier() {
    let s = bounty::advance(owed(), BountyReport::Launch(LaunchReport::NoFreeMember { player_h: 21 }));
    assert_eq!(s.note, BountyNote::Waiting { first: true });
    assert_eq!(s.release.player, Some(21));
    let s2 = bounty::advance(s.next.unwrap(), BountyReport::Launch(LaunchReport::NoFreeMember { player_h: 22 }));
    assert_eq!(s2.note, BountyNote::Waiting { first: false });
    let s3 = bounty::advance(s2.next.unwrap(), BountyReport::Launch(LaunchReport::Launched { courier: courier(Leg::Going) }));
    assert_eq!(s3.note, BountyNote::CourierSent);
    assert!(matches!(s3.next, Some(Bounty::Paying(ref c)) if c.courier_h == 20));
}

#[test]
fn every_failed_launch_voids_the_debt() {
    let cases = [
        (LaunchReport::NoPlayerCamp, BountyNote::NoPlayerCamp),
        (LaunchReport::HirerFell { player_h: 21 }, BountyNote::HirerDiedOwing),
        (LaunchReport::BareStores { player_h: 21, courier_h: 20 }, BountyNote::CannotPay),
        (LaunchReport::SquadFailed { player_h: 21, courier_h: 20 }, BountyNote::LaunchFailed),
    ];
    for (report, note) in cases {
        let s = bounty::advance(owed(), BountyReport::Launch(report));
        assert_eq!(s.note, note);
        assert!(s.next.is_none());
        assert_eq!(s.release.hirer, Some(10));
    }
}

#[test]
fn the_courier_delivers_once_and_comes_home() {
    let going = Bounty::Paying(courier(Leg::Going));
    let at_gate = PayingReport { arrived: true, ..walking() };
    let s = bounty::advance(going.clone(), BountyReport::Pay(at_gate));
    assert_eq!(s.note, BountyNote::Courier(PayingOutcome::Deliver));
    let back = bounty::delivered(s.next.unwrap(), 2);
    match &back {
        Bounty::Paying(c) => {
            assert_eq!(c.leg, Leg::Returning);
            assert_eq!(c.loaded, 2);
            assert_eq!(c.squad_id, 77);
        }
        _ => panic!("the courier turned into something else"),
    }
    let home = bounty::advance(back, BountyReport::Pay(at_gate));
    assert_eq!(home.note, BountyNote::Courier(PayingOutcome::PaidHome));
    assert!(home.next.is_none());
    assert_eq!(home.disband_squad, Some(77));
    assert_eq!(home.release, Release { hirer: Some(10), mark: None, courier: Some(20), player: Some(21) });
    let lost = bounty::advance(going, BountyReport::Pay(PayingReport { courier_alive: false, ..walking() }));
    assert_eq!(lost.note, BountyNote::Courier(PayingOutcome::CourierLost));
    assert_eq!(lost.disband_squad, Some(77));
}

#[test]
fn the_losing_side_hires_the_bounty() {
    let c = |members: i64| bounty::HirerCandidate { members, at_war_with_ai: true, friendly: true, has_goods: true };
    assert_eq!(bounty::pick_hirer(&vec![c(9), c(4), c(4), c(6)]), Some(1));
    assert_eq!(bounty::pick_hirer(&vec![c(1), bounty::HirerCandidate { friendly: false, ..c(3) }]), None);
}

fn offered_threat(kills: i64) -> ClearThreat {
    ClearThreat::Offered {
        camp_h: 30,
        camp_name: "Millbrook".to_string(),
        threat_id: 8,
        members: vec![Raider { handle: 31, id: 600 }, Raider { handle: 32, id: 601 }],
        player_kills: kills,
        pays: 2,
        quest_h: Some(33),
        expires_bits: 1000,
    }
}

fn threat_offer(expired: bool, camp_standing: bool, threat_gone: bool) -> ThreatReport {
    ThreatReport::Offer(threat::OfferReport { expired, camp_standing, threat_gone })
}

#[test]
fn the_players_kills_are_counted() {
    let t = threat::on_death(Some(offered_threat(0)), 600, true);
    assert!(matches!(t, Some(ClearThreat::Offered { player_kills: 1, .. })));
    let t = threat::on_death(t, 601, false);
    assert!(matches!(t, Some(ClearThreat::Offered { player_kills: 1, .. })));
    let t = threat::on_death(t, 999, true);
    assert!(matches!(t, Some(ClearThreat::Offered { player_kills: 1, .. })));
}

#[test]
fn a_cleared_threat_pays_only_with_the_players_hand() {
    let earned = threat::advance(offered_threat(1), threat_offer(false, true, true));
    assert_eq!(earned.note, ThreatNote::Earned);
    assert!(matches!(earned.next, Some(ClearThreat::Owed { camp_h: 30, waiting_logged: false, .. })));
    assert_eq!(earned.quest, QuestClose::Complete(33));
    assert_eq!(earned.release_raiders.len(), 2);
    let unpaid = threat::advance(offered_threat(0), threat_offer(false, true, true));
    assert_eq!(unpaid.note, ThreatNote::EndedWithoutPlayer);
    assert!(unpaid.next.is_none());
    assert_eq!(unpaid.quest, QuestClose::Fail(33));
    assert_eq!(unpaid.release.hirer, Some(30));
}

#[test]
fn a_threat_offer_ends_by_the_window_or_the_camp() {
    assert_eq!(threat::advance(offered_threat(3), threat_offer(true, false, true)).note, ThreatNote::Lapsed);
    assert_eq!(threat::advance(offered_threat(3), threat_offer(false, false, true)).note, ThreatNote::CampFell);
    let standing = threat::advance(offered_threat(0), threat_offer(false, true, false));
    assert_eq!(standing.note, ThreatNote::Standing);
    assert!(standing.release_raiders.is_empty());
    assert_eq!(standing.quest, QuestClose::Keep);
}

#[test]
fn a_threat_debt_is_void_without_a_courier() {
    let owed = ClearThreat::Owed { camp_h: 30, camp_name: "Millbrook".to_string(), waiting_logged: true };
    let s = threat::advance(owed.clone(), ThreatReport::Launch(LaunchReport::BareStores { player_h: 21, courier_h: 20 }));
    assert_eq!(s.note, ThreatNote::DebtVoid);
    assert!(s.next.is_none());
    assert_eq!(s.release, Release { hirer: Some(30), mark: None, courier: Some(20), player: Some(21) });
    let w = threat::advance(owed, ThreatReport::Launch(LaunchReport::NoFreeMember { player_h: 21 }));
    assert_eq!(w.note, ThreatNote::Waiting { first: false });
}

#[test]
fn threat_couriers_turn_for_home() {
    let c = Courier { hirer_h: 30, ..courier(Leg::Going) };
    let back = threat::delivered(ClearThreat::Paying(c), 1);
    assert!(matches!(back, ClearThreat::Paying(ref c) if c.leg == Leg::Returning && c.loaded == 1 && c.hirer_h == 30));
    let s = threat::advance(back, ThreatReport::Pay(PayingReport { timed_out: true, ..walking() }));
    assert_eq!(s.note, ThreatNote::Courier(PayingOutcome::Recalled));
    assert_eq!(s.disband_squad, Some(77));
}

#[test]
fn only_threats_without_the_player_are_posted() {
    let m = |handle: i32, alive: bool, is_player: bool| ThreatMember { handle, id: handle as i64, alive, is_player };
    let players_raid = vec![m(1, true, false), m(2, true, true)];
    let dead_player = vec![m(3, false, true), m(4, true, false)];
    let nobody = vec![m(5, false, false)];
    assert_eq!(threat::pick_threat(&vec![players_raid.clone(), nobody.clone(), dead_player.clone()]), Some(2));
    assert_eq!(threat::pick_threat(&vec![players_raid, nobody]), None);
    let raiders = threat::living_raiders(&dead_player);
    assert_eq!(raiders, vec![Raider { handle: 4, id: 4 }]);
}

#[test]
fn the_smallest_threatened_camp_hires() {
    let c = |members: i64, threats: i64| threat::HirerCandidate { members, threats, friendly: true, has_goods: true };
    assert_eq!(threat::pick_hirer(&vec![c(8, 1), c(3, 0), c(5, 2), c(5, 1)]), Some(2));
    assert_eq!(threat::pick_hirer(&vec![c(1, 3)]), None);
}
