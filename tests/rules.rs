use rpgbot::battle::{Battle, BattleError};
use rpgbot::display::{filled_segments, health_bar, Segment};
use rpgbot::invite::{check_challenge, respond_to_invite, InviteOutcome, Refusal};
use rpgbot::item::{catalog, draw_inventory, Inventory, Item, ItemKind};
use rpgbot::log::{Entry, Log};
use rpgbot::player::{Player, PlayerError};
use rpgbot::registry::Data;
use rpgbot::weapon::{Hammer, RangeBound, Spear, Sword, Weapon, WeaponError};

fn someone(armor: usize) -> Player {
    let mut p = Player::with_loadout(Some(5), 5, "P".to_string(), None, true, Weapon::default(), Inventory::new());
    p.armor = armor;
    p
}

#[test]
fn damage_goes_through_armor_less_pierce() {
    let mut p = someone(10);
    assert_eq!(p.damage(20, 3), 13);
    assert_eq!(p.health, 87);
    assert_eq!(p.damage(5, 0), 0);
    assert_eq!(p.health, 87);
    assert_eq!(p.damage(20, 50), 20);
    assert_eq!(p.health, 67);
}

#[test]
fn huge_damage_stops_at_zero() {
    let mut p = someone(0);
    assert_eq!(p.damage(usize::MAX, usize::MAX), 100);
    assert_eq!(p.health, 0);
    assert_eq!(p.damage(10, 0), 0);
    assert_eq!(p.health, 0);
}

#[test]
fn heal_stops_at_max() {
    let mut p = someone(0);
    p.set_health(40);
    assert_eq!(p.heal(25), 25);
    assert_eq!(p.health, 65);
    assert_eq!(p.heal(usize::MAX), 35);
    assert_eq!(p.health, 100);
    assert_eq!(p.heal(1), 0);
}

#[test]
fn armor_gain_saturates() {
    let mut p = someone(7);
    p.add_armor(3);
    assert_eq!(p.armor, 10);
    p.add_armor(usize::MAX);
    assert_eq!(p.armor, usize::MAX);
}

#[test]
fn set_health_is_clamped() {
    let mut p = someone(0);
    p.set_health(1000);
    assert_eq!(p.health, 100);
    p.set_health(0);
    assert_eq!(p.health, 0);
}

#[test]
fn weapon_catalog_values() {
    let d = Weapon::default();
    assert_eq!((d.damage_low, d.damage_high, d.crit_numerator, d.crit_denominator, d.crit_multiplier, d.pierce), (10, 20, 2, 100, 2, 0));
    let s = Sword::new().weapon();
    assert_eq!((s.name.as_str(), s.crit_numerator, s.damage_low, s.damage_high), ("Sword", 5, 10, 20));
    let h = Hammer::new().weapon();
    assert_eq!((h.name.as_str(), h.damage_low, h.damage_high, h.crit_numerator), ("Hammer", 15, 30, 2));
    let sp = Spear::new();
    assert_eq!(sp.pierce(), 5);
    let w = sp.weapon();
    assert_eq!((w.name.as_str(), w.pierce, w.damage_low, w.damage_high), ("Spear", 5, 10, 20));
}

#[test]
fn weapon_record_defaults_and_bounds() {
    let w = Weapon::from_record("A".to_string(), "a".to_string(), None, None, None, None).unwrap();
    assert_eq!((w.damage_low, w.damage_high, w.crit_numerator, w.crit_denominator, w.crit_multiplier, w.pierce), (10, 20, 2, 100, 2, 0));
    let w = Weapon::from_record(
        "B".to_string(),
        "b".to_string(),
        Some((RangeBound::Excluded(4), RangeBound::Excluded(9))),
        Some((1, 4)),
        Some(-3),
        Some(6),
    )
    .unwrap();
    assert_eq!((w.damage_low, w.damage_high, w.crit_numerator, w.crit_denominator, w.crit_multiplier, w.pierce), (5, 8, 1, 4, 0, 6));
    let w = Weapon::from_record("C".to_string(), "c".to_string(), Some((RangeBound::Included(-5), RangeBound::Included(3))), None, Some(3), Some(-1)).unwrap();
    assert_eq!((w.damage_low, w.damage_high, w.crit_multiplier, w.pierce), (0, 3, 3, 0));
}

#[test]
fn weapon_record_errors() {
    let open = Weapon::from_record("A".to_string(), "a".to_string(), Some((RangeBound::Unbounded, RangeBound::Included(3))), None, None, None);
    assert_eq!(open.err(), Some(WeaponError::OpenRange));
    let empty = Weapon::from_record("A".to_string(), "a".to_string(), Some((RangeBound::Included(9), RangeBound::Excluded(9))), None, None, None);
    assert_eq!(empty.err(), Some(WeaponError::EmptyRange));
    let crit = Weapon::from_record("A".to_string(), "a".to_string(), None, Some((3, 2)), None, None);
    assert_eq!(crit.err(), Some(WeaponError::BadCritChance));
    let zero = Weapon::from_record("A".to_string(), "a".to_string(), None, Some((0, 0)), None, None);
    assert_eq!(zero.err(), Some(WeaponError::BadCritChance));
}

#[test]
fn log_recent_is_most_recent_first() {
    let mut log = Log::new();
    assert_eq!(log.get_last_entries(3), None);
    for name in ["a", "b", "c", "d"] {
        log.add(Entry::Timeout(name.to_string()));
    }
    let recent = log.get_last_entries(3).unwrap();
    assert_eq!(recent, vec![&Entry::Timeout("d".to_string()), &Entry::Timeout("c".to_string()), &Entry::Timeout("b".to_string())]);
    assert_eq!(log.get_last_entries(10).unwrap().len(), 4);
    assert_eq!(log.full().len(), 4);
}

#[test]
fn log_full_keeps_thirty() {
    let mut log = Log::new();
    for i in 0..45 {
        log.add(Entry::Surrender(format!("p{i}")));
    }
    let full = log.full();
    assert_eq!(full.len(), 30);
    assert_eq!(full[0], &Entry::Surrender("p44".to_string()));
    assert_eq!(full[29], &Entry::Surrender("p15".to_string()));
    assert_eq!(log.len(), 45);
}

#[test]
fn inventory_keeps_ids_unique() {
    let mut inv = Inventory::new();
    inv.insert(Item { id: 1, kind: ItemKind::Apple });
    inv.insert(Item { id: 2, kind: ItemKind::Coin });
    inv.insert(Item { id: 1, kind: ItemKind::Shield });
    assert_eq!(inv.items, vec![Item { id: 1, kind: ItemKind::Shield }, Item { id: 2, kind: ItemKind::Coin }]);
    assert_eq!(inv.remove(3), None);
    assert_eq!(inv.len(), 2);
    assert_eq!(inv.remove(1), Some(Item { id: 1, kind: ItemKind::Shield }));
    assert_eq!(inv.items, vec![Item { id: 2, kind: ItemKind::Coin }]);
    assert_eq!(inv.position(2), Some(0));
    assert_eq!(inv.position(1), None);
}

#[test]
fn item_kinds_show_names_and_icons() {
    assert_eq!(ItemKind::Apple.name(), "Apple");
    assert_eq!(ItemKind::FaultyWaterGun.name(), "Faulty Water Gun");
    assert_eq!(ItemKind::Shield.description(), "Gain 5-10 armor.");
    assert_eq!(ItemKind::Coin.icon(), "\u{1FA99}");
}

#[test]
fn catalog_holds_each_kind_twice() {
    let c = catalog();
    assert_eq!(c.len(), 8);
    for kind in [ItemKind::Apple, ItemKind::Coin, ItemKind::FaultyWaterGun, ItemKind::Shield] {
        assert_eq!(c.iter().filter(|k| **k == kind).count(), 2);
    }
}

#[test]
fn drawn_inventory_has_up_to_three_distinct_ids() {
    for _ in 0..20 {
        let inv = draw_inventory();
        assert!(1 <= inv.len() && inv.len() <= 3);
        let mut ids: Vec<u128> = inv.items.iter().map(|i| i.id).collect();
        ids.sort();
        ids.dedup();
        assert_eq!(ids.len(), inv.len());
    }
}

#[test]
fn item_rolls_stay_in_range() {
    for _ in 0..50 {
        let a = ItemKind::Apple.roll();
        assert!(5 <= a.amount && a.amount <= 20);
        let c = ItemKind::Coin.roll();
        assert!(20 <= c.amount && c.amount <= 35);
        let g = ItemKind::FaultyWaterGun.roll();
        assert!(30 <= g.amount && g.amount <= 40 && 50 <= g.backfire_amount && g.backfire_amount <= 60);
        let s = ItemKind::Shield.roll();
        assert!(5 <= s.amount && s.amount <= 10);
    }
}

#[test]
fn attack_rolls_stay_in_weapon_range() {
    let mut w = Weapon::default();
    w.damage_low = 3;
    w.damage_high = 6;
    w.crit_numerator = 0;
    let p1 = Player::with_loadout(Some(1), 1, "A".to_string(), None, true, w.clone(), Inventory::new());
    let p2 = Player::with_loadout(Some(2), 2, "B".to_string(), None, false, w, Inventory::new());
    let mut b = Battle::with_state(3, p1, p2, true, false);
    for _ in 0..10 {
        let before = b.p2.health;
        b.p1_turn = true;
        b.attack();
        let dealt = before - b.p2.health;
        assert!(3 <= dealt && dealt <= 6);
    }
}

#[test]
fn player_needs_a_weapon() {
    let none = Player::new(Some(1), "A".to_string(), None, true, vec![]);
    assert_eq!(none.err(), Some(PlayerError::NoWeapons));
    let p = Player::new(Some(1), "A".to_string(), None, true, vec![Hammer::new().weapon()]).ok().unwrap();
    assert_eq!((p.health, p.max_health, p.armor), (100, 100, 0));
    assert_eq!(p.weapon.name, "Hammer");
    assert!(1 <= p.items.len() && p.items.len() <= 3);
}

#[test]
fn registry_tracks_sessions() {
    let mut d = Data::new();
    assert!(!d.check_for_user_in_battle(1));
    d.register(10, vec![Some(1), Some(2)]);
    d.register(11, vec![Some(3), None]);
    assert!(d.check_for_user_in_battle(1));
    assert!(d.check_for_user_in_battle(2));
    assert!(d.check_for_user_in_battle(3));
    d.deregister(10);
    assert!(!d.check_for_user_in_battle(1));
    assert!(!d.check_for_user_in_battle(2));
    assert!(d.check_for_user_in_battle(3));
    d.deregister(10);
    d.deregister(11);
    assert!(d.battles.is_empty());
}

#[test]
fn challenge_refusals() {
    let mut d = Data::new();
    d.register(1, vec![Some(7), Some(8)]);
    assert_eq!(check_challenge(&d, 1, 2, true), Err(Refusal::Bot));
    assert_eq!(check_challenge(&d, 1, 1, false), Err(Refusal::SelfChallenge));
    assert_eq!(check_challenge(&d, 7, 2, false), Err(Refusal::ChallengerBusy));
    assert_eq!(check_challenge(&d, 2, 8, false), Err(Refusal::OpponentBusy));
    assert_eq!(check_challenge(&d, 2, 3, false), Ok(()));
}

#[test]
fn invite_answers() {
    let mut d = Data::new();
    assert_eq!(respond_to_invite(&d, None, 1, 2), Ok(InviteOutcome::TimedOut));
    assert_eq!(respond_to_invite(&d, Some("run"), 1, 2), Ok(InviteOutcome::Declined));
    assert_eq!(respond_to_invite(&d, Some("fight"), 1, 2), Ok(InviteOutcome::Accepted));
    assert_eq!(respond_to_invite(&d, Some("dodge"), 1, 2), Err(BattleError::UnknownAction));
    d.register(9, vec![Some(2), Some(4)]);
    assert_eq!(respond_to_invite(&d, Some("fight"), 1, 2), Ok(InviteOutcome::AlreadyInBattle));
}

#[test]
fn health_bar_shapes() {
    assert_eq!(filled_segments(0, 100), 0);
    assert_eq!(filled_segments(100, 100), 6);
    assert_eq!(filled_segments(1, 100), 1);
    assert_eq!(filled_segments(50, 100), 3);
    assert_eq!(filled_segments(99, 100), 5);
    let bar = health_bar(50, 100);
    assert_eq!(
        bar,
        vec![Segment::FullStart, Segment::FullMiddle, Segment::FullMiddle, Segment::EmptyMiddle, Segment::EmptyMiddle, Segment::EmptyEnd]
    );
    assert_eq!(bar[0].name(), "bar_full_start");
    assert_eq!(Segment::EmptyEnd.name(), "bar_empty_end");
    assert_eq!(health_bar(0, 100)[0], Segment::EmptyStart);
    assert_eq!(health_bar(100, 100)[5], Segment::FullEnd);
}
