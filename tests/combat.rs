use rpgbot::battle::{Battle, BattleError, Outcome, Step};
use rpgbot::item::{Effect, Inventory, Item, ItemKind, Rolls};
use rpgbot::log::Entry;
use rpgbot::player::Player;
use rpgbot::weapon::Weapon;

fn plain_weapon(low: usize, high: usize, crit_numerator: u32, pierce: usize) -> Weapon {
    Weapon {
        name: "Stick".to_string(),
        icon: "S".to_string(),
        damage_low: low,
        damage_high: high,
        crit_numerator,
        crit_denominator: 100,
        crit_multiplier: 2,
        pierce,
    }
}

fn fighter(name: &str, user: u64, is_p1: bool, weapon: Weapon, items: Vec<Item>) -> Player {
    let mut inv = Inventory::new();
    for it in items {
        inv.insert(it);
    }
    Player::with_loadout(Some(user), user as u128, name.to_string(), None, is_p1, weapon, inv)
}

fn duel(p1: Player, p2: Player, p1_turn: bool) -> Battle {
    Battle::with_state(7, p1, p2, p1_turn, false)
}

#[test]
fn attack_with_plain_weapon_lands_between_80_and_90() {
    let x = fighter("X", 1, true, plain_weapon(10, 20, 0, 0), vec![]);
    let y = fighter("Y", 2, false, plain_weapon(10, 20, 0, 0), vec![]);
    let mut b = duel(x, y, true);
    assert_eq!(b.act(Some("attack")), Ok(Step::Resolved));
    let health = b.p2.health;
    assert!(80 <= health && health <= 90);
    assert_eq!(b.p1.health, 100);
    assert_eq!(
        b.log.last(),
        Some(&Entry::Attack("S".to_string(), "X".to_string(), "Y".to_string(), 100 - health))
    );
    assert!(!b.p1_turn);
}

#[test]
fn armor_absorbs_whole_roll() {
    let x = fighter("X", 1, true, plain_weapon(10, 20, 0, 0), vec![]);
    let mut y = fighter("Y", 2, false, plain_weapon(10, 20, 0, 0), vec![]);
    y.armor = 15;
    let mut b = duel(x, y, true);
    b.attack_with(10, false);
    assert_eq!(b.p2.health, 100);
    assert_eq!(
        b.log.last(),
        Some(&Entry::Attack("S".to_string(), "X".to_string(), "Y".to_string(), 0))
    );
}

#[test]
fn surrender_ends_with_opponent_winning() {
    let x = fighter("X", 1, true, plain_weapon(10, 20, 0, 0), vec![]);
    let y = fighter("Y", 2, false, plain_weapon(10, 20, 0, 0), vec![]);
    let mut b = duel(x, y, true);
    assert_eq!(b.outcome(), None);
    assert_eq!(b.act(Some("surrender")), Ok(Step::Resolved));
    assert_eq!(b.p1.health, 0);
    assert_eq!(b.p2.health, 100);
    assert_eq!(b.outcome(), Some(Outcome::P2Won));
    assert_eq!(b.log.last(), Some(&Entry::Surrender("X".to_string())));
    assert_eq!(b.act(Some("attack")), Err(BattleError::Concluded));
}

#[test]
fn both_at_zero_is_a_tie() {
    let mut x = fighter("X", 1, true, plain_weapon(10, 20, 0, 0), vec![]);
    let mut y = fighter("Y", 2, false, plain_weapon(10, 20, 0, 0), vec![]);
    x.set_health(0);
    y.set_health(0);
    let mut b = duel(x, y, false);
    assert_eq!(b.outcome(), Some(Outcome::Tie));
    assert!(b.is_over());
    assert_eq!(b.act(Some("attack")), Err(BattleError::Concluded));
}

#[test]
fn lethal_hit_ends_with_attacker_winning() {
    let x = fighter("X", 1, true, plain_weapon(10, 20, 0, 0), vec![]);
    let y = fighter("Y", 2, false, plain_weapon(10, 20, 0, 0), vec![]);
    let mut b = duel(x, y, false);
    b.attack_with(500, false);
    assert_eq!(b.p1.health, 0);
    assert_eq!(b.outcome(), Some(Outcome::P2Won));
}

#[test]
fn back_from_item_menu_keeps_turn_and_items() {
    let apple = Item { id: 11, kind: ItemKind::Apple };
    let x = fighter("X", 1, true, plain_weapon(10, 20, 0, 0), vec![apple]);
    let y = fighter("Y", 2, false, plain_weapon(10, 20, 0, 0), vec![]);
    let mut b = duel(x, y, true);
    assert_eq!(b.act(Some("item")), Ok(Step::ItemMenu));
    assert!(b.p1_turn);
    assert_eq!(b.choose_item(Some("back"), None), Ok(Step::Reprompt));
    assert!(b.p1_turn);
    assert_eq!(b.p1.items.items, vec![apple]);
    assert_eq!(b.log.len(), 0);
    assert_eq!(b.choose_item(None, None), Ok(Step::Reprompt));
    assert!(b.p1_turn);
    assert_eq!(b.p1.items.len(), 1);
}

#[test]
fn item_menu_with_empty_inventory_reprompts() {
    let x = fighter("X", 1, true, plain_weapon(10, 20, 0, 0), vec![]);
    let y = fighter("Y", 2, false, plain_weapon(10, 20, 0, 0), vec![]);
    let mut b = duel(x, y, true);
    assert_eq!(b.act(Some("item")), Ok(Step::Reprompt));
    assert!(b.p1_turn);
}

#[test]
fn unknown_action_is_refused() {
    let x = fighter("X", 1, true, plain_weapon(10, 20, 0, 0), vec![]);
    let y = fighter("Y", 2, false, plain_weapon(10, 20, 0, 0), vec![]);
    let mut b = duel(x, y, true);
    assert_eq!(b.act(Some("dance")), Err(BattleError::UnknownAction));
    assert!(b.p1_turn);
    assert_eq!(b.log.len(), 0);
}

#[test]
fn timeout_is_logged_and_passes_turn() {
    let x = fighter("X", 1, true, plain_weapon(10, 20, 0, 0), vec![]);
    let y = fighter("Y", 2, false, plain_weapon(10, 20, 0, 0), vec![]);
    let mut b = duel(x, y, true);
    assert_eq!(b.act(None), Ok(Step::Resolved));
    assert_eq!(b.p1.health, 100);
    assert!(!b.p1_turn);
    assert_eq!(b.log.last(), Some(&Entry::Timeout("X".to_string())));
}

#[test]
fn timeout_forfeits_when_configured() {
    let x = fighter("X", 1, true, plain_weapon(10, 20, 0, 0), vec![]);
    let y = fighter("Y", 2, false, plain_weapon(10, 20, 0, 0), vec![]);
    let mut b = Battle::with_state(7, x, y, false, true);
    assert_eq!(b.act(None), Ok(Step::Resolved));
    assert_eq!(b.p2.health, 0);
    assert_eq!(b.outcome(), Some(Outcome::P1Won));
}

#[test]
fn turns_alternate_over_resolved_steps() {
    let x = fighter("X", 1, true, plain_weapon(1, 1, 0, 0), vec![Item { id: 3, kind: ItemKind::Shield }]);
    let y = fighter("Y", 2, false, plain_weapon(1, 1, 0, 0), vec![]);
    let mut b = duel(x, y, true);
    let mut sides = vec![];
    for _ in 0..6 {
        sides.push(b.p1_turn);
        assert_eq!(b.act(Some("attack")), Ok(Step::Resolved));
    }
    assert_eq!(sides, vec![true, false, true, false, true, false]);
    assert_eq!(b.p1.health, 97);
    assert_eq!(b.p2.health, 97);
}

#[test]
fn critical_hit_doubles_and_is_logged() {
    let x = fighter("X", 1, true, plain_weapon(10, 10, 100, 0), vec![]);
    let y = fighter("Y", 2, false, plain_weapon(10, 20, 0, 0), vec![]);
    let mut b = duel(x, y, true);
    assert_eq!(b.act(Some("attack")), Ok(Step::Resolved));
    assert_eq!(b.p2.health, 80);
    assert_eq!(b.log.last(), Some(&Entry::Critical("X".to_string(), "Y".to_string(), 20)));
}

#[test]
fn pierce_cuts_through_armor() {
    let x = fighter("X", 1, true, plain_weapon(10, 20, 0, 5), vec![]);
    let mut y = fighter("Y", 2, false, plain_weapon(10, 20, 0, 0), vec![]);
    y.armor = 8;
    let mut b = duel(x, y, true);
    b.attack_with(12, false);
    assert_eq!(b.p2.health, 91);
}

#[test]
fn critical_multiplier_saturates() {
    let w = plain_weapon(10, 20, 0, 0);
    assert_eq!(w.raw_damage(usize::MAX / 2 + 1, true), usize::MAX);
    assert_eq!(w.raw_damage(7, true), 14);
    assert_eq!(w.raw_damage(7, false), 7);
}

#[test]
fn apple_heals_user_up_to_max() {
    let apple = Item { id: 21, kind: ItemKind::Apple };
    let mut x = fighter("X", 1, true, plain_weapon(10, 20, 0, 0), vec![apple]);
    x.set_health(90);
    let y = fighter("Y", 2, false, plain_weapon(10, 20, 0, 0), vec![]);
    let mut b = duel(x, y, true);
    let rolls = Rolls { amount: 15, flag: false, backfire_amount: 0 };
    assert_eq!(b.use_item_with(21, rolls), Ok(()));
    assert_eq!(b.p1.health, 100);
    assert!(b.p1.items.is_empty());
    assert!(!b.p1_turn);
    assert_eq!(
        b.log.last(),
        Some(&Entry::Item(ItemKind::Apple, "X".to_string(), "Y".to_string(), Effect::HealUser(10)))
    );
}

#[test]
fn coin_heals_or_hurts_opponent() {
    let coin_a = Item { id: 31, kind: ItemKind::Coin };
    let coin_b = Item { id: 32, kind: ItemKind::Coin };
    let x = fighter("X", 1, true, plain_weapon(10, 20, 0, 0), vec![coin_a, coin_b]);
    let mut y = fighter("Y", 2, false, plain_weapon(10, 20, 0, 0), vec![]);
    y.armor = 5;
    let mut b = duel(x, y, true);
    assert_eq!(b.use_item_with(31, Rolls { amount: 25, flag: false, backfire_amount: 0 }), Ok(()));
    assert_eq!(b.p2.health, 80);
    b.p1_turn = true;
    assert_eq!(b.use_item_with(32, Rolls { amount: 30, flag: true, backfire_amount: 0 }), Ok(()));
    assert_eq!(b.p2.health, 100);
    assert_eq!(
        b.log.last(),
        Some(&Entry::Item(ItemKind::Coin, "X".to_string(), "Y".to_string(), Effect::HealOpponent(20)))
    );
}

#[test]
fn water_gun_backfires_on_user() {
    let gun = Item { id: 41, kind: ItemKind::FaultyWaterGun };
    let x = fighter("X", 1, true, plain_weapon(10, 20, 0, 0), vec![gun]);
    let y = fighter("Y", 2, false, plain_weapon(10, 20, 0, 0), vec![]);
    let mut b = duel(x, y, true);
    assert_eq!(b.use_item_with(41, Rolls { amount: 35, flag: true, backfire_amount: 55 }), Ok(()));
    assert_eq!(b.p1.health, 45);
    assert_eq!(b.p2.health, 100);
    assert_eq!(
        b.log.last(),
        Some(&Entry::Item(ItemKind::FaultyWaterGun, "X".to_string(), "Y".to_string(), Effect::DamageUser(55)))
    );
}

#[test]
fn water_gun_splashes_opponent() {
    let gun = Item { id: 42, kind: ItemKind::FaultyWaterGun };
    let x = fighter("X", 1, true, plain_weapon(10, 20, 0, 0), vec![gun]);
    let y = fighter("Y", 2, false, plain_weapon(10, 20, 0, 0), vec![]);
    let mut b = duel(x, y, true);
    assert_eq!(b.use_item_with(42, Rolls { amount: 35, flag: false, backfire_amount: 55 }), Ok(()));
    assert_eq!(b.p2.health, 65);
}

#[test]
fn shield_adds_armor_and_saturates() {
    let shield = Item { id: 51, kind: ItemKind::Shield };
    let mut x = fighter("X", 1, true, plain_weapon(10, 20, 0, 0), vec![shield]);
    x.armor = usize::MAX - 3;
    let y = fighter("Y", 2, false, plain_weapon(10, 20, 0, 0), vec![]);
    let mut b = duel(x, y, true);
    assert_eq!(b.use_item_with(51, Rolls { amount: 8, flag: false, backfire_amount: 0 }), Ok(()));
    assert_eq!(b.p1.armor, usize::MAX);
    assert_eq!(
        b.log.last(),
        Some(&Entry::Item(ItemKind::Shield, "X".to_string(), "Y".to_string(), Effect::ArmorUser(8)))
    );
}

#[test]
fn item_used_once_then_refused() {
    let shield = Item { id: 61, kind: ItemKind::Shield };
    let x = fighter("X", 1, true, plain_weapon(10, 20, 0, 0), vec![shield]);
    let y = fighter("Y", 2, false, plain_weapon(10, 20, 0, 0), vec![]);
    let mut b = duel(x, y, true);
    assert_eq!(b.use_item(61), Ok(()));
    assert!(b.p1.armor >= 5 && b.p1.armor <= 10);
    b.p1_turn = true;
    let armor = b.p1.armor;
    let entries = b.log.len();
    assert_eq!(b.use_item(61), Err(BattleError::ItemNotFound));
    assert_eq!(b.p1.armor, armor);
    assert_eq!(b.log.len(), entries);
    assert!(b.p1_turn);
}

#[test]
fn item_chosen_by_uuid_text() {
    let apple = Item { id: 0x1234_5678_9abc_def0_1234_5678_9abc_def0, kind: ItemKind::Apple };
    let x = fighter("X", 1, true, plain_weapon(10, 20, 0, 0), vec![apple]);
    let y = fighter("Y", 2, false, plain_weapon(10, 20, 0, 0), vec![]);
    let mut b = duel(x, y, true);
    let text = uuid::Uuid::from_u128(apple.id).to_string();
    assert_eq!(b.choose_item(Some("item"), Some(&text)), Ok(Step::Resolved));
    assert!(b.p1.items.is_empty());
    assert!(!b.p1_turn);
}

#[test]
fn item_menu_errors_change_nothing() {
    let apple = Item { id: 71, kind: ItemKind::Apple };
    let x = fighter("X", 1, true, plain_weapon(10, 20, 0, 0), vec![apple]);
    let y = fighter("Y", 2, false, plain_weapon(10, 20, 0, 0), vec![]);
    let mut b = duel(x, y, true);
    assert_eq!(b.choose_item(Some("eat"), None), Err(BattleError::UnknownAction));
    assert_eq!(b.choose_item(Some("item"), None), Err(BattleError::NoValue));
    assert_eq!(b.choose_item(Some("item"), Some("not-a-uuid")), Err(BattleError::BadItemId));
    let other = uuid::Uuid::from_u128(72).to_string();
    assert_eq!(b.choose_item(Some("item"), Some(&other)), Err(BattleError::ItemNotFound));
    assert!(b.p1_turn);
    assert_eq!(b.p1.items.len(), 1);
    assert_eq!(b.log.len(), 0);
}

#[test]
fn participants_in_order() {
    let x = fighter("X", 1, true, plain_weapon(10, 20, 0, 0), vec![]);
    let y = fighter("Y", 2, false, plain_weapon(10, 20, 0, 0), vec![]);
    let b = Battle::new(x, y);
    assert_eq!(b.participants(), vec![Some(1), Some(2)]);
    assert_eq!(b.log.len(), 0);
    assert!(!b.timeout_forfeits);
}

#[test]
fn session_registration_lasts_until_finish() {
    let x = fighter("X", 1, true, plain_weapon(10, 20, 0, 0), vec![]);
    let y = fighter("Y", 2, false, plain_weapon(10, 20, 0, 0), vec![]);
    let b = duel(x, y, true);
    let mut data = rpgbot::registry::Data::new();
    data.register(99, vec![Some(5)]);
    b.start(&mut data);
    assert!(data.check_for_user_in_battle(1));
    assert!(data.check_for_user_in_battle(2));
    b.finish(&mut data);
    assert!(!data.check_for_user_in_battle(1));
    assert!(!data.check_for_user_in_battle(2));
    assert!(data.check_for_user_in_battle(5));
    assert_eq!(data.battles.len(), 1);
}
