use vstd::prelude::*;
use crate::dice;
use crate::ids;
use crate::item::{draw_inventory, drawn_inventory, Inventory, ITEMS_DRAWN};
use crate::weapon::Weapon;

verus! {

/// Health (and maximum health) every battler starts a duel with.
pub const STARTING_HEALTH: usize = 100;

/// Why a battler could not be set up.
#[derive(Clone, Copy, Debug, PartialEq, Eq, Structural)]
pub enum PlayerError {
    /// There was no weapon to hand out.
    NoWeapons,
}

/// Damage that gets through: armor less pierce (never below zero) is taken
/// off the raw amount (never below zero), and no more than the target's
/// health can be removed.
pub open spec fn spec_damage_dealt(health: int, armor: int, raw: int, pierce: int) -> int {
    let reduction = if armor > pierce { armor - pierce } else { 0 };
    let through = if raw > reduction { raw - reduction } else { 0 };
    if through < health { through } else { health }
}

/// Healing that takes effect: no more than the health missing.
pub open spec fn spec_healed(health: int, max_health: int, raw: int) -> int {
    if raw < max_health - health { raw } else { max_health - health }
}

/// `a + b`, held at `usize::MAX` instead of overflowing.
pub open spec fn saturating_sum(a: int, b: int) -> int {
    if a + b > usize::MAX as int { usize::MAX as int } else { a + b }
}

/// Damage never removes more than was dealt nor more than the health
/// there was, so health stays within `[0, max_health]` whatever the roll,
/// armor or pierce.
pub proof fn lemma_damage_bounded(health: int, max_health: int, armor: int, raw: int, pierce: int)
    requires
        0 <= health <= max_health,
        0 <= armor,
        0 <= raw,
        0 <= pierce,
    ensures
        0 <= spec_damage_dealt(health, armor, raw, pierce) <= raw,
        spec_damage_dealt(health, armor, raw, pierce) <= health,
        0 <= health - spec_damage_dealt(health, armor, raw, pierce) <= max_health,
{
}

/// Healing never adds more than the health missing, so health never passes
/// its maximum whatever the amount.
pub proof fn lemma_heal_bounded(health: int, max_health: int, raw: int)
    requires
        0 <= health <= max_health,
        0 <= raw,
    ensures
        0 <= spec_healed(health, max_health, raw) <= raw,
        spec_healed(health, max_health, raw) <= max_health - health,
        health <= health + spec_healed(health, max_health, raw) <= max_health,
{
}

/// Adding armor never lowers it and never leaves the range of `usize`.
pub proof fn lemma_armor_gain_saturates(armor: int, gain: int)
    requires
        0 <= armor <= usize::MAX,
        0 <= gain <= usize::MAX,
    ensures
        armor <= saturating_sum(armor, gain) <= usize::MAX,
        armor + gain <= usize::MAX ==> saturating_sum(armor, gain) == armor + gain,
{
}

/// One participant of a duel.
pub struct Player {
    /// The external user this battler stands for; `None` for one that no
    /// user controls.
    pub user_id: Option<u64>,
    /// Unique within the running process.
    pub id: u128,
    pub name: String,
    pub icon: Option<String>,
    /// Whether this battler is shown as the first of the two.
    pub is_p1: bool,
    pub health: usize,
    pub max_health: usize,
    pub armor: usize,
    pub weapon: Weapon,
    pub items: Inventory,
}

impl Player {
    /// Health lies in `[0, max_health]`, the maximum is positive and the
    /// weapon is usable.
    pub open spec fn wf(&self) -> bool {
        &&& 0 < self.max_health
        &&& self.health <= self.max_health
        &&& self.weapon.wf()
        &&& self.items.wf()
    }

    /// A battler at full starting health, without armor, holding `weapon`
    /// and `items`.
    pub fn with_loadout(
        user_id: Option<u64>,
        id: u128,
        name: String,
        icon: Option<String>,
        is_p1: bool,
        weapon: Weapon,
        items: Inventory,
    ) -> (p: Player)
        requires
            weapon.wf(),
            items.wf(),
        ensures
            p.wf(),
            p == (Player {
                user_id,
                id,
                name,
                icon,
                is_p1,
                health: STARTING_HEALTH,
                max_health: STARTING_HEALTH,
                armor: 0,
                weapon,
                items,
            }),
    {
        Player {
            user_id,
            id,
            name,
            icon,
            is_p1,
            health: STARTING_HEALTH,
            max_health: STARTING_HEALTH,
            armor: 0,
            weapon,
            items,
        }
    }

    /// Sets up a battler for a duel: a new id, one of `weapons` picked at
    /// random, and up to three items drawn from the catalog.
    pub fn new(
        user_id: Option<u64>,
        name: String,
        icon: Option<String>,
        is_p1: bool,
        weapons: Vec<Weapon>,
    ) -> (r: Result<Player, PlayerError>)
        requires
            forall|i: int| 0 <= i < weapons@.len() ==> (#[trigger] weapons@[i]).wf(),
        ensures
            weapons@.len() == 0 <==> r == Err::<Player, PlayerError>(PlayerError::NoWeapons),
            r matches Ok(p) ==> {
                &&& p.wf()
                &&& p.user_id == user_id
                &&& p.name == name
                &&& p.icon == icon
                &&& p.is_p1 == is_p1
                &&& p.health == STARTING_HEALTH
                &&& p.max_health == STARTING_HEALTH
                &&& p.armor == 0
                &&& weapons@.contains(p.weapon)
                &&& 1 <= p.items.items@.len() <= ITEMS_DRAWN
                &&& exists|picks: Seq<usize>, new_ids: Seq<u128>| #[trigger] drawn_inventory(picks, new_ids, p.items)
            },
    {
        let pick = match dice::choose_index(weapons.len()) {
            Some(i) => i,
            None => return Err(PlayerError::NoWeapons),
        };
        let mut weapons = weapons;
        let ghost all = weapons@;
        let weapon = weapons.swap_remove(pick);
        assert(all[pick as int] == weapon);
        let items = draw_inventory();
        Ok(Player::with_loadout(user_id, ids::new_id(), name, icon, is_p1, weapon, items))
    }

    /// Takes `damage` off this battler's health, through its armor less
    /// `pierce`; returns the health actually removed.
    pub fn damage(&mut self, damage: usize, pierce: usize) -> (dealt: usize)
        requires
            old(self).wf(),
        ensures
            final(self).wf(),
            dealt == spec_damage_dealt(
                old(self).health as int,
                old(self).armor as int,
                damage as int,
                pierce as int,
            ),
            final(self).health == old(self).health - dealt,
            dealt <= damage,
            dealt <= old(self).health,
            *final(self) == (Player { health: final(self).health, ..*old(self) }),
    {
        let dealt = damage.saturating_sub(self.armor.saturating_sub(pierce));
        let dealt = if dealt < self.health { dealt } else { self.health };
        self.health = self.health - dealt;
        dealt
    }

    /// Adds up to `healing` to this battler's health, never past its
    /// maximum; returns the health actually added.
    pub fn heal(&mut self, healing: usize) -> (healed: usize)
        requires
            old(self).wf(),
        ensures
            final(self).wf(),
            healed == spec_healed(
                old(self).health as int,
                old(self).max_health as int,
                healing as int,
            ),
            final(self).health == old(self).health + healed,
            healed <= healing,
            healed <= old(self).max_health - old(self).health,
            *final(self) == (Player { health: final(self).health, ..*old(self) }),
    {
        let missing = self.max_health - self.health;
        let healed = if healing < missing { healing } else { missing };
        self.health = self.health + healed;
        healed
    }

    /// Raises this battler's armor by `armor`, held at `usize::MAX`.
    pub fn add_armor(&mut self, armor: usize)
        requires
            old(self).wf(),
        ensures
            final(self).wf(),
            final(self).armor == saturating_sum(old(self).armor as int, armor as int),
            final(self).armor >= old(self).armor,
            *final(self) == (Player { armor: final(self).armor, ..*old(self) }),
    {
        self.armor = self.armor.saturating_add(armor);
    }

    /// Sets health to `health`, held within `[0, max_health]`.
    pub fn set_health(&mut self, health: usize)
        requires
            old(self).wf(),
        ensures
            final(self).wf(),
            final(self).health == if health < old(self).max_health {
                health
            } else {
                old(self).max_health
            },
            *final(self) == (Player { health: final(self).health, ..*old(self) }),
    {
        self.health = if health < self.max_health { health } else { self.max_health };
    }
}

} // verus!
