//! Consumable items: what each kind does for a given roll, how the rolls are
//! drawn, and the inventory a battler carries them in.

use vstd::prelude::*;
use crate::dice;
use crate::ids;

verus! {

pub const APPLE_HEAL_LOW: usize = 5;
pub const APPLE_HEAL_HIGH: usize = 20;
pub const COIN_LOW: usize = 20;
pub const COIN_HIGH: usize = 35;
pub const WATER_GUN_LOW: usize = 30;
pub const WATER_GUN_HIGH: usize = 40;
pub const BACKFIRE_LOW: usize = 50;
pub const BACKFIRE_HIGH: usize = 60;
pub const BACKFIRE_NUMERATOR: u32 = 1;
pub const BACKFIRE_DENOMINATOR: u32 = 10;
pub const SHIELD_LOW: usize = 5;
pub const SHIELD_HIGH: usize = 10;

/// How many items a battler draws at the start of a duel.
pub const ITEMS_DRAWN: usize = 3;

/// The kinds of consumable items.
#[derive(Clone, Copy, Debug, PartialEq, Eq, Structural)]
pub enum ItemKind {
    /// Heals its user.
    Apple,
    /// Heals or hurts the opponent, on a coin flip.
    Coin,
    /// Hurts the opponent, or now and then its own user.
    FaultyWaterGun,
    /// Gives its user armor.
    Shield,
}

/// What using an item does, with the amount: rolled before it is applied;
/// once it has been, the health actually healed or removed, or the armor
/// granted.
#[derive(Clone, Copy, Debug, PartialEq, Eq, Structural)]
pub enum Effect {
    HealUser(usize),
    HealOpponent(usize),
    DamageOpponent(usize),
    DamageUser(usize),
    ArmorUser(usize),
}

/// The random draws an item use needs: a main amount, a yes/no draw, and a
/// second amount (for the water gun's backfire).
#[derive(Clone, Copy, Debug, PartialEq, Eq, Structural)]
pub struct Rolls {
    pub amount: usize,
    pub flag: bool,
    pub backfire_amount: usize,
}

/// One item in a battler's inventory.
#[derive(Clone, Copy, Debug, PartialEq, Eq, Structural)]
pub struct Item {
    pub id: u128,
    pub kind: ItemKind,
}

impl ItemKind {
    /// The name players see.
    pub open spec fn spec_name(&self) -> &'static str {
        match self {
            ItemKind::Apple => "Apple",
            ItemKind::Coin => "Coin",
            ItemKind::FaultyWaterGun => "Faulty Water Gun",
            ItemKind::Shield => "Shield",
        }
    }

    pub fn name(&self) -> (r: &'static str)
        ensures
            r == self.spec_name(),
    {
        match self {
            ItemKind::Apple => "Apple",
            ItemKind::Coin => "Coin",
            ItemKind::FaultyWaterGun => "Faulty Water Gun",
            ItemKind::Shield => "Shield",
        }
    }

    /// What the item does, in words.
    pub open spec fn spec_description(&self) -> &'static str {
        match self {
            ItemKind::Apple => "Heal 5-20 HP.",
            ItemKind::Coin => "50/50 chance to heal/hurt your opponent for 20-35 health.",
            ItemKind::FaultyWaterGun => "90% chance to deal 30-40 damage; 10% chance to backfire for 50-60 damage",
            ItemKind::Shield => "Gain 5-10 armor.",
        }
    }

    pub fn description(&self) -> (r: &'static str)
        ensures
            r == self.spec_description(),
    {
        match self {
            ItemKind::Apple => "Heal 5-20 HP.",
            ItemKind::Coin => "50/50 chance to heal/hurt your opponent for 20-35 health.",
            ItemKind::FaultyWaterGun => "90% chance to deal 30-40 damage; 10% chance to backfire for 50-60 damage",
            ItemKind::Shield => "Gain 5-10 armor.",
        }
    }

    /// The emoji the item is shown with.
    pub open spec fn spec_icon(&self) -> &'static str {
        match self {
            ItemKind::Apple => "\u{1F34E}",
            ItemKind::Coin => "\u{1FA99}",
            ItemKind::FaultyWaterGun => "\u{1F52B}",
            ItemKind::Shield => "\u{1F6E1}",
        }
    }

    pub fn icon(&self) -> (r: &'static str)
        ensures
            r == self.spec_icon(),
    {
        match self {
            ItemKind::Apple => "\u{1F34E}",
            ItemKind::Coin => "\u{1FA99}",
            ItemKind::FaultyWaterGun => "\u{1F52B}",
            ItemKind::Shield => "\u{1F6E1}",
        }
    }

    /// The draws this kind can make: each amount within its range.
    pub open spec fn rolls_in_range(&self, r: Rolls) -> bool {
        match self {
            ItemKind::Apple => APPLE_HEAL_LOW <= r.amount <= APPLE_HEAL_HIGH,
            ItemKind::Coin => COIN_LOW <= r.amount <= COIN_HIGH,
            ItemKind::FaultyWaterGun => {
                &&& WATER_GUN_LOW <= r.amount <= WATER_GUN_HIGH
                &&& BACKFIRE_LOW <= r.backfire_amount <= BACKFIRE_HIGH
            },
            ItemKind::Shield => SHIELD_LOW <= r.amount <= SHIELD_HIGH,
        }
    }

    /// The effect of this kind for given draws: the apple heals its user; the
    /// coin heals the opponent on heads and hurts it on tails; the water gun
    /// hurts the opponent unless it backfires, then it hurts its user with
    /// the second amount; the shield gives its user armor.
    pub open spec fn spec_effect(&self, r: Rolls) -> Effect {
        match self {
            ItemKind::Apple => Effect::HealUser(r.amount),
            ItemKind::Coin => if r.flag {
                Effect::HealOpponent(r.amount)
            } else {
                Effect::DamageOpponent(r.amount)
            },
            ItemKind::FaultyWaterGun => if r.flag {
                Effect::DamageUser(r.backfire_amount)
            } else {
                Effect::DamageOpponent(r.amount)
            },
            ItemKind::Shield => Effect::ArmorUser(r.amount),
        }
    }

    pub fn effect(&self, r: Rolls) -> (e: Effect)
        ensures
            e == self.spec_effect(r),
    {
        match self {
            ItemKind::Apple => Effect::HealUser(r.amount),
            ItemKind::Coin => if r.flag {
                Effect::HealOpponent(r.amount)
            } else {
                Effect::DamageOpponent(r.amount)
            },
            ItemKind::FaultyWaterGun => if r.flag {
                Effect::DamageUser(r.backfire_amount)
            } else {
                Effect::DamageOpponent(r.amount)
            },
            ItemKind::Shield => Effect::ArmorUser(r.amount),
        }
    }

    /// Draws what one use of this kind needs: amounts within the kind's
    /// ranges; the coin's flag is a fair flip (heads heals), the water gun's
    /// a one-in-ten chance of backfiring.
    pub fn roll(&self) -> (r: Rolls)
        ensures
            self.rolls_in_range(r),
    {
        match self {
            ItemKind::Apple => Rolls {
                amount: dice::roll(APPLE_HEAL_LOW, APPLE_HEAL_HIGH),
                flag: false,
                backfire_amount: 0,
            },
            ItemKind::Coin => Rolls {
                amount: dice::roll(COIN_LOW, COIN_HIGH),
                flag: dice::coin_flip(),
                backfire_amount: 0,
            },
            ItemKind::FaultyWaterGun => {
                let amount = dice::roll(WATER_GUN_LOW, WATER_GUN_HIGH);
                let flag = dice::chance(BACKFIRE_NUMERATOR, BACKFIRE_DENOMINATOR);
                let backfire_amount = dice::roll(BACKFIRE_LOW, BACKFIRE_HIGH);
                Rolls { amount, flag, backfire_amount }
            },
            ItemKind::Shield => Rolls {
                amount: dice::roll(SHIELD_LOW, SHIELD_HIGH),
                flag: false,
                backfire_amount: 0,
            },
        }
    }
}

/// The kinds an inventory is drawn from: each kind twice, so that a draw of
/// three may hold the same kind more than once.
pub open spec fn spec_catalog() -> Seq<ItemKind> {
    seq![
        ItemKind::Apple,
        ItemKind::Apple,
        ItemKind::Coin,
        ItemKind::Coin,
        ItemKind::FaultyWaterGun,
        ItemKind::FaultyWaterGun,
        ItemKind::Shield,
        ItemKind::Shield,
    ]
}

pub fn catalog() -> (r: Vec<ItemKind>)
    ensures
        r@ == spec_catalog(),
{
    let r = vec![
        ItemKind::Apple,
        ItemKind::Apple,
        ItemKind::Coin,
        ItemKind::Coin,
        ItemKind::FaultyWaterGun,
        ItemKind::FaultyWaterGun,
        ItemKind::Shield,
        ItemKind::Shield,
    ];
    assert(r@ =~= spec_catalog());
    r
}

/// No two items share an id.
pub open spec fn ids_unique(s: Seq<Item>) -> bool {
    forall|i: int, j: int| 0 <= i < s.len() && 0 <= j < s.len() && i != j ==> s[i].id != s[j].id
}

pub open spec fn seq_has_id(s: Seq<Item>, id: u128) -> bool {
    exists|i: int| 0 <= i < s.len() && s[i].id == id
}

/// The items a battler carries, each under its own id, in the order they
/// were added. A list rather than a hash map: the item menu shows the items
/// in this order, which a hash map's walk would not keep from one process
/// to the next, and with a handful of items a scan costs nothing.
pub struct Inventory {
    pub items: Vec<Item>,
}

impl Inventory {
    pub open spec fn wf(&self) -> bool {
        ids_unique(self.items@)
    }

    pub open spec fn has(&self, id: u128) -> bool {
        seq_has_id(self.items@, id)
    }

    pub fn new() -> (r: Inventory)
        ensures
            r.wf(),
            r.items@.len() == 0,
    {
        Inventory { items: Vec::new() }
    }

    pub fn len(&self) -> (r: usize)
        ensures
            r == self.items@.len(),
    {
        self.items.len()
    }

    pub fn is_empty(&self) -> (r: bool)
        ensures
            r == (self.items@.len() == 0),
    {
        self.items.len() == 0
    }

    /// Where the item with `id` stands, if it is here.
    pub fn position(&self, id: u128) -> (r: Option<usize>)
        ensures
            match r {
                Some(i) => i < self.items@.len() && self.items@[i as int].id == id,
                None => !self.has(id),
            },
    {
        let mut i: usize = 0;
        while i < self.items.len()
            invariant
                i <= self.items@.len(),
                forall|k: int| 0 <= k < i ==> self.items@[k].id != id,
            decreases self.items@.len() - i,
        {
            if self.items[i].id == id {
                return Some(i);
            }
            i = i + 1;
        }
        None
    }

    /// Adds `item` under its id; an item already held under that id is
    /// replaced in place.
    pub fn insert(&mut self, item: Item)
        requires
            old(self).wf(),
        ensures
            final(self).wf(),
            final(self).has(item.id),
            old(self).has(item.id) ==> exists|i: int|
                0 <= i < old(self).items@.len() && old(self).items@[i].id == item.id
                    && final(self).items@ == old(self).items@.update(i, item),
            !old(self).has(item.id) ==> final(self).items@ == old(self).items@.push(item),
    {
        match self.position(item.id) {
            Some(i) => {
                self.items.set(i, item);
                assert(self.items@[i as int].id == item.id);
            },
            None => {
                self.items.push(item);
                assert(self.items@[self.items@.len() - 1].id == item.id);
            },
        }
    }

    /// Takes the item with `id` out, if it is here; otherwise changes nothing.
    pub fn remove(&mut self, id: u128) -> (r: Option<Item>)
        requires
            old(self).wf(),
        ensures
            final(self).wf(),
            !final(self).has(id),
            r is None <==> !old(self).has(id),
            r is None ==> *final(self) == *old(self),
            r matches Some(it) ==> it.id == id && exists|i: int|
                0 <= i < old(self).items@.len() && old(self).items@[i] == it
                    && final(self).items@ == old(self).items@.remove(i),
    {
        match self.position(id) {
            Some(i) => {
                let ghost before = self.items@;
                let it = self.items.remove(i);
                assert(forall|k: int| 0 <= k < self.items@.len() ==>
                    #[trigger] self.items@[k] == before[if k < i { k } else { k + 1 }]);
                Some(it)
            },
            None => None,
        }
    }
}

/// `it` is the catalog entry at one of `picks`, under the id at the same
/// place in `new_ids`.
pub open spec fn drawn(picks: Seq<usize>, new_ids: Seq<u128>, it: Item) -> bool {
    exists|i: int| 0 <= i < picks.len() && it.id == #[trigger] new_ids[i]
        && it.kind == spec_catalog()[picks[i] as int]
}

/// Draws an inventory: the catalog entries at `picks` (distinct positions in
/// the catalog), each under the id at the same place in `new_ids`. Items
/// whose ids repeat are held once.
pub fn inventory_from(picks: &Vec<usize>, new_ids: &Vec<u128>) -> (r: Inventory)
    requires
        picks@.len() == new_ids@.len(),
        forall|i: int| 0 <= i < picks@.len() ==> picks@[i] < spec_catalog().len(),
    ensures
        r.wf(),
        r.items@.len() <= picks@.len(),
        forall|i: int| 0 <= i < picks@.len() ==> r.has(#[trigger] new_ids@[i]),
        forall|k: int| 0 <= k < r.items@.len() ==> drawn(picks@, new_ids@, #[trigger] r.items@[k]),
{
    let kinds = catalog();
    let mut inv = Inventory::new();
    let mut i: usize = 0;
    while i < picks.len()
        invariant
            i <= picks@.len(),
            picks@.len() == new_ids@.len(),
            forall|j: int| 0 <= j < picks@.len() ==> picks@[j] < spec_catalog().len(),
            kinds@ == spec_catalog(),
            inv.wf(),
            inv.items@.len() <= i,
            forall|j: int| 0 <= j < i ==> inv.has(#[trigger] new_ids@[j]),
            forall|k: int| 0 <= k < inv.items@.len() ==> drawn(picks@.take(i as int), new_ids@, #[trigger] inv.items@[k]),
        decreases picks@.len() - i,
    {
        assert(picks@.take(i as int).len() == i);
        let item = Item { id: new_ids[i], kind: kinds[picks[i]] };
        let ghost before = inv.items@;
        inv.insert(item);
        assert(drawn(picks@.take(i + 1), new_ids@, item)) by {
            assert(picks@.take(i + 1)[i as int] == picks@[i as int]);
        }
        assert forall|k: int| 0 <= k < inv.items@.len() implies drawn(
            picks@.take(i + 1),
            new_ids@,
            #[trigger] inv.items@[k],
        ) by {
            if inv.items@[k] != item {
                let w = choose|w: int| 0 <= w < before.len() && before[w] == inv.items@[k];
                assert(drawn(picks@.take(i as int), new_ids@, before[w]));
                let j = choose|j: int| 0 <= j < i && before[w].id == #[trigger] new_ids@[j]
                    && before[w].kind == spec_catalog()[picks@.take(i as int)[j] as int];
                assert(picks@.take(i + 1)[j] == picks@.take(i as int)[j]);
            }
        }
        assert forall|j: int| 0 <= j < i + 1 implies inv.has(#[trigger] new_ids@[j]) by {
            if j < i {
                let w = choose|w: int| 0 <= w < before.len() && before[w].id == new_ids@[j];
                assert(inv.items@[w].id == new_ids@[j]);
            }
        }
        i = i + 1;
    }
    assert(picks@.take(picks@.len() as int) =~= picks@);
    inv
}

/// `r` holds what a draw of `ITEMS_DRAWN` distinct catalog positions
/// `picks`, under the ids `new_ids`, gives: every drawn id, and nothing but
/// catalog entries at the drawn positions.
pub open spec fn drawn_inventory(picks: Seq<usize>, new_ids: Seq<u128>, r: Inventory) -> bool {
    &&& picks.len() == ITEMS_DRAWN
    &&& new_ids.len() == ITEMS_DRAWN
    &&& forall|i: int, j: int| 0 <= i < j < picks.len() ==> picks[i] != picks[j]
    &&& forall|i: int| 0 <= i < picks.len() ==> picks[i] < spec_catalog().len()
    &&& forall|i: int| 0 <= i < new_ids.len() ==> r.has(#[trigger] new_ids[i])
    &&& forall|k: int| 0 <= k < r.items@.len() ==> drawn(picks, new_ids, #[trigger] r.items@[k])
}

/// Draws a fresh inventory of up to three items from the catalog, each
/// under a new id.
pub fn draw_inventory() -> (r: Inventory)
    ensures
        r.wf(),
        1 <= r.items@.len() <= ITEMS_DRAWN,
        exists|picks: Seq<usize>, new_ids: Seq<u128>| #[trigger] drawn_inventory(picks, new_ids, r),
{
    let picks = dice::sample_indices(8, ITEMS_DRAWN);
    let mut new_ids: Vec<u128> = Vec::new();
    let mut i: usize = 0;
    while i < picks.len()
        invariant
            i <= picks@.len(),
            new_ids@.len() == i,
        decreases picks@.len() - i,
    {
        new_ids.push(ids::new_id());
        i = i + 1;
    }
    let r = inventory_from(&picks, &new_ids);
    assert(r.has(new_ids@[0]));
    assert(drawn_inventory(picks@, new_ids@, r));
    r
}

} // verus!
