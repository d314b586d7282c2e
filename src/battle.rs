//! One duel: two battlers, whose turn it is, and the log. The session is a
//! state machine driven from outside: the caller shows the acting battler a
//! menu, waits for its choice (or for the wait to run out), and hands the
//! choice to `act` or `choose_item`, which resolve it and say what to show
//! next. No step waits; every step is a plain function of the state, the
//! choice and the dice.

use vstd::prelude::*;
use crate::dice;
use crate::ids::{self, parse_id, parsed_uuid};
use crate::item::{Effect, ItemKind, Rolls};
use crate::log::{Entry, Log};
use crate::player::{spec_damage_dealt, spec_healed, saturating_sum, Player};
use crate::registry::{deregistered, registered, seq_has_session, Data};

verus! {

/// The choices of the main turn menu.
#[derive(Clone, Copy, Debug, PartialEq, Eq, Structural)]
pub enum Action {
    Attack,
    Item,
    Surrender,
}

/// What the caller is to do after a step.
#[derive(Clone, Copy, Debug, PartialEq, Eq, Structural)]
pub enum Step {
    /// The turn is over; the other battler acts next (unless the duel is
    /// over).
    Resolved,
    /// Show the acting battler its items; its turn goes on.
    ItemMenu,
    /// Show the acting battler the main menu again; its turn goes on.
    Reprompt,
}

/// How a duel ended.
#[derive(Clone, Copy, Debug, PartialEq, Eq, Structural)]
pub enum Outcome {
    P1Won,
    P2Won,
    Tie,
}

/// Why a step was refused. Each is fatal to the duel, and a refused step
/// changes nothing.
#[derive(Clone, Copy, Debug, PartialEq, Eq, Structural)]
pub enum BattleError {
    /// A choice that is not one of the menu's.
    UnknownAction,
    /// An item choice that carried no item id.
    NoValue,
    /// An item id that is not a UUID.
    BadItemId,
    /// An item id that the acting battler does not hold.
    ItemNotFound,
    /// A turn was asked of a duel that is already over.
    Concluded,
}

/// The menu choice `s` names, if any.
pub open spec fn spec_parse_action(s: Seq<char>) -> Option<Action> {
    if s == "attack"@ {
        Some(Action::Attack)
    } else if s == "item"@ {
        Some(Action::Item)
    } else if s == "surrender"@ {
        Some(Action::Surrender)
    } else {
        None
    }
}

/// Whether two texts are the same.
pub fn same_text(a: &str, b: &str) -> (r: bool)
    ensures
        r == (a@ == b@),
{
    a.to_owned() == b.to_owned()
}

/// Reads a choice of the main turn menu.
pub fn parse_action(s: &str) -> (r: Option<Action>)
    ensures
        r == spec_parse_action(s@),
{
    if same_text(s, "attack") {
        Some(Action::Attack)
    } else if same_text(s, "item") {
        Some(Action::Item)
    } else if same_text(s, "surrender") {
        Some(Action::Surrender)
    } else {
        None
    }
}

/// The choices of the item menu.
#[derive(Clone, Copy, Debug, PartialEq, Eq, Structural)]
pub enum MenuChoice {
    /// An item was picked; its id comes with the choice.
    Item,
    /// Back to the main menu.
    Back,
}

/// The item-menu choice `s` names, if any.
pub open spec fn spec_parse_menu_choice(s: Seq<char>) -> Option<MenuChoice> {
    if s == "item"@ {
        Some(MenuChoice::Item)
    } else if s == "back"@ {
        Some(MenuChoice::Back)
    } else {
        None
    }
}

/// Reads a choice of the item menu.
pub fn parse_menu_choice(s: &str) -> (r: Option<MenuChoice>)
    ensures
        r == spec_parse_menu_choice(s@),
{
    if same_text(s, "item") {
        Some(MenuChoice::Item)
    } else if same_text(s, "back") {
        Some(MenuChoice::Back)
    } else {
        None
    }
}

/// The log entry for an attack by `actor` on a target named `target`.
pub open spec fn spec_attack_entry(actor: Player, target: String, critical: bool, dealt: int) -> Entry {
    if critical {
        Entry::Critical(actor.name, target, dealt as usize)
    } else {
        Entry::Attack(actor.weapon.icon, actor.name, target, dealt as usize)
    }
}

/// The damage an attack by `actor` on `target` gets through.
pub open spec fn spec_attack_dealt(actor: Player, target: Player, roll: int, critical: bool) -> int {
    spec_damage_dealt(
        target.health as int,
        target.armor as int,
        actor.weapon.spec_raw_damage(roll, critical),
        actor.weapon.pierce as int,
    )
}

/// `actor` attacks `target` with its weapon, for a rolled amount that a
/// critical hit multiplies; the damage that gets through is logged.
pub fn strike(actor: &Player, target: &mut Player, log: &mut Log, roll: usize, critical: bool) -> (dealt: usize)
    requires
        old(target).wf(),
    ensures
        dealt == spec_attack_dealt(*actor, *old(target), roll as int, critical),
        *final(target) == (Player { health: (old(target).health - dealt) as usize, ..*old(target) }),
        final(log).entries@ == old(log).entries@.push(
            spec_attack_entry(*actor, old(target).name, critical, dealt as int),
        ),
{
    let raw = actor.weapon.raw_damage(roll, critical);
    let dealt = target.damage(raw, actor.weapon.pierce);
    if critical {
        log.add(Entry::Critical(actor.name.clone(), target.name.clone(), dealt));
    } else {
        log.add(Entry::Attack(actor.weapon.icon.clone(), actor.name.clone(), target.name.clone(), dealt));
    }
    dealt
}

/// The battlers after `effect`, and the effect as it is logged: heals and
/// damage with the amount that took hold (heals never pass the maximum,
/// damage goes through armor with no pierce); armor with the amount granted,
/// though the armor itself is held at `usize::MAX`.
pub open spec fn spec_apply(user: Player, opponent: Player, effect: Effect) -> (Player, Player, Effect) {
    match effect {
        Effect::HealUser(n) => {
            let h = spec_healed(user.health as int, user.max_health as int, n as int);
            (Player { health: (user.health + h) as usize, ..user }, opponent, Effect::HealUser(h as usize))
        },
        Effect::HealOpponent(n) => {
            let h = spec_healed(opponent.health as int, opponent.max_health as int, n as int);
            (user, Player { health: (opponent.health + h) as usize, ..opponent }, Effect::HealOpponent(h as usize))
        },
        Effect::DamageOpponent(n) => {
            let d = spec_damage_dealt(opponent.health as int, opponent.armor as int, n as int, 0);
            (user, Player { health: (opponent.health - d) as usize, ..opponent }, Effect::DamageOpponent(d as usize))
        },
        Effect::DamageUser(n) => {
            let d = spec_damage_dealt(user.health as int, user.armor as int, n as int, 0);
            (Player { health: (user.health - d) as usize, ..user }, opponent, Effect::DamageUser(d as usize))
        },
        Effect::ArmorUser(n) => {
            let a = saturating_sum(user.armor as int, n as int);
            (Player { armor: a as usize, ..user }, opponent, Effect::ArmorUser(n))
        },
    }
}

/// Applies an item's effect to its user and the user's opponent, and logs
/// it: heals and damage with the amount that took hold, armor with the
/// amount granted.
pub fn apply_effect(user: &mut Player, opponent: &mut Player, log: &mut Log, kind: ItemKind, effect: Effect)
    requires
        old(user).wf(),
        old(opponent).wf(),
    ensures
        final(user).wf(),
        final(opponent).wf(),
        (*final(user), *final(opponent)) == ({
            let t = spec_apply(*old(user), *old(opponent), effect);
            (t.0, t.1)
        }),
        final(log).entries@ == old(log).entries@.push(
            Entry::Item(kind, old(user).name, old(opponent).name, spec_apply(*old(user), *old(opponent), effect).2),
        ),
{
    let applied = match effect {
        Effect::HealUser(n) => Effect::HealUser(user.heal(n)),
        Effect::HealOpponent(n) => Effect::HealOpponent(opponent.heal(n)),
        Effect::DamageOpponent(n) => Effect::DamageOpponent(opponent.damage(n, 0)),
        Effect::DamageUser(n) => Effect::DamageUser(user.damage(n, 0)),
        Effect::ArmorUser(n) => {
            user.add_armor(n);
            Effect::ArmorUser(n)
        },
    };
    log.add(Entry::Item(kind, user.name.clone(), opponent.name.clone(), applied));
}

/// `user` held item `item_id` at `index`; after using it on `opponent`
/// with draws `rolls` the two battlers are `user2` and `opponent2` and the
/// log went from `log` to `log2`: the item left the inventory, its effect
/// took hold and was logged with the amount applied.
pub open spec fn item_used(
    user: Player,
    opponent: Player,
    user2: Player,
    opponent2: Player,
    log: Seq<Entry>,
    log2: Seq<Entry>,
    index: int,
    item_id: u128,
    rolls: Rolls,
) -> bool {
    let it = user.items.items@[index];
    let holder = Player { items: user2.items, ..user };
    let t = spec_apply(holder, opponent, it.kind.spec_effect(rolls));
    &&& 0 <= index < user.items.items@.len()
    &&& it.id == item_id
    &&& user2.items.items@ == user.items.items@.remove(index)
    &&& user2 == t.0
    &&& opponent2 == t.1
    &&& log2 == log.push(Entry::Item(it.kind, user.name, opponent.name, t.2))
}

/// `user` uses its item `item_id` on `opponent` with draws `rolls`: the
/// item leaves the inventory and its effect takes hold. An id that `user`
/// does not hold is refused and nothing changes.
pub fn use_item(
    user: &mut Player,
    opponent: &mut Player,
    log: &mut Log,
    item_id: u128,
    rolls: Rolls,
) -> (r: Result<(), BattleError>)
    requires
        old(user).wf(),
        old(opponent).wf(),
    ensures
        final(user).wf(),
        final(opponent).wf(),
        r is Err <==> !old(user).items.has(item_id),
        r is Err ==> r == Err::<(), BattleError>(BattleError::ItemNotFound) && *final(user) == *old(user)
            && *final(opponent) == *old(opponent) && *final(log) == *old(log),
        r is Ok ==> !final(user).items.has(item_id),
        r is Ok ==> exists|index: int|
            #[trigger] item_used(*old(user), *old(opponent), *final(user), *final(opponent),
                old(log).entries@, final(log).entries@, index, item_id, rolls),
{
    match user.items.remove(item_id) {
        None => Err(BattleError::ItemNotFound),
        Some(it) => {
            let ghost index = choose|i: int|
                0 <= i < old(user).items.items@.len() && old(user).items.items@[i] == it
                    && user.items.items@ == old(user).items.items@.remove(i);
            let effect = it.kind.effect(rolls);
            apply_effect(user, opponent, log, it.kind, effect);
            assert(item_used(*old(user), *old(opponent), *user, *opponent, old(log).entries@,
                log.entries@, index, item_id, rolls));
            Ok(())
        },
    }
}

/// A duel in progress, or one that has ended.
pub struct Battle {
    pub id: u128,
    pub p1: Player,
    pub p2: Player,
    /// Whether the first battler is the one to act.
    pub p1_turn: bool,
    pub log: Log,
    /// Whether letting a turn run out also drops the battler to zero
    /// health; otherwise it is only logged.
    pub timeout_forfeits: bool,
}

impl Battle {
    pub open spec fn wf(&self) -> bool {
        &&& self.p1.wf()
        &&& self.p2.wf()
    }

    /// The first battler if `p1`, else the second.
    pub open spec fn side(&self, p1: bool) -> Player {
        if p1 { self.p1 } else { self.p2 }
    }

    /// The battler whose turn it is.
    pub open spec fn actor(&self) -> Player {
        if self.p1_turn { self.p1 } else { self.p2 }
    }

    /// The other battler.
    pub open spec fn opponent(&self) -> Player {
        if self.p1_turn { self.p2 } else { self.p1 }
    }

    /// The duel is over once either battler is at zero health.
    pub open spec fn concluded(&self) -> bool {
        self.p1.health == 0 || self.p2.health == 0
    }

    pub open spec fn spec_outcome(&self) -> Option<Outcome> {
        if self.p1.health > 0 && self.p2.health > 0 {
            None
        } else if self.p1.health > 0 {
            Some(Outcome::P1Won)
        } else if self.p2.health > 0 {
            Some(Outcome::P2Won)
        } else {
            Some(Outcome::Tie)
        }
    }

    /// `next` is this battle after a turn that left the acting battler as
    /// `actor` and its opponent as `opponent` and logged `entry`: the turn
    /// has passed to the other side and nothing else changed.
    pub open spec fn resolved_to(&self, next: Battle, actor: Player, opponent: Player, entry: Entry) -> bool {
        &&& next.p1 == if self.p1_turn { actor } else { opponent }
        &&& next.p2 == if self.p1_turn { opponent } else { actor }
        &&& next.p1_turn == !self.p1_turn
        &&& next.log.entries@ == self.log.entries@.push(entry)
        &&& next.id == self.id
        &&& next.timeout_forfeits == self.timeout_forfeits
    }

    /// `next` is this battle after an attack with `roll` and `critical`.
    pub open spec fn attacked_to(&self, next: Battle, roll: int, critical: bool) -> bool {
        let dealt = spec_attack_dealt(self.actor(), self.opponent(), roll, critical);
        self.resolved_to(
            next,
            self.actor(),
            Player { health: (self.opponent().health - dealt) as usize, ..self.opponent() },
            spec_attack_entry(self.actor(), self.opponent().name, critical, dealt),
        )
    }

    /// `next` is this battle after an attack whose roll lies in the acting
    /// weapon's range and whose critical flag agrees with a chance of zero
    /// or of one.
    pub open spec fn attacked_by_chance(&self, next: Battle) -> bool {
        let w = self.actor().weapon;
        exists|roll: int, critical: bool| {
            &&& w.damage_low <= roll <= w.damage_high
            &&& (w.crit_numerator == 0 ==> !critical)
            &&& (w.crit_numerator == w.crit_denominator ==> critical)
            &&& #[trigger] self.attacked_to(next, roll, critical)
        }
    }

    /// `next` is this battle after the acting battler used its item
    /// `item_id` with draws that lie in the item's ranges.
    pub open spec fn used_item_by_chance(&self, next: Battle, item_id: u128) -> bool {
        exists|index: int, rolls: Rolls| {
            &&& self.actor().items.items@[index].kind.rolls_in_range(rolls)
            &&& #[trigger] self.used_item_to(next, index, item_id, rolls)
        }
    }

    /// `next` is this battle after the acting battler gave up.
    pub open spec fn surrendered_to(&self, next: Battle) -> bool {
        self.resolved_to(
            next,
            Player { health: 0, ..self.actor() },
            self.opponent(),
            Entry::Surrender(self.actor().name),
        )
    }

    /// `next` is this battle after the acting battler let its turn run out.
    pub open spec fn timed_out_to(&self, next: Battle) -> bool {
        self.resolved_to(
            next,
            if self.timeout_forfeits { Player { health: 0, ..self.actor() } } else { self.actor() },
            self.opponent(),
            Entry::Timeout(self.actor().name),
        )
    }

    /// `next` is this battle after the acting battler used its item
    /// `item_id`, held at `index`, with draws `rolls`; the turn has passed.
    pub open spec fn used_item_to(&self, next: Battle, index: int, item_id: u128, rolls: Rolls) -> bool {
        let user2 = if self.p1_turn { next.p1 } else { next.p2 };
        let opponent2 = if self.p1_turn { next.p2 } else { next.p1 };
        &&& item_used(
            self.actor(),
            self.opponent(),
            user2,
            opponent2,
            self.log.entries@,
            next.log.entries@,
            index,
            item_id,
            rolls,
        )
        &&& next.p1_turn == !self.p1_turn
        &&& next.id == self.id
        &&& next.timeout_forfeits == self.timeout_forfeits
    }
}

impl Battle {
    /// A duel between `p1` and `p2` with nothing logged yet.
    pub fn with_state(id: u128, p1: Player, p2: Player, p1_turn: bool, timeout_forfeits: bool) -> (b: Battle)
        requires
            p1.wf(),
            p2.wf(),
        ensures
            b.wf(),
            b.id == id,
            b.p1 == p1,
            b.p2 == p2,
            b.p1_turn == p1_turn,
            b.timeout_forfeits == timeout_forfeits,
            b.log.entries@.len() == 0,
    {
        Battle { id, p1, p2, p1_turn, log: Log::new(), timeout_forfeits }
    }

    /// A duel between `p1` and `p2` under a new id, the first turn going to
    /// either side at random; a turn that runs out is only logged.
    pub fn new(p1: Player, p2: Player) -> (b: Battle)
        requires
            p1.wf(),
            p2.wf(),
        ensures
            b.wf(),
            b.p1 == p1,
            b.p2 == p2,
            !b.timeout_forfeits,
            b.log.entries@.len() == 0,
    {
        let id = ids::new_id();
        let p1_turn = dice::coin_flip();
        Battle::with_state(id, p1, p2, p1_turn, false)
    }

    pub fn outcome(&self) -> (r: Option<Outcome>)
        ensures
            r == self.spec_outcome(),
    {
        if self.p1.health > 0 && self.p2.health > 0 {
            None
        } else if self.p1.health > 0 {
            Some(Outcome::P1Won)
        } else if self.p2.health > 0 {
            Some(Outcome::P2Won)
        } else {
            Some(Outcome::Tie)
        }
    }

    pub fn is_over(&self) -> (r: bool)
        ensures
            r == self.concluded(),
    {
        self.p1.health == 0 || self.p2.health == 0
    }

    /// The battler whose turn it is.
    pub fn acting(&self) -> (r: &Player)
        ensures
            *r == self.actor(),
    {
        if self.p1_turn { &self.p1 } else { &self.p2 }
    }

    /// The external users taking part, first battler first.
    pub fn participants(&self) -> (r: Vec<Option<u64>>)
        ensures
            r@ == seq![self.p1.user_id, self.p2.user_id],
    {
        let r = vec![self.p1.user_id, self.p2.user_id];
        assert(r@ =~= seq![self.p1.user_id, self.p2.user_id]);
        r
    }

    /// Records this duel in `data` with both of its users, so that neither
    /// can start another one until it is finished.
    pub fn start(&self, data: &mut Data)
        requires
            old(data).wf(),
        ensures
            final(data).wf(),
            exists|users: Vec<Option<u64>>|
                users@ == seq![self.p1.user_id, self.p2.user_id]
                    && #[trigger] registered(old(data).battles@, self.id, users, final(data).battles@),
    {
        let users = self.participants();
        data.register(self.id, users);
    }

    /// Removes this duel's record from `data`.
    pub fn finish(&self, data: &mut Data)
        requires
            old(data).wf(),
        ensures
            final(data).wf(),
            deregistered(old(data).battles@, self.id, final(data).battles@),
            !seq_has_session(final(data).battles@, self.id),
    {
        data.deregister(self.id);
    }

    /// The acting battler attacks with a rolled amount, multiplied on a
    /// critical hit; the turn passes.
    pub fn attack_with(&mut self, roll: usize, critical: bool)
        requires
            old(self).wf(),
        ensures
            final(self).wf(),
            old(self).attacked_to(*final(self), roll as int, critical),
    {
        if self.p1_turn {
            strike(&self.p1, &mut self.p2, &mut self.log, roll, critical);
        } else {
            strike(&self.p2, &mut self.p1, &mut self.log, roll, critical);
        }
        self.p1_turn = !self.p1_turn;
    }

    /// The acting battler attacks: the amount is drawn from its weapon's
    /// range and the hit is critical by the weapon's chance.
    pub fn attack(&mut self)
        requires
            old(self).wf(),
        ensures
            final(self).wf(),
            old(self).attacked_by_chance(*final(self)),
    {
        let w = if self.p1_turn { &self.p1.weapon } else { &self.p2.weapon };
        let roll = dice::roll(w.damage_low, w.damage_high);
        let critical = dice::chance(w.crit_numerator, w.crit_denominator);
        self.attack_with(roll, critical);
    }

    /// The acting battler uses its item `item_id` with draws `rolls`; the
    /// turn passes. An id it does not hold is refused and nothing changes.
    pub fn use_item_with(&mut self, item_id: u128, rolls: Rolls) -> (r: Result<(), BattleError>)
        requires
            old(self).wf(),
        ensures
            final(self).wf(),
            r is Err <==> !old(self).actor().items.has(item_id),
            r is Err ==> r == Err::<(), BattleError>(BattleError::ItemNotFound) && *final(self) == *old(self),
            r is Ok ==> exists|index: int| #[trigger] old(self).used_item_to(*final(self), index, item_id, rolls),
            r is Ok ==> !final(self).side(old(self).p1_turn).items.has(item_id),
    {
        let r = if self.p1_turn {
            use_item(&mut self.p1, &mut self.p2, &mut self.log, item_id, rolls)
        } else {
            use_item(&mut self.p2, &mut self.p1, &mut self.log, item_id, rolls)
        };
        if r.is_ok() {
            let ghost mid = *self;
            self.p1_turn = !self.p1_turn;
            proof {
                let user2 = if old(self).p1_turn { mid.p1 } else { mid.p2 };
                let opponent2 = if old(self).p1_turn { mid.p2 } else { mid.p1 };
                let index = choose|i: int| #[trigger] item_used(old(self).actor(), old(self).opponent(),
                    user2, opponent2, old(self).log.entries@, mid.log.entries@, i, item_id, rolls);
                assert(old(self).used_item_to(*self, index, item_id, rolls));
            }
        }
        r
    }

    /// The acting battler uses its item `item_id`, with draws made for the
    /// item's kind; the turn passes. An id it does not hold is refused and
    /// nothing changes.
    pub fn use_item(&mut self, item_id: u128) -> (r: Result<(), BattleError>)
        requires
            old(self).wf(),
        ensures
            final(self).wf(),
            r is Err <==> !old(self).actor().items.has(item_id),
            r is Err ==> r == Err::<(), BattleError>(BattleError::ItemNotFound) && *final(self) == *old(self),
            r is Ok ==> old(self).used_item_by_chance(*final(self), item_id),
            r is Ok ==> !final(self).side(old(self).p1_turn).items.has(item_id),
    {
        let inv = if self.p1_turn { &self.p1.items } else { &self.p2.items };
        match inv.position(item_id) {
            None => Err(BattleError::ItemNotFound),
            Some(i) => {
                let kind = inv.items[i].kind;
                let rolls = kind.roll();
                let r = self.use_item_with(item_id, rolls);
                proof {
                    let index = choose|index: int| #[trigger] old(self).used_item_to(*self, index, item_id, rolls);
                    assert(old(self).actor().items.items@[index].id == item_id);
                    assert(old(self).actor().items.items@[index] == old(self).actor().items.items@[i as int]);
                    assert(old(self).actor().items.items@[index].kind.rolls_in_range(rolls));
                }
                r
            },
        }
    }

    /// Resolves the acting battler's choice from the main menu; `None`
    /// means the wait for it ran out.
    pub fn act(&mut self, choice: Option<&str>) -> (r: Result<Step, BattleError>)
        requires
            old(self).wf(),
        ensures
            final(self).wf(),
            armor_kept(*old(self), *final(self)),
            final(self).p1.max_health == old(self).p1.max_health,
            final(self).p2.max_health == old(self).p2.max_health,
            r == Ok::<Step, BattleError>(Step::Resolved) <==> final(self).p1_turn != old(self).p1_turn,
            old(self).concluded() ==> r == Err::<Step, BattleError>(BattleError::Concluded)
                && *final(self) == *old(self),
            !old(self).concluded() ==> match choice {
                None => r == Ok::<Step, BattleError>(Step::Resolved) && old(self).timed_out_to(*final(self)),
                Some(c) => match spec_parse_action(c@) {
                    None => r == Err::<Step, BattleError>(BattleError::UnknownAction) && *final(self) == *old(self),
                    Some(Action::Attack) => r == Ok::<Step, BattleError>(Step::Resolved)
                        && old(self).attacked_by_chance(*final(self)),
                    Some(Action::Surrender) => r == Ok::<Step, BattleError>(Step::Resolved)
                        && old(self).surrendered_to(*final(self)),
                    Some(Action::Item) => *final(self) == *old(self) && r == Ok::<Step, BattleError>(
                        if old(self).actor().items.items@.len() == 0 { Step::Reprompt } else { Step::ItemMenu },
                    ),
                },
            },
    {
        if self.is_over() {
            return Err(BattleError::Concluded);
        }
        match choice {
            None => {
                self.time_out();
                Ok(Step::Resolved)
            },
            Some(c) => match parse_action(c) {
                None => Err(BattleError::UnknownAction),
                Some(Action::Attack) => {
                    self.attack();
                    Ok(Step::Resolved)
                },
                Some(Action::Surrender) => {
                    self.surrender();
                    Ok(Step::Resolved)
                },
                Some(Action::Item) => {
                    if self.acting().items.is_empty() {
                        Ok(Step::Reprompt)
                    } else {
                        Ok(Step::ItemMenu)
                    }
                },
            },
        }
    }

    /// Resolves the acting battler's choice from the item menu: `choice` is
    /// what was picked (`None` when the wait ran out) and `value` the item
    /// id that came with it. Going back, or letting the wait run out,
    /// changes nothing and the main menu is shown again.
    pub fn choose_item(&mut self, choice: Option<&str>, value: Option<&str>) -> (r: Result<Step, BattleError>)
        requires
            old(self).wf(),
        ensures
            final(self).wf(),
            armor_kept(*old(self), *final(self)),
            final(self).p1.max_health == old(self).p1.max_health,
            final(self).p2.max_health == old(self).p2.max_health,
            r == Ok::<Step, BattleError>(Step::Resolved) <==> final(self).p1_turn != old(self).p1_turn,
            r is Err ==> *final(self) == *old(self),
            old(self).concluded() ==> r == Err::<Step, BattleError>(BattleError::Concluded),
            !old(self).concluded() ==> match choice {
                None => r == Ok::<Step, BattleError>(Step::Reprompt),
                Some(c) => match spec_parse_menu_choice(c@) {
                    None => r == Err::<Step, BattleError>(BattleError::UnknownAction),
                    Some(MenuChoice::Back) => r == Ok::<Step, BattleError>(Step::Reprompt),
                    Some(MenuChoice::Item) => match value {
                        None => r == Err::<Step, BattleError>(BattleError::NoValue),
                        Some(v) => match parsed_uuid(v@) {
                            None => r == Err::<Step, BattleError>(BattleError::BadItemId),
                            Some(id) => if old(self).actor().items.has(id) {
                                r == Ok::<Step, BattleError>(Step::Resolved)
                                    && old(self).used_item_by_chance(*final(self), id)
                                    && !final(self).side(old(self).p1_turn).items.has(id)
                            } else {
                                r == Err::<Step, BattleError>(BattleError::ItemNotFound)
                            },
                        },
                    },
                },
            },
            r == Ok::<Step, BattleError>(Step::Reprompt) ==> *final(self) == *old(self),
    {
        if self.is_over() {
            return Err(BattleError::Concluded);
        }
        match choice {
            None => Ok(Step::Reprompt),
            Some(c) => match parse_menu_choice(c) {
                None => Err(BattleError::UnknownAction),
                Some(MenuChoice::Back) => Ok(Step::Reprompt),
                Some(MenuChoice::Item) => match value {
                    None => Err(BattleError::NoValue),
                    Some(v) => match parse_id(v) {
                        None => Err(BattleError::BadItemId),
                        Some(id) => match self.use_item(id) {
                            Ok(()) => Ok(Step::Resolved),
                            Err(e) => Err(e),
                        },
                    },
                },
            },
        }
    }

    /// The acting battler gives up: its health drops to zero; the turn
    /// passes.
    pub fn surrender(&mut self)
        requires
            old(self).wf(),
        ensures
            final(self).wf(),
            old(self).surrendered_to(*final(self)),
    {
        if self.p1_turn {
            self.log.add(Entry::Surrender(self.p1.name.clone()));
            self.p1.set_health(0);
        } else {
            self.log.add(Entry::Surrender(self.p2.name.clone()));
            self.p2.set_health(0);
        }
        self.p1_turn = !self.p1_turn;
    }

    /// The acting battler let its turn run out: it is logged (and, where
    /// timeouts forfeit, its health drops to zero); the turn passes.
    pub fn time_out(&mut self)
        requires
            old(self).wf(),
        ensures
            final(self).wf(),
            old(self).timed_out_to(*final(self)),
    {
        if self.p1_turn {
            self.log.add(Entry::Timeout(self.p1.name.clone()));
            if self.timeout_forfeits {
                self.p1.set_health(0);
            }
        } else {
            self.log.add(Entry::Timeout(self.p2.name.clone()));
            if self.timeout_forfeits {
                self.p2.set_health(0);
            }
        }
        self.p1_turn = !self.p1_turn;
    }
}

/// A surrender ends the duel at once: the one who gave up is at zero
/// health, the other is untouched, and the other wins.
pub proof fn lemma_surrender_concludes(b: Battle, next: Battle)
    requires
        b.wf(),
        !b.concluded(),
        b.surrendered_to(next),
    ensures
        next.side(b.p1_turn).health == 0,
        next.side(!b.p1_turn) == b.opponent(),
        next.concluded(),
        next.spec_outcome() == Some(if b.p1_turn { Outcome::P2Won } else { Outcome::P1Won }),
{
}

/// Neither battler's armor is lower in `b` than in `a`: what `act` and
/// `choose_item` promise of each step.
pub open spec fn armor_kept(a: Battle, b: Battle) -> bool {
    b.p1.armor >= a.p1.armor && b.p2.armor >= a.p2.armor
}

/// Armor never falls over a session: across any run of steps, each
/// battler's armor at a later point is at least what it was earlier.
pub proof fn lemma_armor_never_falls(states: Seq<Battle>)
    requires
        forall|k: int| 0 <= k < states.len() - 1 ==> #[trigger] armor_kept(states[k], states[k + 1]),
    ensures
        forall|i: int, j: int| 0 <= i <= j < states.len() ==> #[trigger] armor_kept(states[i], states[j]),
{
    assert forall|i: int, j: int| 0 <= i <= j < states.len() implies #[trigger] armor_kept(states[i], states[j]) by {
        lemma_armor_kept_from(states, i, j);
    }
}

proof fn lemma_armor_kept_from(states: Seq<Battle>, i: int, j: int)
    requires
        forall|k: int| 0 <= k < states.len() - 1 ==> #[trigger] armor_kept(states[k], states[k + 1]),
        0 <= i <= j < states.len(),
    ensures
        armor_kept(states[i], states[j]),
    decreases j - i,
{
    if i < j {
        lemma_armor_kept_from(states, i, j - 1);
        let k = j - 1;
        assert(armor_kept(states[k], states[k + 1]));
    }
}

/// Between `a` and `b` the turn passed if `resolved`, and stayed otherwise:
/// what `act` and `choose_item` promise of each step, with `resolved`
/// standing for a step that returned `Step::Resolved`.
pub open spec fn turn_step(a: Battle, b: Battle, resolved: bool) -> bool {
    b.p1_turn == if resolved { !a.p1_turn } else { a.p1_turn }
}

/// A run of steps in which none resolved leaves the turn where it was.
pub proof fn lemma_turn_stays(states: Seq<Battle>, resolved: Seq<bool>, a: int, b: int)
    requires
        states.len() == resolved.len() + 1,
        forall|k: int| 0 <= k < resolved.len() ==> turn_step(states[k], states[k + 1], #[trigger] resolved[k]),
        0 <= a <= b < states.len(),
        forall|m: int| a <= m < b ==> !#[trigger] resolved[m],
    ensures
        states[b].p1_turn == states[a].p1_turn,
    decreases b - a,
{
    if a < b {
        lemma_turn_stays(states, resolved, a, b - 1);
        assert(!resolved[b - 1]);
        assert(turn_step(states[b - 1], states[b], resolved[b - 1]));
    }
}

/// Over any run of steps, the battlers who act in successive resolved
/// turns are on opposite sides; steps that resolve nothing (going back
/// from the item menu) do not count.
pub proof fn lemma_turns_alternate(states: Seq<Battle>, resolved: Seq<bool>)
    requires
        states.len() == resolved.len() + 1,
        forall|k: int| 0 <= k < resolved.len() ==> turn_step(states[k], states[k + 1], #[trigger] resolved[k]),
    ensures
        forall|i: int, j: int|
            0 <= i < j < resolved.len() && resolved[i] && resolved[j]
                && (forall|m: int| i < m < j ==> !#[trigger] resolved[m])
                ==> #[trigger] states[j].p1_turn != #[trigger] states[i].p1_turn,
{
    assert forall|i: int, j: int|
        0 <= i < j < resolved.len() && resolved[i] && resolved[j]
            && (forall|m: int| i < m < j ==> !#[trigger] resolved[m])
            implies #[trigger] states[j].p1_turn != #[trigger] states[i].p1_turn by {
        assert(turn_step(states[i], states[i + 1], resolved[i]));
        lemma_turn_stays(states, resolved, i + 1, j);
    }
}

} // verus!
