//! What the outside world is shown of a battler: its plain state, and the
//! segments of its health bar. Turning these into messages is left to the
//! caller.

use vstd::prelude::*;
use crate::player::Player;

verus! {

/// How many segments a health bar has.
pub const HEALTHBAR_LENGTH: usize = 6;

/// A battler's state as shown to the players.
pub struct BattlerInfo {
    pub name: String,
    pub icon: Option<String>,
    pub health: usize,
    pub max_health: usize,
    pub weapon_icon: String,
    pub weapon_name: String,
    pub armor: usize,
}

/// A battler's name, icon and rendered stats, ready to be shown.
pub struct BattlerDisplay(pub String, pub Option<String>, pub String);

/// One segment of a health bar: filled or empty, at the start, the end or
/// in between.
#[derive(Clone, Copy, Debug, PartialEq, Eq, Structural)]
pub enum Segment {
    FullStart,
    FullMiddle,
    FullEnd,
    EmptyStart,
    EmptyMiddle,
    EmptyEnd,
}

impl Segment {
    /// The name of the emoji that draws this segment.
    pub open spec fn spec_name(&self) -> &'static str {
        match self {
            Segment::FullStart => "bar_full_start",
            Segment::FullMiddle => "bar_full_middle",
            Segment::FullEnd => "bar_full_end",
            Segment::EmptyStart => "bar_empty_start",
            Segment::EmptyMiddle => "bar_empty_middle",
            Segment::EmptyEnd => "bar_empty_end",
        }
    }

    pub fn name(&self) -> (r: &'static str)
        ensures
            r == self.spec_name(),
    {
        match self {
            Segment::FullStart => "bar_full_start",
            Segment::FullMiddle => "bar_full_middle",
            Segment::FullEnd => "bar_full_end",
            Segment::EmptyStart => "bar_empty_start",
            Segment::EmptyMiddle => "bar_empty_middle",
            Segment::EmptyEnd => "bar_empty_end",
        }
    }
}

/// How many segments are filled: none at zero health, all at full health,
/// otherwise the share of health rounded down, but at least one and never
/// all.
pub open spec fn spec_filled(health: int, max_health: int) -> int {
    if health == 0 {
        0
    } else if health == max_health {
        HEALTHBAR_LENGTH as int
    } else {
        let share = (HEALTHBAR_LENGTH as int * health) / max_health;
        if share < 1 {
            1
        } else if share > HEALTHBAR_LENGTH as int - 1 {
            HEALTHBAR_LENGTH as int - 1
        } else {
            share
        }
    }
}

/// The segment at `position` of a bar with `filled` segments filled.
pub open spec fn spec_segment(position: int, filled: int) -> Segment {
    let full = position < filled;
    if position == 0 {
        if full { Segment::FullStart } else { Segment::EmptyStart }
    } else if position == HEALTHBAR_LENGTH as int - 1 {
        if full { Segment::FullEnd } else { Segment::EmptyEnd }
    } else {
        if full { Segment::FullMiddle } else { Segment::EmptyMiddle }
    }
}

pub fn filled_segments(health: usize, max_health: usize) -> (r: usize)
    requires
        0 < max_health,
        health <= max_health,
    ensures
        r == spec_filled(health as int, max_health as int),
        r <= HEALTHBAR_LENGTH,
{
    if health == 0 {
        0
    } else if health == max_health {
        HEALTHBAR_LENGTH
    } else {
        let share: u128 = (HEALTHBAR_LENGTH as u128 * health as u128) / max_health as u128;
        if share < 1 {
            1
        } else if share > (HEALTHBAR_LENGTH - 1) as u128 {
            HEALTHBAR_LENGTH - 1
        } else {
            share as usize
        }
    }
}

/// The segments of the health bar for `health` out of `max_health`, from
/// start to end.
pub fn health_bar(health: usize, max_health: usize) -> (r: Vec<Segment>)
    requires
        0 < max_health,
        health <= max_health,
    ensures
        r@.len() == HEALTHBAR_LENGTH,
        forall|i: int| 0 <= i < HEALTHBAR_LENGTH ==>
            #[trigger] r@[i] == spec_segment(i, spec_filled(health as int, max_health as int)),
{
    let filled = filled_segments(health, max_health);
    let mut r: Vec<Segment> = Vec::new();
    let mut i: usize = 0;
    while i < HEALTHBAR_LENGTH
        invariant
            i <= HEALTHBAR_LENGTH,
            filled == spec_filled(health as int, max_health as int),
            r@.len() == i,
            forall|k: int| 0 <= k < i ==> #[trigger] r@[k] == spec_segment(k, filled as int),
        decreases HEALTHBAR_LENGTH - i,
    {
        let full = i < filled;
        let seg = if i == 0 {
            if full { Segment::FullStart } else { Segment::EmptyStart }
        } else if i == HEALTHBAR_LENGTH - 1 {
            if full { Segment::FullEnd } else { Segment::EmptyEnd }
        } else {
            if full { Segment::FullMiddle } else { Segment::EmptyMiddle }
        };
        r.push(seg);
        i = i + 1;
    }
    r
}

impl Player {
    /// What is shown of this battler.
    pub fn info(&self) -> (r: BattlerInfo)
        ensures
            r.name == self.name,
            r.icon == self.icon,
            r.health == self.health,
            r.max_health == self.max_health,
            r.weapon_icon == self.weapon.icon,
            r.weapon_name == self.weapon.name,
            r.armor == self.armor,
    {
        BattlerInfo {
            name: self.name.clone(),
            icon: self.icon.clone(),
            health: self.health,
            max_health: self.max_health,
            weapon_icon: self.weapon.icon.clone(),
            weapon_name: self.weapon.name.clone(),
            armor: self.armor,
        }
    }
}

} // verus!
