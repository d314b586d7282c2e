use vstd::prelude::*;

verus! {

pub const DEFAULT_DAMAGE_LOW: usize = 10;
pub const DEFAULT_DAMAGE_HIGH: usize = 20;
pub const DEFAULT_CRIT_NUMERATOR: u32 = 2;
pub const DEFAULT_CRIT_DENOMINATOR: u32 = 100;
pub const DEFAULT_CRIT_MULTIPLIER: usize = 2;

/// A weapon: the damage roll range (inclusive), the chance of a critical hit
/// as `crit_numerator / crit_denominator`, the factor a critical hit applies,
/// and the flat amount of the target's armor it ignores.
#[derive(Clone, Debug)]
pub struct Weapon {
    pub name: String,
    pub icon: String,
    pub damage_low: usize,
    pub damage_high: usize,
    pub crit_numerator: u32,
    pub crit_denominator: u32,
    pub crit_multiplier: usize,
    pub pierce: usize,
}

/// `roll * multiplier`, held at `usize::MAX` instead of overflowing.
pub open spec fn saturating_product(roll: int, multiplier: int) -> int {
    if roll * multiplier > usize::MAX as int {
        usize::MAX as int
    } else {
        roll * multiplier
    }
}

impl Weapon {
    /// The damage range is not empty and the critical chance is a probability.
    pub open spec fn wf(&self) -> bool {
        &&& self.damage_low <= self.damage_high
        &&& 0 < self.crit_denominator
        &&& self.crit_numerator <= self.crit_denominator
    }

    /// What an attack with this weapon does before armor, for a rolled
    /// amount and whether the hit was critical.
    pub open spec fn spec_raw_damage(&self, roll: int, critical: bool) -> int {
        if critical {
            saturating_product(roll, self.crit_multiplier as int)
        } else {
            roll
        }
    }

    pub fn raw_damage(&self, roll: usize, critical: bool) -> (r: usize)
        ensures
            r == self.spec_raw_damage(roll as int, critical),
    {
        if critical {
            match roll.checked_mul(self.crit_multiplier) {
                Some(d) => d,
                None => usize::MAX,
            }
        } else {
            roll
        }
    }
}

/// The balanced weapon every other one departs from: 10 to 20 damage, a 2%
/// chance to double it, no pierce.
pub open spec fn spec_default_weapon(name: Seq<char>, icon: Seq<char>, w: Weapon) -> bool {
    &&& w.name@ == name
    &&& w.icon@ == icon
    &&& w.damage_low == DEFAULT_DAMAGE_LOW
    &&& w.damage_high == DEFAULT_DAMAGE_HIGH
    &&& w.crit_numerator == DEFAULT_CRIT_NUMERATOR
    &&& w.crit_denominator == DEFAULT_CRIT_DENOMINATOR
    &&& w.crit_multiplier == DEFAULT_CRIT_MULTIPLIER
    &&& w.pierce == 0
}

fn balanced(name: &str, icon: &str) -> (w: Weapon)
    ensures
        w.wf(),
        spec_default_weapon(name@, icon@, w),
{
    Weapon {
        name: name.to_owned(),
        icon: icon.to_owned(),
        damage_low: DEFAULT_DAMAGE_LOW,
        damage_high: DEFAULT_DAMAGE_HIGH,
        crit_numerator: DEFAULT_CRIT_NUMERATOR,
        crit_denominator: DEFAULT_CRIT_DENOMINATOR,
        crit_multiplier: DEFAULT_CRIT_MULTIPLIER,
        pierce: 0,
    }
}

impl Default for Weapon {
    /// The balanced weapon, unnamed.
    fn default() -> (w: Weapon)
        ensures
            w.wf(),
            spec_default_weapon(""@, "\u{2694}"@, w),
    {
        balanced("", "\u{2694}")
    }
}

/// A plain balanced blade that lands critical hits more often.
pub struct Sword;

/// Slow and heavy: a higher damage range.
pub struct Hammer;

/// The balanced weapon, but it ignores some of the target's armor.
pub struct Spear;

pub const SWORD_CRIT_NUMERATOR: u32 = 5;
pub const HAMMER_DAMAGE_LOW: usize = 15;
pub const HAMMER_DAMAGE_HIGH: usize = 30;
pub const SPEAR_PIERCE: usize = 5;

impl Sword {
    pub fn new() -> (r: Sword)
        ensures
            r == Sword,
    {
        Sword
    }

    pub fn name(&self) -> (r: &'static str)
        ensures
            r == "Sword",
    {
        "Sword"
    }

    pub fn icon(&self) -> (r: &'static str)
        ensures
            r == "\u{2694}",
    {
        "\u{2694}"
    }

    /// The balanced weapon with a 5% critical chance.
    pub fn weapon(&self) -> (w: Weapon)
        ensures
            w.wf(),
            spec_default_weapon("Sword"@, "\u{2694}"@, Weapon { crit_numerator: DEFAULT_CRIT_NUMERATOR, ..w }),
            w.crit_numerator == SWORD_CRIT_NUMERATOR,
    {
        let mut w = balanced(self.name(), self.icon());
        w.crit_numerator = SWORD_CRIT_NUMERATOR;
        w
    }
}

impl Hammer {
    pub fn new() -> (r: Hammer)
        ensures
            r == Hammer,
    {
        Hammer
    }

    pub fn name(&self) -> (r: &'static str)
        ensures
            r == "Hammer",
    {
        "Hammer"
    }

    pub fn icon(&self) -> (r: &'static str)
        ensures
            r == "\u{1F528}",
    {
        "\u{1F528}"
    }

    /// The balanced weapon rolling 15 to 30 damage.
    pub fn weapon(&self) -> (w: Weapon)
        ensures
            w.wf(),
            spec_default_weapon(
                "Hammer"@,
                "\u{1F528}"@,
                Weapon { damage_low: DEFAULT_DAMAGE_LOW, damage_high: DEFAULT_DAMAGE_HIGH, ..w },
            ),
            w.damage_low == HAMMER_DAMAGE_LOW,
            w.damage_high == HAMMER_DAMAGE_HIGH,
    {
        let mut w = balanced(self.name(), self.icon());
        w.damage_low = HAMMER_DAMAGE_LOW;
        w.damage_high = HAMMER_DAMAGE_HIGH;
        w
    }
}

impl Spear {
    pub fn new() -> (r: Spear)
        ensures
            r == Spear,
    {
        Spear
    }

    pub fn name(&self) -> (r: &'static str)
        ensures
            r == "Spear",
    {
        "Spear"
    }

    pub fn icon(&self) -> (r: &'static str)
        ensures
            r == "\u{2694}",
    {
        "\u{2694}"
    }

    pub fn pierce(&self) -> (r: usize)
        ensures
            r == SPEAR_PIERCE,
    {
        SPEAR_PIERCE
    }

    /// The balanced weapon with a pierce of 5.
    pub fn weapon(&self) -> (w: Weapon)
        ensures
            w.wf(),
            spec_default_weapon("Spear"@, "\u{2694}"@, Weapon { pierce: 0, ..w }),
            w.pierce == SPEAR_PIERCE,
    {
        let mut w = balanced(self.name(), self.icon());
        w.pierce = self.pierce();
        w
    }
}

/// One end of a stored damage range.
#[derive(Clone, Copy, Debug, PartialEq, Eq, Structural)]
pub enum RangeBound {
    Included(i32),
    Excluded(i32),
    Unbounded,
}

/// Why a stored weapon record cannot be used.
#[derive(Clone, Copy, Debug, PartialEq, Eq, Structural)]
pub enum WeaponError {
    /// The damage range has no lower or no upper end.
    OpenRange,
    /// The damage range holds no value.
    EmptyRange,
    /// The critical chance has a zero denominator or exceeds one.
    BadCritChance,
}

/// The least value at or above a lower end, held at zero.
pub open spec fn spec_lower(b: RangeBound) -> int {
    match b {
        RangeBound::Included(l) => if l < 0 { 0 } else { l as int },
        RangeBound::Excluded(l) => if l as int + 1 > i32::MAX { i32::MAX as int }
            else if l as int + 1 < 0 { 0 } else { l as int + 1 },
        RangeBound::Unbounded => 0,
    }
}

/// The greatest value at or below an upper end, held at zero.
pub open spec fn spec_upper(b: RangeBound) -> int {
    match b {
        RangeBound::Included(h) => if h < 0 { 0 } else { h as int },
        RangeBound::Excluded(h) => if h as int - 1 < 0 { 0 } else { h as int - 1 },
        RangeBound::Unbounded => 0,
    }
}

fn lower_end(b: RangeBound) -> (r: usize)
    ensures
        r == spec_lower(b),
{
    let v: i32 = match b {
        RangeBound::Included(l) => l,
        RangeBound::Excluded(l) => if l == i32::MAX { l } else { l + 1 },
        RangeBound::Unbounded => 0,
    };
    if v < 0 { 0 } else { v as usize }
}

fn upper_end(b: RangeBound) -> (r: usize)
    ensures
        r == spec_upper(b),
{
    let v: i32 = match b {
        RangeBound::Included(h) => h,
        RangeBound::Excluded(h) => if h == i32::MIN { h } else { h - 1 },
        RangeBound::Unbounded => 0,
    };
    if v < 0 { 0 } else { v as usize }
}

/// A stored integer setting held at zero, or `default` when absent.
pub open spec fn spec_setting(v: Option<i32>, default: int) -> int {
    match v {
        Some(x) => if x < 0 { 0 } else { x as int },
        None => default,
    }
}

fn setting(v: Option<i32>, default: usize) -> (r: usize)
    ensures
        r == spec_setting(v, default as int),
{
    match v {
        Some(x) => if x < 0 { 0 } else { x as usize },
        None => default,
    }
}

/// What is wrong with a stored damage range, if anything.
pub open spec fn spec_range_error(r: Option<(RangeBound, RangeBound)>) -> Option<WeaponError> {
    match r {
        Some((lo, hi)) => if lo is Unbounded || hi is Unbounded {
            Some(WeaponError::OpenRange)
        } else if spec_lower(lo) > spec_upper(hi) {
            Some(WeaponError::EmptyRange)
        } else {
            None
        },
        None => None,
    }
}

pub open spec fn spec_crit_chance_valid(c: Option<(u32, u32)>) -> bool {
    match c {
        Some((n, d)) => d != 0 && n <= d,
        None => true,
    }
}

impl Weapon {
    /// Builds a weapon from a stored record. A missing range is 10 to 20, a
    /// missing critical chance 2 in 100, a missing multiplier 2 and a
    /// missing pierce 0; negative numbers count as zero and excluded ends
    /// step inward by one.
    pub fn from_record(
        name: String,
        icon: String,
        damage_range: Option<(RangeBound, RangeBound)>,
        crit_chance: Option<(u32, u32)>,
        crit_multiplier: Option<i32>,
        pierce: Option<i32>,
    ) -> (r: Result<Weapon, WeaponError>)
        ensures
            spec_range_error(damage_range) matches Some(e) ==> r == Err::<Weapon, WeaponError>(e),
            spec_range_error(damage_range) is None && !spec_crit_chance_valid(crit_chance)
                ==> r == Err::<Weapon, WeaponError>(WeaponError::BadCritChance),
            spec_range_error(damage_range) is None && spec_crit_chance_valid(crit_chance) ==> r is Ok,
            r matches Ok(w) ==> {
                &&& w.wf()
                &&& w.name == name
                &&& w.icon == icon
                &&& match damage_range {
                    Some((lo, hi)) => w.damage_low == spec_lower(lo) && w.damage_high == spec_upper(hi),
                    None => w.damage_low == DEFAULT_DAMAGE_LOW && w.damage_high == DEFAULT_DAMAGE_HIGH,
                }
                &&& match crit_chance {
                    Some((n, d)) => w.crit_numerator == n && w.crit_denominator == d,
                    None => w.crit_numerator == DEFAULT_CRIT_NUMERATOR
                        && w.crit_denominator == DEFAULT_CRIT_DENOMINATOR,
                }
                &&& w.crit_multiplier == spec_setting(crit_multiplier, DEFAULT_CRIT_MULTIPLIER as int)
                &&& w.pierce == spec_setting(pierce, 0)
            },
    {
        let (damage_low, damage_high) = match damage_range {
            Some((lo, hi)) => {
                if matches!(lo, RangeBound::Unbounded) || matches!(hi, RangeBound::Unbounded) {
                    return Err(WeaponError::OpenRange);
                }
                let low = lower_end(lo);
                let high = upper_end(hi);
                if low > high {
                    return Err(WeaponError::EmptyRange);
                }
                (low, high)
            },
            None => (DEFAULT_DAMAGE_LOW, DEFAULT_DAMAGE_HIGH),
        };
        let (crit_numerator, crit_denominator) = match crit_chance {
            Some((n, d)) => {
                if d == 0 || n > d {
                    return Err(WeaponError::BadCritChance);
                }
                (n, d)
            },
            None => (DEFAULT_CRIT_NUMERATOR, DEFAULT_CRIT_DENOMINATOR),
        };
        Ok(Weapon {
            name,
            icon,
            damage_low,
            damage_high,
            crit_numerator,
            crit_denominator,
            crit_multiplier: setting(crit_multiplier, DEFAULT_CRIT_MULTIPLIER),
            pierce: setting(pierce, 0),
        })
    }
}

} // verus!
