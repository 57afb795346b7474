//! Durable player state: stats, inventory, known spells, world flags.
//!
//! `Progress` carries everything the player accumulates across a play
//! session.  Its well-formedness invariant pins current hp/mp into
//! `[0, max]`, item stacks into `[0, 9]`, and keeps the equipped weapon and
//! armor bonuses consistent with the attack and defense stats.

use vstd::prelude::*;
use vstd::string::StringExecFns;

verus! {

/// Upper bound on any single stat (hp, mp, attack, defense).
pub const STAT_LIMIT: i32 = 10000;

/// Upper bound on the attack or defense value of a single piece of gear.
pub const GEAR_CAP: i32 = 9000;

/// Largest stack of one consumable item.
pub const ITEM_MAX: i32 = 9;

/// Level at which experience stops counting toward the next level.
pub const MAX_LEVEL: i32 = 99;

/// Saturation point of the unspent experience counter.
pub const EXP_CAP: i64 = 1000000000;

/// Largest experience reward a single enemy may carry.
pub const EXP_REWARD_CAP: i64 = 100000;

/// A consumable carried in one of the four inventory slots.
#[derive(Clone, Copy, Debug, PartialEq, Eq, Structural)]
pub enum Item {
    Salve,
    XSalve,
    Tonic,
    XTonic,
}

/// A spell carried in one of the four magic slots.
#[derive(Clone, Copy, Debug, PartialEq, Eq, Structural)]
pub enum Magic {
    Heal,
    EarthEdge,
    WaterEdge,
    FireEdge,
}

/// The magic-point price of casting a spell.
pub open spec fn spec_mp_cost(magic: Magic) -> int {
    match magic {
        Magic::Heal => 5,
        Magic::EarthEdge => 2,
        Magic::WaterEdge => 2,
        Magic::FireEdge => 2,
    }
}

impl Magic {
    /// Magic points spent when this spell is cast.
    pub fn mp_cost(self) -> (r: i32)
        ensures
            r == spec_mp_cost(self),
            1 <= r <= 5,
    {
        match self {
            Magic::Heal => 5,
            Magic::EarthEdge => 2,
            Magic::WaterEdge => 2,
            Magic::FireEdge => 2,
        }
    }

    /// Display name of the spell.
    pub fn name(self) -> (r: &'static str)
        ensures
            self == Magic::Heal ==> r@ == "Heal"@,
            self == Magic::EarthEdge ==> r@ == "EarthEdge"@,
            self == Magic::WaterEdge ==> r@ == "WaterEdge"@,
            self == Magic::FireEdge ==> r@ == "FireEdge"@,
    {
        match self {
            Magic::Heal => "Heal",
            Magic::EarthEdge => "EarthEdge",
            Magic::WaterEdge => "WaterEdge",
            Magic::FireEdge => "FireEdge",
        }
    }
}

/// The inventory slot that holds the given item kind.
pub open spec fn spec_item_slot(item: Item) -> int {
    match item {
        Item::Salve => 0,
        Item::Tonic => 1,
        Item::XSalve => 2,
        Item::XTonic => 3,
    }
}

impl Item {
    /// Display name of the item.
    pub fn name(self) -> (r: &'static str)
        ensures
            self == Item::Salve ==> r@ == "Salve"@,
            self == Item::XSalve ==> r@ == "XSalve"@,
            self == Item::Tonic ==> r@ == "Tonic"@,
            self == Item::XTonic ==> r@ == "XTonic"@,
    {
        match self {
            Item::Salve => "Salve",
            Item::XSalve => "XSalve",
            Item::Tonic => "Tonic",
            Item::XTonic => "XTonic",
        }
    }

    /// The inventory slot that holds this item kind.
    pub fn slot(self) -> (r: usize)
        ensures
            r == spec_item_slot(self),
            r < 4,
    {
        match self {
            Item::Salve => 0,
            Item::Tonic => 1,
            Item::XSalve => 2,
            Item::XTonic => 3,
        }
    }
}

/// An equippable weapon with its attack bonus.
#[derive(Clone, Debug)]
pub struct Weapon {
    pub name: String,
    pub attack: i32,
}

/// An equippable armor with its defense bonus.
#[derive(Clone, Debug)]
pub struct Armor {
    pub name: String,
    pub defense: i32,
}

/// One inventory slot: an item kind and how many of it are carried.
#[derive(Clone, Copy, Debug)]
pub struct ItemSlot {
    pub item: Item,
    pub amount: i32,
}

/// One magic slot: a spell and whether it has been learned.
#[derive(Clone, Copy, Debug)]
pub struct MagicSlot {
    pub magic: Magic,
    pub known: bool,
}

/// Durable player state.
pub struct Progress {
    pub hp: i32,
    pub max_hp: i32,
    pub mp: i32,
    pub max_mp: i32,
    pub attack: i32,
    pub defense: i32,
    pub level: i32,
    pub exp: i64,
    pub base_exp: i64,
    pub weapon: Option<Weapon>,
    pub armor: Option<Armor>,
    pub items: Vec<ItemSlot>,
    pub magic: Vec<MagicSlot>,
    pub earth_defeated: bool,
    pub water_defeated: bool,
    pub fire_defeated: bool,
    pub collected_chests: Vec<u32>,
    pub turned_levers: Vec<u32>,
    pub steps: u32,
}

/// The player state a new game starts from.
pub open spec fn spec_fresh_progress(p: Progress) -> bool {
    &&& p.hp == 20 && p.max_hp == 20
    &&& p.mp == 10 && p.max_mp == 10
    &&& p.attack == 5 && p.defense == 5
    &&& p.level == 1 && p.exp == 0 && p.base_exp == 0
    &&& p.weapon is None && p.armor is None
    &&& p.spec_item_count(Item::Salve) == 0 && p.spec_item_count(Item::Tonic) == 0
    &&& p.spec_item_count(Item::XSalve) == 0 && p.spec_item_count(Item::XTonic) == 0
    &&& !p.spec_knows(Magic::Heal) && !p.spec_knows(Magic::EarthEdge)
    &&& !p.spec_knows(Magic::WaterEdge) && !p.spec_knows(Magic::FireEdge)
    &&& !p.earth_defeated && !p.water_defeated && !p.fire_defeated
    &&& p.collected_chests@ == Seq::<u32>::empty()
    &&& p.turned_levers@ == Seq::<u32>::empty()
    &&& p.steps == 0
}

/// Experience needed to go from `level` to the next one, if any.
pub open spec fn spec_next_exp(level: int) -> Option<int> {
    if level >= MAX_LEVEL {
        None
    } else {
        Some(10 * level)
    }
}

/// Level and unspent experience after all level-ups the given experience pays for.
pub open spec fn spec_levels_after(level: int, exp: int) -> (int, int)
    recommends
        1 <= level <= MAX_LEVEL,
        0 <= exp,
    decreases MAX_LEVEL - level when 1 <= level <= MAX_LEVEL && 0 <= exp
{
    if level < MAX_LEVEL && exp >= 10 * level {
        spec_levels_after(level + 1, exp - 10 * level)
    } else {
        (level, exp)
    }
}

impl Progress {
    /// The attack bonus of the equipped weapon, or zero.
    pub open spec fn spec_weapon_bonus(self) -> int {
        match self.weapon {
            Some(w) => w.attack as int,
            None => 0,
        }
    }

    /// The defense bonus of the equipped armor, or zero.
    pub open spec fn spec_armor_bonus(self) -> int {
        match self.armor {
            Some(a) => a.defense as int,
            None => 0,
        }
    }

    /// How many of the given item are carried.
    pub open spec fn spec_item_count(self, item: Item) -> int {
        self.items@[spec_item_slot(item)].amount as int
    }

    /// Whether the given spell has been learned.
    pub open spec fn spec_knows(self, magic: Magic) -> bool {
        self.magic@[spec_magic_slot(magic)].known
    }

    /// Well-formedness: every stat in range, the inventory and magic slots in
    /// their canonical order, and gear bonuses consistent with the stats.
    pub open spec fn wf(self) -> bool {
        &&& 0 <= self.hp <= self.max_hp <= STAT_LIMIT
        &&& 0 <= self.mp <= self.max_mp <= STAT_LIMIT
        &&& 1 <= self.max_hp
        &&& 0 <= self.attack <= STAT_LIMIT
        &&& 0 <= self.defense <= STAT_LIMIT
        &&& 1 <= self.level <= MAX_LEVEL
        &&& 0 <= self.exp <= EXP_CAP
        &&& 0 <= self.base_exp <= 5 * self.level * (self.level - 1)
        &&& self.items.len() == 4
        &&& (forall|i: int| 0 <= i < 4 ==> 0 <= (#[trigger] self.items@[i]).amount <= ITEM_MAX)
        &&& self.items@[0].item == Item::Salve
        &&& self.items@[1].item == Item::Tonic
        &&& self.items@[2].item == Item::XSalve
        &&& self.items@[3].item == Item::XTonic
        &&& self.magic.len() == 4
        &&& self.magic@[0].magic == Magic::Heal
        &&& self.magic@[1].magic == Magic::EarthEdge
        &&& self.magic@[2].magic == Magic::WaterEdge
        &&& self.magic@[3].magic == Magic::FireEdge
        &&& (forall|i: int, j: int|
            0 <= i < j < self.turned_levers@.len() ==> self.turned_levers@[i]
                != self.turned_levers@[j])
        &&& (forall|i: int, j: int|
            0 <= i < j < self.collected_chests@.len() ==> self.collected_chests@[i]
                != self.collected_chests@[j])
        &&& self.spec_weapon_bonus() <= self.attack
        &&& self.attack - self.spec_weapon_bonus() <= 2 * self.level + 3
        &&& 0 <= self.spec_weapon_bonus() <= GEAR_CAP
        &&& self.spec_armor_bonus() <= self.defense
        &&& self.defense - self.spec_armor_bonus() <= 2 * self.level + 3
        &&& 0 <= self.spec_armor_bonus() <= GEAR_CAP
    }

    /// Player state at the start of a new game.
    pub fn new() -> (r: Progress)
        ensures
            r.wf(),
            spec_fresh_progress(r),
            r.hp == 20 && r.max_hp == 20,
            r.mp == 10 && r.max_mp == 10,
            r.attack == 5 && r.defense == 5,
            r.level == 1 && r.exp == 0 && r.base_exp == 0,
            r.weapon is None && r.armor is None,
            r.spec_item_count(Item::Salve) == 0 && r.spec_item_count(Item::Tonic) == 0,
            r.spec_item_count(Item::XSalve) == 0 && r.spec_item_count(Item::XTonic) == 0,
            !r.spec_knows(Magic::Heal) && !r.spec_knows(Magic::EarthEdge),
            !r.spec_knows(Magic::WaterEdge) && !r.spec_knows(Magic::FireEdge),
            !r.earth_defeated && !r.water_defeated && !r.fire_defeated,
            r.collected_chests@ =~= Seq::<u32>::empty(),
            r.turned_levers@ =~= Seq::<u32>::empty(),
    {
        let mut items: Vec<ItemSlot> = Vec::new();
        items.push(ItemSlot { item: Item::Salve, amount: 0 });
        items.push(ItemSlot { item: Item::Tonic, amount: 0 });
        items.push(ItemSlot { item: Item::XSalve, amount: 0 });
        items.push(ItemSlot { item: Item::XTonic, amount: 0 });
        let mut magic: Vec<MagicSlot> = Vec::new();
        magic.push(MagicSlot { magic: Magic::Heal, known: false });
        magic.push(MagicSlot { magic: Magic::EarthEdge, known: false });
        magic.push(MagicSlot { magic: Magic::WaterEdge, known: false });
        magic.push(MagicSlot { magic: Magic::FireEdge, known: false });
        let r = Progress {
            hp: 20,
            max_hp: 20,
            mp: 10,
            max_mp: 10,
            attack: 5,
            defense: 5,
            level: 1,
            exp: 0,
            base_exp: 0,
            weapon: None,
            armor: None,
            items,
            magic,
            earth_defeated: false,
            water_defeated: false,
            fire_defeated: false,
            collected_chests: Vec::new(),
            turned_levers: Vec::new(),
            steps: 0,
        };
        r
    }

    /// Experience still needed to reach the next level, if there is one.
    pub fn next_exp(&self) -> (r: Option<i64>)
        requires
            self.wf(),
        ensures
            match spec_next_exp(self.level as int) {
                Some(t) => r == Some(t as i64),
                None => r is None,
            },
    {
        if self.level >= MAX_LEVEL {
            None
        } else {
            Some(10 * (self.level as i64))
        }
    }

    /// Raise the level by one, lifting the stat caps; hp/mp are unchanged.
    pub fn gain_level(&mut self)
        requires
            old(self).wf(),
            old(self).level < MAX_LEVEL,
        ensures
            final(self).wf(),
            final(self).level == old(self).level + 1,
            final(self).max_hp == spec_capped(old(self).max_hp + 5),
            final(self).max_mp == spec_capped(old(self).max_mp + 2),
            final(self).attack == spec_capped(old(self).attack + 2),
            final(self).defense == spec_capped(old(self).defense + 2),
            final(self).hp == old(self).hp && final(self).mp == old(self).mp,
            final(self).exp == old(self).exp && final(self).base_exp == old(self).base_exp,
            final(self).weapon == old(self).weapon && final(self).armor == old(self).armor,
            final(self).items@ == old(self).items@ && final(self).magic@ == old(self).magic@,
            final(self).earth_defeated == old(self).earth_defeated,
            final(self).water_defeated == old(self).water_defeated,
            final(self).fire_defeated == old(self).fire_defeated,
            final(self).collected_chests@ == old(self).collected_chests@,
            final(self).turned_levers@ == old(self).turned_levers@,
    {
        let ghost prior_exp = self.base_exp as int;
        let ghost prior_level = self.level as int;
        self.level = self.level + 1;
        self.max_hp = capped(self.max_hp + 5);
        self.max_mp = capped(self.max_mp + 2);
        self.attack = capped(self.attack + 2);
        self.defense = capped(self.defense + 2);
        proof {
            assert(self.base_exp <= 5 * self.level * (self.level - 1)) by (nonlinear_arith)
                requires
                    self.base_exp == prior_exp,
                    prior_exp <= 5 * prior_level * (prior_level - 1),
                    self.level == prior_level + 1,
                    prior_level >= 1,
            ;
        }
    }

    /// One step of the leveling loop: spend the next threshold if the
    /// unspent experience covers it.
    pub fn gain_level_from_exp(&mut self) -> (leveled: bool)
        requires
            old(self).wf(),
        ensures
            final(self).wf(),
            leveled == (old(self).level < MAX_LEVEL && old(self).exp >= 10 * old(self).level),
            leveled ==> {
                &&& final(self).level == old(self).level + 1
                &&& final(self).exp == old(self).exp - 10 * old(self).level
                &&& final(self).base_exp == old(self).base_exp + 10 * old(self).level
                &&& final(self).max_hp == spec_capped(old(self).max_hp + 5)
                &&& final(self).max_mp == spec_capped(old(self).max_mp + 2)
                &&& final(self).attack == spec_capped(old(self).attack + 2)
                &&& final(self).defense == spec_capped(old(self).defense + 2)
            },
            !leveled ==> *final(self) == *old(self),
            final(self).base_exp + final(self).exp == old(self).base_exp + old(self).exp,
            final(self).hp == old(self).hp && final(self).mp == old(self).mp,
            final(self).weapon == old(self).weapon && final(self).armor == old(self).armor,
            final(self).items@ == old(self).items@ && final(self).magic@ == old(self).magic@,
            spec_levels_after(final(self).level as int, final(self).exp as int)
                == spec_levels_after(old(self).level as int, old(self).exp as int),
    {
        let ghost prior_exp = self.base_exp as int;
        let ghost prior_level = self.level as int;
        if self.level < MAX_LEVEL && self.exp >= 10 * (self.level as i64) {
            let threshold = 10 * (self.level as i64);
            self.gain_level();
            proof {
                assert(self.base_exp <= 5 * 99 * 98) by (nonlinear_arith)
                    requires
                        self.base_exp <= 5 * self.level * (self.level - 1),
                        1 <= self.level <= 99,
                ;
            }
            self.exp = self.exp - threshold;
            self.base_exp = self.base_exp + threshold;
            proof {
                assert(self.base_exp <= 5 * self.level * (self.level - 1)) by (nonlinear_arith)
                    requires
                        self.base_exp == prior_exp + 10 * prior_level,
                        prior_exp <= 5 * prior_level * (prior_level - 1),
                        self.level == prior_level + 1,
                        prior_level >= 1,
                ;
            }
            true
        } else {
            false
        }
    }

    /// Add an experience reward, saturating at the counter's cap.
    pub fn add_exp(&mut self, amount: i64)
        requires
            old(self).wf(),
            0 <= amount <= EXP_REWARD_CAP,
        ensures
            final(self).wf(),
            final(self).exp == if old(self).exp + amount <= EXP_CAP {
                old(self).exp + amount
            } else {
                EXP_CAP as int
            },
            *final(self) == (Progress { exp: final(self).exp, ..*old(self) }),
    {
        if self.exp + amount <= EXP_CAP {
            self.exp = self.exp + amount;
        } else {
            self.exp = EXP_CAP;
        }
    }
}

/// A stat raised past the limit stops at the limit.
pub open spec fn spec_capped(v: int) -> int {
    if v <= STAT_LIMIT {
        v
    } else {
        STAT_LIMIT as int
    }
}

/// Clamp a raised stat to the stat limit.
pub fn capped(v: i32) -> (r: i32)
    requires
        0 <= v,
    ensures
        r == spec_capped(v as int),
{
    if v <= STAT_LIMIT {
        v
    } else {
        STAT_LIMIT
    }
}

/// The magic slot that holds the given spell.
pub open spec fn spec_magic_slot(magic: Magic) -> int {
    match magic {
        Magic::Heal => 0,
        Magic::EarthEdge => 1,
        Magic::WaterEdge => 2,
        Magic::FireEdge => 3,
    }
}

impl Magic {
    /// The magic slot that holds this spell.
    pub fn slot(self) -> (r: usize)
        ensures
            r == spec_magic_slot(self),
            r < 4,
    {
        match self {
            Magic::Heal => 0,
            Magic::EarthEdge => 1,
            Magic::WaterEdge => 2,
            Magic::FireEdge => 3,
        }
    }
}

/// Hit points restored by a Salve: 30% of max, rounded up.
pub open spec fn spec_salve_heal(max_hp: int) -> int {
    (max_hp * 3 + 9) / 10
}

/// Magic points restored by a Tonic: 30% of max, rounded up.
pub open spec fn spec_tonic_heal(max_mp: int) -> int {
    (max_mp * 3 + 9) / 10
}

/// Hit points restored by the Heal spell: half of max, rounded up.
pub open spec fn spec_heal_spell(max_hp: int) -> int {
    (max_hp + 1) / 2
}

/// Hit points a Salve restores at the given cap.
pub fn salve_heal(max_hp: i32) -> (r: i32)
    requires
        0 <= max_hp <= STAT_LIMIT,
    ensures
        r == spec_salve_heal(max_hp as int),
        0 <= r <= STAT_LIMIT,
{
    (max_hp * 3 + 9) / 10
}

/// Magic points a Tonic restores at the given cap.
pub fn tonic_heal(max_mp: i32) -> (r: i32)
    requires
        0 <= max_mp <= STAT_LIMIT,
    ensures
        r == spec_tonic_heal(max_mp as int),
        0 <= r <= STAT_LIMIT,
{
    (max_mp * 3 + 9) / 10
}

/// Hit points the Heal spell restores at the given cap.
pub fn heal_spell_amount(max_hp: i32) -> (r: i32)
    requires
        0 <= max_hp <= STAT_LIMIT,
    ensures
        r == spec_heal_spell(max_hp as int),
        0 <= r <= STAT_LIMIT,
{
    (max_hp + 1) / 2
}

/// Whether a sequence of identifiers lists the given one.
pub fn ids_contain(v: &Vec<u32>, x: u32) -> (r: bool)
    ensures
        r == v@.contains(x),
{
    let mut i: usize = 0;
    while i < v.len()
        invariant
            0 <= i <= v.len(),
            forall|k: int| 0 <= k < i ==> v@[k] != x,
        decreases v.len() - i,
    {
        if v[i] == x {
            return true;
        }
        i = i + 1;
    }
    false
}

impl Progress {
    /// Restore hit points, clamped at the cap.
    pub fn heal_hp(&mut self, amount: i32)
        requires
            old(self).wf(),
            0 <= amount <= STAT_LIMIT,
        ensures
            final(self).wf(),
            final(self).hp == if old(self).hp + amount <= old(self).max_hp {
                old(self).hp + amount
            } else {
                old(self).max_hp as int
            },
            *final(self) == (Progress { hp: final(self).hp, ..*old(self) }),
    {
        if self.hp + amount <= self.max_hp {
            self.hp = self.hp + amount;
        } else {
            self.hp = self.max_hp;
        }
    }

    /// Restore magic points, clamped at the cap.
    pub fn heal_mp(&mut self, amount: i32)
        requires
            old(self).wf(),
            0 <= amount <= STAT_LIMIT,
        ensures
            final(self).wf(),
            final(self).mp == if old(self).mp + amount <= old(self).max_mp {
                old(self).mp + amount
            } else {
                old(self).max_mp as int
            },
            *final(self) == (Progress { mp: final(self).mp, ..*old(self) }),
    {
        if self.mp + amount <= self.max_mp {
            self.mp = self.mp + amount;
        } else {
            self.mp = self.max_mp;
        }
    }

    /// Take damage, never dropping below zero hit points.
    pub fn damage_hp(&mut self, amount: i32)
        requires
            old(self).wf(),
            0 <= amount,
        ensures
            final(self).wf(),
            final(self).hp == if amount <= old(self).hp {
                old(self).hp - amount
            } else {
                0
            },
            *final(self) == (Progress { hp: final(self).hp, ..*old(self) }),
    {
        if amount <= self.hp {
            self.hp = self.hp - amount;
        } else {
            self.hp = 0;
        }
    }

    /// Pay the magic-point price of a spell.
    pub fn spend_mp(&mut self, cost: i32)
        requires
            old(self).wf(),
            0 <= cost <= old(self).mp,
        ensures
            final(self).wf(),
            final(self).mp == old(self).mp - cost,
            *final(self) == (Progress { mp: final(self).mp, ..*old(self) }),
    {
        self.mp = self.mp - cost;
    }

    /// Mark a spell as learned.
    pub fn learn_magic(&mut self, magic: Magic)
        requires
            old(self).wf(),
        ensures
            final(self).wf(),
            final(self).spec_knows(magic),
            forall|m: Magic| m != magic ==> final(self).spec_knows(m) == old(self).spec_knows(m),
            *final(self) == (Progress { magic: final(self).magic, ..*old(self) }),
    {
        let slot = magic.slot();
        let entry = self.magic[slot];
        self.magic[slot] = MagicSlot { known: true, ..entry };
        proof {
            assert forall|m: Magic| m != magic implies self.spec_knows(m) == old(
                self,
            ).spec_knows(m) by {
                assert(spec_magic_slot(m) != spec_magic_slot(magic)) by {
                    match m {
                        Magic::Heal => {},
                        Magic::EarthEdge => {},
                        Magic::WaterEdge => {},
                        Magic::FireEdge => {},
                    }
                }
            }
        }
    }

    /// Add up to `n` of an item, stopping at the stack cap; how many were
    /// actually given is returned.
    pub fn maybe_give_items(&mut self, item: Item, n: i32) -> (given: i32)
        requires
            old(self).wf(),
            0 <= n <= ITEM_MAX,
        ensures
            final(self).wf(),
            given == if old(self).spec_item_count(item) + n <= ITEM_MAX {
                n as int
            } else {
                ITEM_MAX - old(self).spec_item_count(item)
            },
            final(self).spec_item_count(item) == old(self).spec_item_count(item) + given,
            forall|other: Item|
                other != item ==> final(self).spec_item_count(other) == old(
                    self,
                ).spec_item_count(other),
            *final(self) == (Progress { items: final(self).items, ..*old(self) }),
    {
        let slot = item.slot();
        let entry = self.items[slot];
        let given = if entry.amount + n <= ITEM_MAX {
            n
        } else {
            ITEM_MAX - entry.amount
        };
        self.items[slot] = ItemSlot { amount: entry.amount + given, ..entry };
        proof {
            assert forall|other: Item| other != item implies self.spec_item_count(other) == old(
                self,
            ).spec_item_count(other) by {
                assert(spec_item_slot(other) != spec_item_slot(item)) by {
                    match other {
                        Item::Salve => {},
                        Item::XSalve => {},
                        Item::Tonic => {},
                        Item::XTonic => {},
                    }
                }
            }
        }
        given
    }

    /// Spend one of an item.
    pub fn consume_item(&mut self, item: Item)
        requires
            old(self).wf(),
            old(self).spec_item_count(item) >= 1,
        ensures
            final(self).wf(),
            final(self).spec_item_count(item) == old(self).spec_item_count(item) - 1,
            forall|other: Item|
                other != item ==> final(self).spec_item_count(other) == old(
                    self,
                ).spec_item_count(other),
            *final(self) == (Progress { items: final(self).items, ..*old(self) }),
    {
        let slot = item.slot();
        let entry = self.items[slot];
        self.items[slot] = ItemSlot { amount: entry.amount - 1, ..entry };
        proof {
            assert forall|other: Item| other != item implies self.spec_item_count(other) == old(
                self,
            ).spec_item_count(other) by {
                assert(spec_item_slot(other) != spec_item_slot(item)) by {
                    match other {
                        Item::Salve => {},
                        Item::XSalve => {},
                        Item::Tonic => {},
                        Item::XTonic => {},
                    }
                }
            }
        }
    }

    /// Equip the offered weapon if its bonus beats the current one; the
    /// attack stat rises by the difference, which is returned.
    pub fn maybe_upgrade_weapon(&mut self, name: &str, attack: i32) -> (boost: Option<i32>)
        requires
            old(self).wf(),
            1 <= attack <= GEAR_CAP,
        ensures
            final(self).wf(),
            boost is Some <==> attack > old(self).spec_weapon_bonus(),
            boost matches Some(b) ==> {
                &&& b == attack - old(self).spec_weapon_bonus()
                &&& final(self).attack == old(self).attack + b
                &&& final(self).spec_weapon_bonus() == attack
                &&& (final(self).weapon matches Some(w) && w.name@ == name@)
            },
            boost is None ==> *final(self) == *old(self),
            boost is Some ==> *final(self) == (Progress {
                attack: final(self).attack,
                weapon: final(self).weapon,
                ..*old(self)
            }),
    {
        let current = match &self.weapon {
            Some(w) => w.attack,
            None => 0,
        };
        if attack > current {
            let boost = attack - current;
            self.attack = self.attack + boost;
            self.weapon = Some(Weapon { name: String::from_str(name), attack });
            Some(boost)
        } else {
            None
        }
    }

    /// Equip the offered armor if its bonus beats the current one; the
    /// defense stat rises by the difference, which is returned.
    pub fn maybe_upgrade_armor(&mut self, name: &str, defense: i32) -> (boost: Option<i32>)
        requires
            old(self).wf(),
            1 <= defense <= GEAR_CAP,
        ensures
            final(self).wf(),
            boost is Some <==> defense > old(self).spec_armor_bonus(),
            boost matches Some(b) ==> {
                &&& b == defense - old(self).spec_armor_bonus()
                &&& final(self).defense == old(self).defense + b
                &&& final(self).spec_armor_bonus() == defense
                &&& (final(self).armor matches Some(a) && a.name@ == name@)
            },
            boost is None ==> *final(self) == *old(self),
            boost is Some ==> *final(self) == (Progress {
                defense: final(self).defense,
                armor: final(self).armor,
                ..*old(self)
            }),
    {
        let current = match &self.armor {
            Some(a) => a.defense,
            None => 0,
        };
        if defense > current {
            let boost = defense - current;
            self.defense = self.defense + boost;
            self.armor = Some(Armor { name: String::from_str(name), defense });
            Some(boost)
        } else {
            None
        }
    }

    /// Whether the lever of the given level is turned.
    pub fn lever_is_turned(&self, level_id: u32) -> (r: bool)
        ensures
            r == self.turned_levers@.contains(level_id),
    {
        ids_contain(&self.turned_levers, level_id)
    }

    /// Flip the lever of the given level.
    pub fn toggle_lever(&mut self, level_id: u32)
        requires
            old(self).wf(),
        ensures
            final(self).wf(),
            final(self).turned_levers@.contains(level_id) == !old(
                self,
            ).turned_levers@.contains(level_id),
            forall|x: u32|
                x != level_id ==> final(self).turned_levers@.contains(x) == old(
                    self,
                ).turned_levers@.contains(x),
            *final(self) == (Progress { turned_levers: final(self).turned_levers, ..*old(self) }),
    {
        let ghost prior = self.turned_levers@;
        let mut pos: usize = 0;
        let mut found = false;
        while pos < self.turned_levers.len() && !found
            invariant
                0 <= pos <= self.turned_levers.len(),
                self.turned_levers@ == prior,
                !found ==> forall|k: int| 0 <= k < pos ==> prior[k] != level_id,
                found ==> pos < prior.len() && prior[pos as int] == level_id,
            decreases self.turned_levers.len() - pos + (if found { 0int } else { 1int }),
        {
            if self.turned_levers[pos] == level_id {
                found = true;
            } else {
                pos = pos + 1;
            }
        }
        if found {
            self.turned_levers.remove(pos);
            proof {
                lemma_unique_remove_contains(prior, pos as int);
            }
        } else {
            proof {
                if prior.contains(level_id) {
                    let k = choose|k: int| 0 <= k < prior.len() && prior[k] == level_id;
                    assert(false);
                }
            }
            self.turned_levers.push(level_id);
            proof {
                assert forall|x: u32| #[trigger] self.turned_levers@.contains(x) implies (
                prior.contains(x) || x == level_id) by {
                    lemma_push_contains(prior, level_id, x);
                }
                assert forall|x: u32| prior.contains(x) || x == level_id implies #[trigger]
                    self.turned_levers@.contains(x) by {
                    lemma_push_contains(prior, level_id, x);
                }
                lemma_push_contains(prior, level_id, level_id);
            }
        }
    }

    /// Whether the chest of the given level has been opened.
    pub fn chest_collected(&self, level_id: u32) -> (r: bool)
        ensures
            r == self.collected_chests@.contains(level_id),
    {
        ids_contain(&self.collected_chests, level_id)
    }

    /// Record that the chest of the given level was opened.
    pub fn record_chest(&mut self, level_id: u32)
        requires
            old(self).wf(),
            !old(self).collected_chests@.contains(level_id),
        ensures
            final(self).wf(),
            final(self).collected_chests@ == old(self).collected_chests@.push(level_id),
            *final(self) == (Progress {
                collected_chests: final(self).collected_chests,
                ..*old(self)
            }),
    {
        self.collected_chests.push(level_id);
    }
}

/// Membership in a sequence extended by one element.
proof fn lemma_push_contains(s: Seq<u32>, a: u32, x: u32)
    ensures
        s.push(a).contains(x) == (s.contains(x) || x == a),
{
    if s.push(a).contains(x) {
        let k = choose|k: int| 0 <= k < s.push(a).len() && s.push(a)[k] == x;
        if k < s.len() {
            assert(s[k] == x);
        }
    }
    if s.contains(x) {
        let k = choose|k: int| 0 <= k < s.len() && s[k] == x;
        assert(s.push(a)[k] == x);
    }
    if x == a {
        assert(s.push(a)[s.len() as int] == x);
    }
}

/// Removing one position from a duplicate-free sequence removes exactly that
/// element from membership.
proof fn lemma_unique_remove_contains(s: Seq<u32>, pos: int)
    requires
        0 <= pos < s.len(),
        forall|i: int, j: int| 0 <= i < j < s.len() ==> s[i] != s[j],
    ensures
        !s.remove(pos).contains(s[pos]),
        forall|x: u32| x != s[pos] ==> s.remove(pos).contains(x) == s.contains(x),
        forall|i: int, j: int|
            0 <= i < j < s.remove(pos).len() ==> s.remove(pos)[i] != s.remove(pos)[j],
{
    let t = s.remove(pos);
    assert forall|x: u32| x != s[pos] implies t.contains(x) == s.contains(x) by {
        if t.contains(x) {
            let k = choose|k: int| 0 <= k < t.len() && t[k] == x;
            if k < pos {
                assert(s[k] == x);
            } else {
                assert(s[k + 1] == x);
            }
        }
        if s.contains(x) {
            let k = choose|k: int| 0 <= k < s.len() && s[k] == x;
            if k < pos {
                assert(t[k] == x);
            } else {
                assert(t[k - 1] == x);
            }
        }
    }
    if t.contains(s[pos]) {
        let k = choose|k: int| 0 <= k < t.len() && t[k] == s[pos];
        if k < pos {
            assert(s[k] == s[pos]);
        } else {
            assert(s[k + 1] == s[pos]);
        }
    }
}


/// The rank title carried at a level.
pub open spec fn spec_player_rank(level: int) -> Seq<char> {
    if level < 10 {
        "Novice"@
    } else if level < 20 {
        "Apprentice"@
    } else if level < 30 {
        "Journeyman"@
    } else if level < 45 {
        "Adept"@
    } else if level < 60 {
        "Veteran"@
    } else if level < 80 {
        "Champion"@
    } else {
        "Master"@
    }
}

/// The rank title carried at a level.
pub fn player_rank(level: i32) -> (r: &'static str)
    ensures
        r@ == spec_player_rank(level as int),
{
    if level < 10 {
        "Novice"
    } else if level < 20 {
        "Apprentice"
    } else if level < 30 {
        "Journeyman"
    } else if level < 45 {
        "Adept"
    } else if level < 60 {
        "Veteran"
    } else if level < 80 {
        "Champion"
    } else {
        "Master"
    }
}


/// Whether a sequence of identifiers repeats one.
fn ids_unique(v: &Vec<u32>) -> (r: bool)
    ensures
        r == (forall|i: int, j: int| 0 <= i < j < v@.len() ==> v@[i] != v@[j]),
{
    let mut i: usize = 0;
    while i < v.len()
        invariant
            i <= v.len(),
            forall|a: int, b: int| 0 <= a < b < i ==> v@[a] != v@[b],
        decreases v.len() - i,
    {
        let mut j: usize = 0;
        while j < i
            invariant
                j <= i < v.len(),
                forall|a: int| 0 <= a < j ==> v@[a] != v@[i as int],
            decreases i - j,
        {
            if v[j] == v[i] {
                return false;
            }
            j = j + 1;
        }
        i = i + 1;
    }
    true
}

impl Progress {
    /// Check every clause of the well-formedness invariant; a loaded save
    /// that fails this check is corrupt.
    pub fn check_valid(&self) -> (r: bool)
        ensures
            r == self.wf(),
    {
        if !(0 <= self.hp && self.hp <= self.max_hp && self.max_hp <= STAT_LIMIT) {
            return false;
        }
        if !(0 <= self.mp && self.mp <= self.max_mp && self.max_mp <= STAT_LIMIT) {
            return false;
        }
        if !(1 <= self.max_hp) {
            return false;
        }
        if !(0 <= self.attack && self.attack <= STAT_LIMIT) {
            return false;
        }
        if !(0 <= self.defense && self.defense <= STAT_LIMIT) {
            return false;
        }
        if !(1 <= self.level && self.level <= MAX_LEVEL) {
            return false;
        }
        if !(0 <= self.exp && self.exp <= EXP_CAP) {
            return false;
        }
        let level_wide = self.level as i64;
        proof {
            assert(0 <= 5 * level_wide * (level_wide - 1) <= 50000) by (nonlinear_arith)
                requires
                    1 <= level_wide <= 99,
            ;
        }
        if !(0 <= self.base_exp && self.base_exp <= 5 * level_wide * (level_wide - 1)) {
            return false;
        }
        if self.items.len() != 4 {
            return false;
        }
        let mut i: usize = 0;
        while i < 4
            invariant
                i <= 4,
                self.items.len() == 4,
                forall|k: int| 0 <= k < i ==> 0 <= (#[trigger] self.items@[k]).amount <= ITEM_MAX,
            decreases 4 - i,
        {
            if !(0 <= self.items[i].amount && self.items[i].amount <= ITEM_MAX) {
                return false;
            }
            i = i + 1;
        }
        if !(matches!(self.items[0].item, Item::Salve) && matches!(self.items[1].item, Item::Tonic)
            && matches!(self.items[2].item, Item::XSalve) && matches!(
            self.items[3].item,
            Item::XTonic,
        )) {
            return false;
        }
        if self.magic.len() != 4 {
            return false;
        }
        if !(matches!(self.magic[0].magic, Magic::Heal) && matches!(
            self.magic[1].magic,
            Magic::EarthEdge,
        ) && matches!(self.magic[2].magic, Magic::WaterEdge) && matches!(
            self.magic[3].magic,
            Magic::FireEdge,
        )) {
            return false;
        }
        if !ids_unique(&self.turned_levers) {
            return false;
        }
        if !ids_unique(&self.collected_chests) {
            return false;
        }
        let weapon_bonus = match &self.weapon {
            Some(w) => w.attack,
            None => 0,
        };
        if !(0 <= weapon_bonus && weapon_bonus <= GEAR_CAP && weapon_bonus <= self.attack
            && self.attack - weapon_bonus <= 2 * self.level + 3) {
            return false;
        }
        let armor_bonus = match &self.armor {
            Some(a) => a.defense,
            None => 0,
        };
        if !(0 <= armor_bonus && armor_bonus <= GEAR_CAP && armor_bonus <= self.defense
            && self.defense - armor_bonus <= 2 * self.level + 3) {
            return false;
        }
        true
    }
}


impl Progress {
    /// Equip exactly the given weapon (or none); the attack stat moves by
    /// the difference of the bonuses.
    pub fn set_weapon(&mut self, weapon: Option<Weapon>)
        requires
            old(self).wf(),
            (weapon matches Some(w) ==> 1 <= w.attack <= GEAR_CAP),
        ensures
            final(self).wf(),
            final(self).spec_weapon_bonus() == (match weapon {
                Some(w) => w.attack as int,
                None => 0,
            }),
            final(self).attack == old(self).attack - old(self).spec_weapon_bonus()
                + final(self).spec_weapon_bonus(),
            *final(self) == (Progress {
                attack: final(self).attack,
                weapon: final(self).weapon,
                ..*old(self)
            }),
    {
        let old_bonus = match &self.weapon {
            Some(w) => w.attack,
            None => 0,
        };
        let new_bonus = match &weapon {
            Some(w) => w.attack,
            None => 0,
        };
        self.attack = self.attack - old_bonus + new_bonus;
        self.weapon = weapon;
    }

    /// Equip exactly the given armor (or none); the defense stat moves by
    /// the difference of the bonuses.
    pub fn set_armor(&mut self, armor: Option<Armor>)
        requires
            old(self).wf(),
            (armor matches Some(a) ==> 1 <= a.defense <= GEAR_CAP),
        ensures
            final(self).wf(),
            final(self).spec_armor_bonus() == (match armor {
                Some(a) => a.defense as int,
                None => 0,
            }),
            final(self).defense == old(self).defense - old(self).spec_armor_bonus()
                + final(self).spec_armor_bonus(),
            *final(self) == (Progress {
                defense: final(self).defense,
                armor: final(self).armor,
                ..*old(self)
            }),
    {
        let old_bonus = match &self.armor {
            Some(a) => a.defense,
            None => 0,
        };
        let new_bonus = match &armor {
            Some(a) => a.defense,
            None => 0,
        };
        self.defense = self.defense - old_bonus + new_bonus;
        self.armor = armor;
    }
}


/// A grant that covers exactly the next two level thresholds produces
/// exactly two sequential level-ups, each checked against its own,
/// freshly raised threshold.
pub proof fn lemma_two_threshold_grant(level: int, exp: int)
    requires
        1 <= level,
        level + 2 <= MAX_LEVEL,
        10 * level + 10 * (level + 1) <= exp,
        exp < 10 * level + 10 * (level + 1) + 10 * (level + 2),
    ensures
        spec_levels_after(level, exp).0 == level + 2,
        spec_levels_after(level, exp).1 == exp - 10 * level - 10 * (level + 1),
{
    assert(spec_levels_after(level, exp) == spec_levels_after(level + 1, exp - 10 * level));
    assert(spec_levels_after(level + 1, exp - 10 * level) == spec_levels_after(
        level + 2,
        exp - 10 * level - 10 * (level + 1),
    ));
}


} // verus!
