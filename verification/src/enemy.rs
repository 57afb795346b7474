//! Enemies: stat blocks and weighted action tables.

use crate::progress::{Magic, EXP_REWARD_CAP, STAT_LIMIT};
use vstd::prelude::*;
use vstd::string::StringExecFns;

verus! {

/// Upper bound on an enemy action's damage factor, in percent.
pub const FACTOR_CAP: u32 = 1000;

/// One entry of an enemy's weighted action table.
pub struct EnemyAction {
    /// Weight of this action in a draw over `[0, 100)`.
    pub chance: u32,
    /// Message shown when the action is taken, following the enemy's name.
    pub message: String,
    /// Damage dealt, as a percentage of base damage; `None` deals none.
    pub damage_factor: Option<u32>,
}

/// An enemy's name, stat block and action table.
pub struct Enemy {
    pub name: String,
    pub hp: i32,
    pub attack: i32,
    pub defense: i32,
    pub weakness: Option<Magic>,
    pub exp: i64,
    pub actions: Vec<EnemyAction>,
}

impl Enemy {
    /// Well-formedness: stats in range and a non-empty action table.
    pub open spec fn wf(self) -> bool {
        &&& 0 <= self.hp <= STAT_LIMIT
        &&& 0 <= self.attack <= STAT_LIMIT
        &&& 0 <= self.defense <= STAT_LIMIT
        &&& 0 <= self.exp <= EXP_REWARD_CAP
        &&& self.actions.len() >= 1
        &&& (forall|i: int|
            0 <= i < self.actions@.len() ==> match (#[trigger] self.actions@[i]).damage_factor {
                Some(f) => f <= FACTOR_CAP,
                None => true,
            })
    }

    /// The possessed Spirit of Earth, first of the three guardians.
    pub fn earth_spirit() -> (r: Enemy)
        ensures
            r.wf(),
            r.hp >= 1,
            r.weakness == Some(Magic::FireEdge),
    {
        let mut actions: Vec<EnemyAction> = Vec::new();
        actions.push(
            EnemyAction {
                chance: 60,
                message: String::from_str("hurls a boulder!"),
                damage_factor: Some(100),
            },
        );
        actions.push(
            EnemyAction {
                chance: 30,
                message: String::from_str("shakes the ground!"),
                damage_factor: Some(150),
            },
        );
        actions.push(
            EnemyAction {
                chance: 10,
                message: String::from_str("glowers."),
                damage_factor: None,
            },
        );
        Enemy {
            name: String::from_str("Earth"),
            hp: 50,
            attack: 14,
            defense: 10,
            weakness: Some(Magic::FireEdge),
            exp: 100,
            actions,
        }
    }

    /// The possessed Spirit of Water, second of the three guardians.
    pub fn water_spirit() -> (r: Enemy)
        ensures
            r.wf(),
            r.hp >= 1,
            r.weakness == Some(Magic::EarthEdge),
    {
        let mut actions: Vec<EnemyAction> = Vec::new();
        actions.push(
            EnemyAction {
                chance: 60,
                message: String::from_str("whips up a wave!"),
                damage_factor: Some(100),
            },
        );
        actions.push(
            EnemyAction {
                chance: 30,
                message: String::from_str("summons a whirlpool!"),
                damage_factor: Some(150),
            },
        );
        actions.push(
            EnemyAction {
                chance: 10,
                message: String::from_str("ripples quietly."),
                damage_factor: None,
            },
        );
        Enemy {
            name: String::from_str("Water"),
            hp: 70,
            attack: 18,
            defense: 13,
            weakness: Some(Magic::EarthEdge),
            exp: 200,
            actions,
        }
    }

    /// The possessed Spirit of Fire, last of the three guardians.
    pub fn fire_spirit() -> (r: Enemy)
        ensures
            r.wf(),
            r.hp >= 1,
            r.weakness == Some(Magic::WaterEdge),
    {
        let mut actions: Vec<EnemyAction> = Vec::new();
        actions.push(
            EnemyAction {
                chance: 60,
                message: String::from_str("breathes fire!"),
                damage_factor: Some(100),
            },
        );
        actions.push(
            EnemyAction {
                chance: 30,
                message: String::from_str("rains embers!"),
                damage_factor: Some(150),
            },
        );
        actions.push(
            EnemyAction {
                chance: 10,
                message: String::from_str("flickers."),
                damage_factor: None,
            },
        );
        Enemy {
            name: String::from_str("Fire"),
            hp: 90,
            attack: 22,
            defense: 16,
            weakness: Some(Magic::WaterEdge),
            exp: 300,
            actions,
        }
    }

    /// Reduce the enemy's hit points, never below zero.
    pub fn take_damage(&mut self, amount: i32)
        requires
            0 <= old(self).hp,
            0 <= amount,
        ensures
            final(self).hp == if amount <= old(self).hp {
                old(self).hp - amount
            } else {
                0
            },
            *final(self) == (Enemy { hp: final(self).hp, ..*old(self) }),
    {
        if amount <= self.hp {
            self.hp = self.hp - amount;
        } else {
            self.hp = 0;
        }
    }
}

} // verus!
