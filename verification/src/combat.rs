//! The combat resolver: damage formulas, stochastic rounding, enemy action
//! selection, flee resolution and the loot roll.
//!
//! Damage is an exact rational `num / den`.  Base damage is
//! `1` when `attack^2 < defense`, `attack^2 / defense` when
//! `attack < defense`, and `2 * attack - defense` otherwise.  A follow-up or
//! elemental bonus multiplies it by `1.5`, `2` or `3`, carried here as a
//! count of halves.  The final integer damage is the floor of the rational
//! plus a stochastic `+1` whose probability is the fractional part, decided
//! by one bounded draw in `[0, 100)`.

use crate::enemy::EnemyAction;
use crate::progress::{Item, Magic, STAT_LIMIT};
use crate::rng::{spec_draw, spec_next_state, Rng};
use vstd::arithmetic::div_mod::{lemma_div_is_ordered, lemma_div_multiples_vanish};
use vstd::prelude::*;

verus! {

/// Numerator of the base damage rational.
pub open spec fn spec_base_damage_num(attack: int, defense: int) -> int {
    if attack * attack < defense {
        1
    } else if attack < defense {
        attack * attack
    } else {
        2 * attack - defense
    }
}

/// Denominator of the base damage rational.
pub open spec fn spec_base_damage_den(attack: int, defense: int) -> int {
    if attack * attack < defense {
        1
    } else if attack < defense {
        defense
    } else {
        1
    }
}

/// The damage multiplier in halves: `2` means no bonus, `3`, `4` and `6`
/// stand for the `x1.5`, `x2` and `x3` follow-up bonuses.  A follow-up's
/// schedule index is its turn count, bumped by one when the spell matches
/// the enemy's weakness and clamped at the top entry.
pub open spec fn spec_multiplier_halves(
    follow_up: Option<(Magic, u32)>,
    weakness: Option<Magic>,
) -> int {
    match follow_up {
        None => 2,
        Some((magic, turns)) => {
            let index: int = if weakness == Some(magic) {
                turns + 1
            } else {
                turns as int
            };
            if index >= 2 {
                6
            } else if index == 1 {
                4
            } else {
                3
            }
        },
    }
}

/// Integer damage after stochastic rounding of `num / den` with a roll in
/// `[0, 100)`: the floor, plus one exactly when the roll falls under the
/// fractional part scaled to hundredths.
pub open spec fn spec_rounded(num: int, den: int, roll: int) -> int {
    num / den + if roll * den < (num % den) * 100 {
        1int
    } else {
        0int
    }
}

/// Damage of a player attack computed from generator state `state`.
pub open spec fn spec_magic_damage(
    state: u64,
    attack: int,
    defense: int,
    follow_up: Option<(Magic, u32)>,
    weakness: Option<Magic>,
) -> int {
    spec_rounded(
        spec_base_damage_num(attack, defense) * spec_multiplier_halves(follow_up, weakness),
        spec_base_damage_den(attack, defense) * 2,
        spec_draw(state, 100) as int,
    )
}

/// Damage of an enemy action with the given percent factor, computed from
/// generator state `state`.
pub open spec fn spec_enemy_damage(state: u64, attack: int, defense: int, factor: int) -> int {
    spec_rounded(
        spec_base_damage_num(attack, defense) * factor,
        spec_base_damage_den(attack, defense) * 100,
        spec_draw(state, 100) as int,
    )
}

/// Base damage as an exact rational.
pub fn calc_base_damage(attack: i32, defense: i32) -> (r: (i32, i32))
    requires
        0 <= attack <= STAT_LIMIT,
        0 <= defense <= STAT_LIMIT,
    ensures
        r.0 == spec_base_damage_num(attack as int, defense as int),
        r.1 == spec_base_damage_den(attack as int, defense as int),
        0 <= r.0,
        1 <= r.1 <= STAT_LIMIT,
{
    proof {
        assert(attack * attack <= 100000000) by (nonlinear_arith)
            requires
                0 <= attack <= 10000,
        ;
    }
    if attack * attack < defense {
        (1, 1)
    } else if attack < defense {
        (attack * attack, defense)
    } else {
        (2 * attack - defense, 1)
    }
}

/// The damage multiplier of a possible follow-up, in halves.
pub fn multiplier_halves(follow_up: Option<(Magic, u32)>, weakness: Option<Magic>) -> (r: i32)
    ensures
        r == spec_multiplier_halves(follow_up, weakness),
        2 <= r <= 6,
{
    match follow_up {
        None => 2,
        Some((magic, turns)) => {
            let weak = match weakness {
                Some(w) => w == magic,
                None => false,
            };
            if (weak && turns >= 1) || turns >= 2 {
                6
            } else if (weak && turns == 0) || turns == 1 {
                4
            } else {
                3
            }
        },
    }
}

/// Round the rational `num / den` to an integer, adding one with
/// probability equal to the fractional part; spends one draw.
pub fn stochastic_round(rng: &mut Rng, num: u64, den: u64) -> (r: i32)
    requires
        1 <= den <= 100000000,
        num <= 1000000 * den,
    ensures
        r == spec_rounded(num as int, den as int, spec_draw(old(rng)@, 100) as int),
        final(rng)@ == spec_next_state(old(rng)@),
        0 <= r <= 1000001,
{
    let whole = num / den;
    let rem = num % den;
    proof {
        lemma_div_is_ordered(num as int, 1000000 * (den as int), den as int);
        lemma_div_multiples_vanish(1000000, den as int);
        assert(whole <= 1000000);
        assert(rem < den);
    }
    let roll = rng.random(100);
    proof {
        assert((roll as int) * (den as int) < 10000000000) by (nonlinear_arith)
            requires
                roll < 100,
                1 <= den <= 100000000,
        ;
    }
    let bump: u64 = if (roll as u64) * den < rem * 100 {
        1
    } else {
        0
    };
    (whole + bump) as i32
}

/// The base damage numerator never exceeds twice the stat limit times the
/// denominator, and the denominator is at least one.
pub proof fn lemma_base_damage_bounds(attack: int, defense: int)
    requires
        0 <= attack <= STAT_LIMIT,
        0 <= defense <= STAT_LIMIT,
    ensures
        0 <= spec_base_damage_num(attack, defense),
        1 <= spec_base_damage_den(attack, defense) <= STAT_LIMIT,
        spec_base_damage_num(attack, defense) <= 2 * STAT_LIMIT * spec_base_damage_den(
            attack,
            defense,
        ),
{
    if attack * attack < defense {
    } else if attack < defense {
        assert(attack * attack <= 2 * STAT_LIMIT * defense) by (nonlinear_arith)
            requires
                0 <= attack < defense <= STAT_LIMIT,
        ;
    } else {
        assert(0 <= 2 * attack - defense <= 2 * STAT_LIMIT) by (nonlinear_arith)
            requires
                0 <= defense <= attack <= STAT_LIMIT,
        ;
    }
}

/// Damage of one player attack; spends one draw.  The follow-up, if any,
/// is the spell cast and how many turns ago it was cast.
pub fn calc_magic_damage(
    rng: &mut Rng,
    attack: i32,
    defense: i32,
    follow_up: Option<(Magic, u32)>,
    weakness: Option<Magic>,
) -> (r: i32)
    requires
        0 <= attack <= STAT_LIMIT,
        0 <= defense <= STAT_LIMIT,
    ensures
        r == spec_magic_damage(old(rng)@, attack as int, defense as int, follow_up, weakness),
        final(rng)@ == spec_next_state(old(rng)@),
        0 <= r <= 1000001,
{
    let (base_num, base_den) = calc_base_damage(attack, defense);
    let mult = multiplier_halves(follow_up, weakness);
    proof {
        lemma_base_damage_bounds(attack as int, defense as int);
        assert((base_num as int) * (mult as int) <= 1000000 * ((base_den as int) * 2)
            && 0 <= (base_num as int) * (mult as int)) by (nonlinear_arith)
            requires
                0 <= base_num <= 2 * 10000 * base_den,
                1 <= base_den <= 10000,
                2 <= mult <= 6,
        ;
    }
    let num = (base_num as u64) * (mult as u64);
    let den = (base_den as u64) * 2;
    stochastic_round(rng, num, den)
}

/// Damage of one enemy action with the given percent factor; spends one
/// draw.
pub fn calc_enemy_damage(rng: &mut Rng, attack: i32, defense: i32, factor: u32) -> (r: i32)
    requires
        0 <= attack <= STAT_LIMIT,
        0 <= defense <= STAT_LIMIT,
        factor <= 1000,
    ensures
        r == spec_enemy_damage(old(rng)@, attack as int, defense as int, factor as int),
        final(rng)@ == spec_next_state(old(rng)@),
        0 <= r <= 1000001,
{
    let (base_num, base_den) = calc_base_damage(attack, defense);
    proof {
        lemma_base_damage_bounds(attack as int, defense as int);
        assert((base_num as int) * (factor as int) <= 1000000 * ((base_den as int) * 100)
            && 0 <= (base_num as int) * (factor as int)) by (nonlinear_arith)
            requires
                0 <= base_num <= 2 * 10000 * base_den,
                1 <= base_den <= 10000,
                0 <= factor <= 1000,
        ;
    }
    let num = (base_num as u64) * (factor as u64);
    let den = (base_den as u64) * 100;
    stochastic_round(rng, num, den)
}

/// Which table entry a draw in `[0, 100)` lands on: weights are subtracted
/// from the draw in table order until it falls under an entry's weight;
/// `None` when the weights run out first.
pub open spec fn spec_select_action(chances: Seq<u32>, roll: int) -> Option<int>
    decreases chances.len(),
{
    if chances.len() == 0 {
        None
    } else if roll < chances[0] {
        Some(0int)
    } else {
        match spec_select_action(chances.drop_first(), roll - chances[0]) {
            Some(i) => Some(i + 1),
            None => None,
        }
    }
}

/// The chosen table entry, falling back to the first when the weights do
/// not cover the draw.
pub open spec fn spec_chosen_action(chances: Seq<u32>, roll: int) -> int {
    match spec_select_action(chances, roll) {
        Some(i) => i,
        None => 0,
    }
}

/// Pick an enemy action for a draw in `[0, 100)`.
pub fn select_enemy_action(actions: &Vec<EnemyAction>, roll: u32) -> (idx: usize)
    requires
        actions.len() >= 1,
        roll < 100,
    ensures
        idx < actions.len(),
        idx == spec_chosen_action(
            actions@.map_values(|a: EnemyAction| a.chance),
            roll as int,
        ),
{
    let ghost chances = actions@.map_values(|a: EnemyAction| a.chance);
    let mut i: usize = 0;
    let mut r: u32 = roll;
    proof {
        assert(chances.skip(0) =~= chances);
    }
    while i < actions.len()
        invariant
            0 <= i <= actions.len(),
            chances.len() == actions.len(),
            chances == actions@.map_values(|a: EnemyAction| a.chance),
            forall|k: int| 0 <= k < chances.len() ==> chances[k] == actions@[k].chance,
            spec_select_action(chances, roll as int) == match spec_select_action(
                chances.skip(i as int),
                r as int,
            ) {
                Some(j) => Some(i + j),
                None => None::<int>,
            },
        decreases actions.len() - i,
    {
        let chance = actions[i].chance;
        if r < chance {
            proof {
                assert(chances.skip(i as int)[0] == chances[i as int]);
            }
            return i;
        }
        r = r - chance;
        proof {
            assert(chances.skip(i as int).drop_first() =~= chances.skip(i as int + 1));
        }
        i = i + 1;
    }
    proof {
        assert(chances.skip(actions.len() as int) =~= Seq::<u32>::empty());
    }
    0
}

/// The item a loot roll in `[0, 18)` yields: the four kinds are weighted
/// nine, five, three and one.
pub open spec fn spec_loot_item(roll: int) -> Item {
    if roll < 9 {
        Item::Salve
    } else if roll < 14 {
        Item::Tonic
    } else if roll < 17 {
        Item::XSalve
    } else {
        Item::XTonic
    }
}

/// Roll for dropped loot after a victory: a one-in-ten draw opens the
/// table, then a draw in `[0, 18)` picks the item.
pub fn roll_loot(rng: &mut Rng) -> (drop: Option<Item>)
    ensures
        ({
            let gate = spec_draw(old(rng)@, 10);
            if gate == 0 {
                &&& drop == Some(
                    spec_loot_item(spec_draw(spec_next_state(old(rng)@), 18) as int),
                )
                &&& final(rng)@ == spec_next_state(spec_next_state(old(rng)@))
            } else {
                &&& drop is None
                &&& final(rng)@ == spec_next_state(old(rng)@)
            }
        }),
{
    if rng.random(10) == 0 {
        let roll = rng.random(18);
        Some(
            if roll < 9 {
                Item::Salve
            } else if roll < 14 {
                Item::Tonic
            } else if roll < 17 {
                Item::XSalve
            } else {
                Item::XTonic
            },
        )
    } else {
        None
    }
}

/// Resolve a flee attempt: it succeeds when a draw in `[0, max hp)` falls
/// under the enemy's lost hit points plus the blow the player gave up;
/// spends one draw.
pub fn run_attempt(rng: &mut Rng, enemy_max_hp: i32, enemy_hp: i32, player_damage: i32) -> (r:
    bool)
    requires
        1 <= enemy_max_hp <= STAT_LIMIT,
        0 <= enemy_hp <= enemy_max_hp,
        0 <= player_damage <= 1000001,
    ensures
        r == (spec_draw(old(rng)@, enemy_max_hp as u32) < enemy_max_hp - enemy_hp
            + player_damage),
        final(rng)@ == spec_next_state(old(rng)@),
{
    let threshold = enemy_max_hp - enemy_hp + player_damage;
    let draw = rng.random(enemy_max_hp as u32);
    (draw as i32) < threshold
}

/// Base damage is at least one: as a rational, its numerator is at least
/// its denominator.  The one excluded input is attack and defense both
/// zero, where the formula yields zero.
pub proof fn lemma_base_damage_at_least_one(attack: int, defense: int)
    requires
        0 <= attack,
        0 <= defense,
        attack >= 1 || defense >= 1,
    ensures
        spec_base_damage_num(attack, defense) >= spec_base_damage_den(attack, defense),
        spec_base_damage_den(attack, defense) >= 1,
{
}

/// Base damage is monotonically non-decreasing in attack: with the
/// rationals `n1/d1` and `n2/d2` for the smaller and larger attack, the
/// cross-multiplied comparison `n1 * d2 <= n2 * d1` holds.
pub proof fn lemma_base_damage_monotonic_attack(a1: int, a2: int, d: int)
    requires
        0 <= a1 <= a2,
        0 <= d,
    ensures
        spec_base_damage_num(a1, d) * spec_base_damage_den(a2, d) <= spec_base_damage_num(
            a2,
            d,
        ) * spec_base_damage_den(a1, d),
{
    let n1 = spec_base_damage_num(a1, d);
    let d1 = spec_base_damage_den(a1, d);
    let n2 = spec_base_damage_num(a2, d);
    let d2 = spec_base_damage_den(a2, d);
    assert(a1 * a1 <= a2 * a2) by (nonlinear_arith)
        requires
            0 <= a1 <= a2,
    ;
    if a1 * a1 < d {
        if a2 * a2 < d {
            assert(n1 * d2 <= n2 * d1);
        } else if a2 < d {
            assert(n1 * d2 == d && n2 * d1 == a2 * a2);
            assert(n1 * d2 <= n2 * d1);
        } else {
            assert(d >= 1);
            assert(n1 * d2 == 1 && n2 * d1 == 2 * a2 - d);
            assert(n1 * d2 <= n2 * d1);
        }
    } else if a1 < d {
        if a2 < d {
            assert(n1 * d2 == a1 * a1 * d && n2 * d1 == a2 * a2 * d) by (nonlinear_arith)
                requires
                    n1 == a1 * a1 && d2 == d && n2 == a2 * a2 && d1 == d,
            ;
            assert(a1 * a1 * d <= a2 * a2 * d) by (nonlinear_arith)
                requires
                    a1 * a1 <= a2 * a2,
                    d >= 0,
            ;
        } else {
            assert(n1 * d2 == a1 * a1 && n2 * d1 == (2 * a2 - d) * d);
            assert(a1 * a1 <= (2 * a2 - d) * d) by (nonlinear_arith)
                requires
                    0 <= a1 < d <= a2,
            ;
        }
    } else {
        if a2 * a2 < d {
            assert(false) by (nonlinear_arith)
                requires
                    0 <= d <= a1 <= a2,
                    a1 * a1 >= d,
                    a2 * a2 < d,
            ;
        }
        assert(n1 * d2 == 2 * a1 - d && n2 * d1 == 2 * a2 - d);
        assert(n1 * d2 <= n2 * d1);
    }
}

/// Base damage is monotonically non-increasing in defense: with the
/// rationals `n1/d1` and `n2/d2` for the smaller and larger defense, the
/// cross-multiplied comparison `n2 * d1 <= n1 * d2` holds.  An attack of
/// zero is excluded: there the formula jumps from zero to one as defense
/// leaves zero.
pub proof fn lemma_base_damage_monotonic_defense(a: int, d1: int, d2: int)
    requires
        1 <= a,
        0 <= d1 <= d2,
    ensures
        spec_base_damage_num(a, d2) * spec_base_damage_den(a, d1) <= spec_base_damage_num(
            a,
            d1,
        ) * spec_base_damage_den(a, d2),
{
    if a * a < d1 {
        assert(a * a < d2);
    } else if a < d1 {
        if a * a < d2 {
            assert(d1 <= a * a);
        } else {
            assert(a * a * d1 <= a * a * d2) by (nonlinear_arith)
                requires
                    0 <= a * a,
                    d1 <= d2,
            ;
        }
    } else {
        if a * a < d2 {
            assert(2 * a - d1 >= 1);
        } else if a < d2 {
            assert(a * a <= (2 * a - d1) * d2) by (nonlinear_arith)
                requires
                    1 <= a,
                    d1 <= a,
                    a < d2,
            ;
        } else {
        }
    }
}

/// The follow-up bonus schedule, in halves of the damage multiplier: no
/// follow-up gives x1 (two halves); a non-weak spell on turn zero gives
/// x1.5 (three); a weak spell on turn zero, or a non-weak one on turn one,
/// gives x2 (four); anything past the schedule is capped at x3 (six).
pub proof fn lemma_follow_up_schedule(magic: Magic, weakness: Option<Magic>)
    ensures
        spec_multiplier_halves(None, weakness) == 2,
        weakness != Some(magic) ==> spec_multiplier_halves(Some((magic, 0u32)), weakness) == 3,
        spec_multiplier_halves(Some((magic, 0u32)), Some(magic)) == 4,
        weakness != Some(magic) ==> spec_multiplier_halves(Some((magic, 1u32)), weakness) == 4,
        spec_multiplier_halves(Some((magic, 1u32)), Some(magic)) == 6,
        forall|turns: u32|
            turns >= 2 ==> spec_multiplier_halves(Some((magic, turns)), weakness) == 6,
{
}

} // verus!
