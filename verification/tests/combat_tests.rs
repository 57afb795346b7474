//! Checks of the combat resolver: the damage formula on its documented
//! points, the follow-up schedule, stochastic rounding in the long run,
//! action selection and flee resolution.

use rpg_core::combat::{
    calc_base_damage, calc_magic_damage, multiplier_halves, roll_loot, run_attempt,
    select_enemy_action, stochastic_round,
};
use rpg_core::enemy::EnemyAction;
use rpg_core::progress::{Item, Magic};
use rpg_core::rng::Rng;

fn action(chance: u32) -> EnemyAction {
    EnemyAction { chance, message: String::from("acts!"), damage_factor: Some(100) }
}

#[test]
fn base_damage_low_attack_meets_defense_squared() {
    // attack^2 == defense: not below, so the ratio branch yields exactly one.
    let (num, den) = calc_base_damage(10, 100);
    assert_eq!(num, 100);
    assert_eq!(den, 100);
    let mut rng = Rng::new(7);
    let damage = calc_magic_damage(&mut rng, 10, 100, None, None);
    assert_eq!(damage, 1);
}

#[test]
fn base_damage_high_attack_is_linear() {
    let (num, den) = calc_base_damage(20, 10);
    assert_eq!(num, 30);
    assert_eq!(den, 1);
    let mut rng = Rng::new(7);
    let damage = calc_magic_damage(&mut rng, 20, 10, None, None);
    assert_eq!(damage, 30);
}

#[test]
fn base_damage_below_defense_threshold_is_one() {
    let (num, den) = calc_base_damage(5, 100);
    assert_eq!(num, 1);
    assert_eq!(den, 1);
}

#[test]
fn base_damage_is_monotone_on_samples() {
    // non-decreasing in attack (rationals compared cross-multiplied)
    let mut prev: (i64, i64) = (0, 1);
    for attack in 0..200 {
        let (num, den) = calc_base_damage(attack, 37);
        assert!(prev.0 * den as i64 <= num as i64 * prev.1, "attack {}", attack);
        prev = (num as i64, den as i64);
    }
    // non-increasing in defense for a fixed attack
    let mut prev: (i64, i64) = (i64::MAX, 1);
    for defense in 0..200 {
        let (num, den) = calc_base_damage(40, defense);
        assert!(num as i64 * prev.1 <= prev.0 * den as i64, "defense {}", defense);
        prev = (num as i64, den as i64);
    }
    // and always at least one away from the origin
    for attack in 0..80 {
        for defense in 0..80 {
            if attack >= 1 || defense >= 1 {
                let (num, den) = calc_base_damage(attack, defense);
                assert!(num >= den, "attack {} defense {}", attack, defense);
            }
        }
    }
}

#[test]
fn follow_up_schedule_matches_the_spec() {
    // no follow-up: x1.0
    assert_eq!(multiplier_halves(None, Some(Magic::FireEdge)), 2);
    // non-weak spell, turn 0: x1.5
    assert_eq!(multiplier_halves(Some((Magic::EarthEdge, 0)), Some(Magic::FireEdge)), 3);
    assert_eq!(multiplier_halves(Some((Magic::EarthEdge, 0)), None), 3);
    // weak spell, turn 0: x2.0
    assert_eq!(multiplier_halves(Some((Magic::FireEdge, 0)), Some(Magic::FireEdge)), 4);
    // weak spell, turn 1: capped at x3.0
    assert_eq!(multiplier_halves(Some((Magic::FireEdge, 1)), Some(Magic::FireEdge)), 6);
    // far past the schedule: still capped
    assert_eq!(multiplier_halves(Some((Magic::WaterEdge, 9)), None), 6);
}

#[test]
fn stochastic_rounding_converges_to_the_fraction() {
    // fraction 1/2: over many trials the +1 rate approaches 0.5
    let mut rng = Rng::new(20261012);
    let trials = 20000;
    let mut bumped = 0u32;
    for _ in 0..trials {
        let rounded = stochastic_round(&mut rng, 1, 2);
        assert!(rounded == 0 || rounded == 1);
        if rounded == 1 {
            bumped += 1;
        }
    }
    let rate = bumped as f64 / trials as f64;
    assert!((rate - 0.5).abs() < 0.02, "rate {}", rate);

    // fraction 1/4
    let mut rng = Rng::new(99);
    let mut bumped = 0u32;
    for _ in 0..trials {
        if stochastic_round(&mut rng, 1, 4) == 1 {
            bumped += 1;
        }
    }
    let rate = bumped as f64 / trials as f64;
    assert!((rate - 0.25).abs() < 0.02, "rate {}", rate);
}

#[test]
fn stochastic_rounding_is_exact_on_whole_numbers() {
    let mut rng = Rng::new(5);
    for _ in 0..100 {
        assert_eq!(stochastic_round(&mut rng, 12, 4), 3);
    }
}

#[test]
fn enemy_action_selection_walks_the_weights() {
    let actions = vec![action(60), action(30), action(10)];
    assert_eq!(select_enemy_action(&actions, 0), 0);
    assert_eq!(select_enemy_action(&actions, 59), 0);
    assert_eq!(select_enemy_action(&actions, 60), 1);
    assert_eq!(select_enemy_action(&actions, 89), 1);
    assert_eq!(select_enemy_action(&actions, 90), 2);
    assert_eq!(select_enemy_action(&actions, 99), 2);
}

#[test]
fn enemy_action_selection_falls_back_to_the_first() {
    // weights sum to 20, so a roll of 50 walks off the table
    let actions = vec![action(10), action(10)];
    assert_eq!(select_enemy_action(&actions, 50), 0);
}

#[test]
fn run_attempt_follows_the_threshold() {
    // threshold zero: the draw can never fall under it
    let mut rng = Rng::new(1);
    for _ in 0..50 {
        assert!(!run_attempt(&mut rng, 10, 10, 0));
    }
    // threshold at least the maximum: every draw falls under it
    let mut rng = Rng::new(1);
    for _ in 0..50 {
        assert!(run_attempt(&mut rng, 10, 0, 5));
    }
}

#[test]
fn loot_drops_roughly_one_battle_in_ten() {
    let mut rng = Rng::new(424242);
    let trials = 20000;
    let mut drops = 0u32;
    let mut salves = 0u32;
    for _ in 0..trials {
        if let Some(item) = roll_loot(&mut rng) {
            drops += 1;
            if item == Item::Salve {
                salves += 1;
            }
        }
    }
    let rate = drops as f64 / trials as f64;
    assert!((rate - 0.1).abs() < 0.02, "drop rate {}", rate);
    // half of the drops are the common item
    let salve_rate = salves as f64 / drops as f64;
    assert!((salve_rate - 0.5).abs() < 0.1, "salve rate {}", salve_rate);
}

#[test]
fn generator_is_deterministic_and_bounded() {
    let mut a = Rng::new(77);
    let mut b = Rng::new(77);
    for _ in 0..1000 {
        let x = a.random(37);
        let y = b.random(37);
        assert_eq!(x, y);
        assert!(x < 37);
    }
    let mut c = Rng::new(78);
    let mut differs = false;
    let mut a = Rng::new(77);
    for _ in 0..16 {
        if a.random(1000) != c.random(1000) {
            differs = true;
        }
    }
    assert!(differs);
}
