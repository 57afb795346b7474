//! Checks of the durable player state: inventory caps, hp/mp clamping,
//! leveling across thresholds, gear upgrades and save validation.

use rpg_core::progress::{
    player_rank, Item, Magic, Progress, Weapon, EXP_CAP, ITEM_MAX, MAX_LEVEL,
};
use rpg_core::text::u32_to_string;

#[test]
fn new_game_progress_is_as_documented() {
    let p = Progress::new();
    assert_eq!(p.hp, 20);
    assert_eq!(p.max_hp, 20);
    assert_eq!(p.mp, 10);
    assert_eq!(p.max_mp, 10);
    assert_eq!(p.attack, 5);
    assert_eq!(p.defense, 5);
    assert_eq!(p.level, 1);
    assert_eq!(p.exp, 0);
    assert!(p.weapon.is_none());
    assert!(p.armor.is_none());
    assert!(p.check_valid());
}

#[test]
fn item_stacks_never_exceed_the_cap() {
    let mut p = Progress::new();
    assert_eq!(p.maybe_give_items(Item::Salve, 9), 9);
    // a full stack takes nothing more
    assert_eq!(p.maybe_give_items(Item::Salve, 5), 0);
    assert_eq!(p.items[0].amount, ITEM_MAX);
    // a partial stack takes only what fits
    assert_eq!(p.maybe_give_items(Item::Tonic, 7), 7);
    assert_eq!(p.maybe_give_items(Item::Tonic, 7), 2);
    assert_eq!(p.items[1].amount, ITEM_MAX);
    assert!(p.check_valid());
}

#[test]
fn healing_and_damage_stay_within_bounds() {
    let mut p = Progress::new();
    p.damage_hp(7);
    assert_eq!(p.hp, 13);
    // damage past zero stops at zero
    p.damage_hp(1000);
    assert_eq!(p.hp, 0);
    // healing past the cap stops at the cap
    p.heal_hp(5);
    assert_eq!(p.hp, 5);
    p.heal_hp(10000);
    assert_eq!(p.hp, p.max_hp);
    p.heal_mp(10000);
    assert_eq!(p.mp, p.max_mp);
    assert!(p.check_valid());
}

#[test]
fn crossing_two_thresholds_gives_exactly_two_level_ups() {
    let mut p = Progress::new();
    // thresholds are 10 at level one and 20 at level two
    p.add_exp(35);
    assert!(p.gain_level_from_exp());
    assert_eq!(p.level, 2);
    assert!(p.gain_level_from_exp());
    assert_eq!(p.level, 3);
    // the remaining 5 points do not reach the third threshold
    assert!(!p.gain_level_from_exp());
    assert_eq!(p.level, 3);
    assert_eq!(p.exp, 5);
    assert_eq!(p.base_exp, 30);
    assert!(p.check_valid());
}

#[test]
fn each_level_up_raises_the_caps() {
    let mut p = Progress::new();
    p.gain_level();
    assert_eq!(p.level, 2);
    assert_eq!(p.max_hp, 25);
    assert_eq!(p.max_mp, 12);
    assert_eq!(p.attack, 7);
    assert_eq!(p.defense, 7);
    // current hp and mp are untouched by the cap raise
    assert_eq!(p.hp, 20);
    assert_eq!(p.mp, 10);
}

#[test]
fn next_exp_vanishes_at_the_level_cap() {
    let mut p = Progress::new();
    assert_eq!(p.next_exp(), Some(10));
    while p.level < MAX_LEVEL {
        p.gain_level();
    }
    assert_eq!(p.next_exp(), None);
    assert!(!p.gain_level_from_exp());
}

#[test]
fn experience_saturates_at_its_cap() {
    let mut p = Progress::new();
    while p.level < MAX_LEVEL {
        p.gain_level();
    }
    for _ in 0..20 {
        p.add_exp(100000);
    }
    assert!(p.exp <= EXP_CAP);
}

#[test]
fn gear_upgrades_apply_only_improvements() {
    let mut p = Progress::new();
    assert_eq!(p.maybe_upgrade_weapon("Short Sword", 2), Some(2));
    assert_eq!(p.attack, 7);
    // the same or a worse weapon is declined
    assert_eq!(p.maybe_upgrade_weapon("Short Sword", 2), None);
    assert_eq!(p.attack, 7);
    // a better weapon adds only the difference
    assert_eq!(p.maybe_upgrade_weapon("Long Sword", 7), Some(5));
    assert_eq!(p.attack, 12);
    assert_eq!(p.maybe_upgrade_armor("Leather Armor", 2), Some(2));
    assert_eq!(p.defense, 7);
    assert!(p.check_valid());
}

#[test]
fn set_weapon_swaps_the_bonus() {
    let mut p = Progress::new();
    p.set_weapon(Some(Weapon { name: String::from("Valor Blade"), attack: 25 }));
    assert_eq!(p.attack, 30);
    p.set_weapon(None);
    assert_eq!(p.attack, 5);
}

#[test]
fn levers_toggle_and_chests_stay_opened() {
    let mut p = Progress::new();
    assert!(!p.lever_is_turned(4));
    p.toggle_lever(4);
    assert!(p.lever_is_turned(4));
    assert!(!p.lever_is_turned(5));
    p.toggle_lever(4);
    assert!(!p.lever_is_turned(4));
    assert!(!p.chest_collected(9));
    p.record_chest(9);
    assert!(p.chest_collected(9));
    assert!(p.check_valid());
}

#[test]
fn learned_magic_is_remembered() {
    let mut p = Progress::new();
    assert!(!p.magic[0].known);
    p.learn_magic(Magic::Heal);
    assert!(p.magic[0].known);
    assert!(!p.magic[1].known);
    assert_eq!(Magic::Heal.mp_cost(), 5);
    assert_eq!(Magic::FireEdge.mp_cost(), 2);
}

#[test]
fn corrupt_saves_fail_validation() {
    let mut p = Progress::new();
    p.hp = p.max_hp + 1;
    assert!(!p.check_valid());
    let mut p = Progress::new();
    p.items[0].amount = 10;
    assert!(!p.check_valid());
    let mut p = Progress::new();
    p.level = 0;
    assert!(!p.check_valid());
    let mut p = Progress::new();
    p.turned_levers.push(3);
    p.turned_levers.push(3);
    assert!(!p.check_valid());
}

#[test]
fn ranks_follow_the_level(){
    assert_eq!(player_rank(1), "Novice");
    assert_eq!(player_rank(9), "Novice");
    assert_eq!(player_rank(10), "Apprentice");
    assert_eq!(player_rank(45), "Veteran");
    assert_eq!(player_rank(99), "Master");
}

#[test]
fn numbers_render_in_decimal() {
    assert_eq!(u32_to_string(0), "0");
    assert_eq!(u32_to_string(7), "7");
    assert_eq!(u32_to_string(10), "10");
    assert_eq!(u32_to_string(12345), "12345");
    assert_eq!(u32_to_string(4294967295), "4294967295");
}
