//! Checks of the screen modes: text reveal, prompts, the title screen, the
//! pause menu's healing submenus and the battle engine end to end.

use rpg_core::enemy::{Enemy, EnemyAction};
use rpg_core::input::{GameKey, Input};
use rpg_core::modes::battle::{Battle, BattleEvent};
use rpg_core::modes::main_menu::{cast_heal_from_menu, use_item_from_menu, MainMenu, MainMenuEvent};
use rpg_core::modes::simple::{
    Options, OptionsEvent, TextBox, TextBoxEvent, Title, TitleEvent, YesNoPrompt, YesNoPromptEvent,
};
use rpg_core::progress::{Item, Magic, Progress, Weapon};
use rpg_core::rng::Rng;

fn idle() -> Input {
    Input::new(false)
}

fn pressed(key: GameKey) -> Input {
    let mut input = Input::new(false);
    input.handle_key_down_event(key);
    input
}

#[test]
fn text_box_reveals_one_character_per_tick() {
    let mut text_box = TextBox::new("abcd");
    assert_eq!(text_box.text.shown, 0);
    // confirm during the reveal is ignored
    let step = text_box.update(&pressed(GameKey::Confirm));
    assert!(step.event.is_none());
    assert_eq!(text_box.text.shown, 1);
    for _ in 0..3 {
        assert!(text_box.update(&idle()).event.is_none());
    }
    assert_eq!(text_box.text.shown, 4);
    // once revealed, idle ticks do nothing and confirm finishes
    assert!(text_box.update(&idle()).event.is_none());
    let step = text_box.update(&pressed(GameKey::Confirm));
    assert_eq!(step.event, Some(TextBoxEvent::Done));
}

#[test]
fn prompt_answers_with_the_selection() {
    let mut prompt = YesNoPrompt::new("Save your progress?", "Save", "Don't save", true);
    assert!(prompt.choice);
    let step = prompt.update(&pressed(GameKey::Down));
    assert!(step.event.is_none());
    assert!(!prompt.choice);
    let step = prompt.update(&pressed(GameKey::Confirm));
    assert_eq!(step.event, Some(YesNoPromptEvent::No));
    let mut prompt = YesNoPrompt::new("Really quit?", "Yes", "No", true);
    let step = prompt.update(&pressed(GameKey::Confirm));
    assert_eq!(step.event, Some(YesNoPromptEvent::Yes));
    // cancel always answers no
    let mut prompt = YesNoPrompt::new("Really quit?", "Yes", "No", true);
    let step = prompt.update(&pressed(GameKey::Cancel));
    assert_eq!(step.event, Some(YesNoPromptEvent::No));
}

#[test]
fn title_offers_continue_only_with_a_save() {
    let mut title = Title::new(false);
    let step = title.update(&pressed(GameKey::Down));
    assert!(step.event.is_none());
    assert_eq!(title.selection, 1);
    // no save: confirming the continue entry is refused
    let step = title.update(&pressed(GameKey::Confirm));
    assert!(step.event.is_none());
    let mut title = Title::new(true);
    title.update(&pressed(GameKey::Down));
    let step = title.update(&pressed(GameKey::Confirm));
    assert_eq!(step.event, Some(TitleEvent::Continue));
    // a fresh title confirms straight into a new game
    let mut title = Title::new(true);
    let step = title.update(&pressed(GameKey::Confirm));
    assert_eq!(step.event, Some(TitleEvent::NewGame(true)));
}

#[test]
fn options_cancel_leaves_and_quit_asks() {
    let mut options = Options::new(100, 100);
    let step = options.update(&pressed(GameKey::Cancel));
    assert_eq!(step.event, Some(OptionsEvent::Done));
    let mut options = Options::new(100, 100);
    options.update(&pressed(GameKey::Down));
    options.update(&pressed(GameKey::Down));
    options.update(&pressed(GameKey::Down));
    let step = options.update(&pressed(GameKey::Confirm));
    assert_eq!(step.event, Some(OptionsEvent::Quit));
    // volume rows clamp at their ends
    let mut options = Options::new(0, 100);
    options.update(&pressed(GameKey::Left));
    assert_eq!(options.music_volume, 0);
    options.update(&pressed(GameKey::Right));
    assert_eq!(options.music_volume, 10);
}

#[test]
fn menu_items_heal_only_when_needed() {
    let mut p = Progress::new();
    p.maybe_give_items(Item::Salve, 2);
    // at full health a salve is declined
    assert!(!use_item_from_menu(&mut p, 0));
    assert_eq!(p.items[0].amount, 2);
    p.damage_hp(19);
    assert!(use_item_from_menu(&mut p, 0));
    // 30% of 20, rounded up: 6 restored onto 1
    assert_eq!(p.hp, 7);
    assert_eq!(p.items[0].amount, 1);
    // an empty slot is declined
    assert!(!use_item_from_menu(&mut p, 2));
    // the full restore tops out at the cap and never beyond (counts stay in range)
    p.maybe_give_items(Item::XSalve, 1);
    assert!(use_item_from_menu(&mut p, 2));
    assert_eq!(p.hp, p.max_hp);
    assert!(p.check_valid());
}

#[test]
fn menu_heal_spell_needs_knowledge_points_and_a_wound() {
    let mut p = Progress::new();
    p.damage_hp(15);
    // unknown spell: declined
    assert!(!cast_heal_from_menu(&mut p));
    p.learn_magic(Magic::Heal);
    assert!(cast_heal_from_menu(&mut p));
    // half of 20 rounded up is 10, onto 5 hp, and 5 mp spent
    assert_eq!(p.hp, 15);
    assert_eq!(p.mp, 5);
    assert!(cast_heal_from_menu(&mut p));
    assert_eq!(p.hp, p.max_hp);
    assert_eq!(p.mp, 0);
    // no points left: declined
    p.damage_hp(3);
    assert!(!cast_heal_from_menu(&mut p));
}

#[test]
fn status_only_menu_just_returns() {
    let mut menu = MainMenu::new(true);
    let mut p = Progress::new();
    let step = menu.update(&idle(), &mut p);
    assert!(step.event.is_none());
    let step = menu.update(&pressed(GameKey::Cancel), &mut p);
    assert_eq!(step.event, Some(MainMenuEvent::Done));
}

#[test]
fn main_menu_raises_options_from_its_last_entry() {
    let mut menu = MainMenu::new(false);
    let mut p = Progress::new();
    menu.update(&pressed(GameKey::Up), &mut p);
    assert_eq!(menu.selection, 3);
    let step = menu.update(&pressed(GameKey::Confirm), &mut p);
    assert_eq!(step.event, Some(MainMenuEvent::Options));
}

#[test]
fn fighting_every_turn_wins_the_scenario_battle() {
    // the end-to-end scenario: hp 20/20, attack 10, defense 5 against a
    // 15 hp enemy that always attacks plainly
    let mut p = Progress::new();
    p.set_weapon(Some(Weapon { name: String::from("Short Sword"), attack: 5 }));
    assert_eq!(p.attack, 10);
    assert_eq!(p.defense, 5);
    let enemy = Enemy {
        name: String::from("Marsh Fiend"),
        hp: 15,
        attack: 8,
        defense: 5,
        weakness: None,
        exp: 42,
        actions: vec![EnemyAction {
            chance: 100,
            message: String::from("attacks!"),
            damage_factor: Some(100),
        }],
    };
    let total_before = p.base_exp + p.exp;
    let mut battle = Battle::new(enemy, false);
    let mut rng = Rng::new(1234);
    let confirm = pressed(GameKey::Confirm);
    let mut outcome = None;
    for _ in 0..100000 {
        let step = battle.update(&confirm, &mut p, &mut rng);
        if let Some(event) = step.event {
            outcome = Some(event);
            break;
        }
    }
    assert_eq!(outcome, Some(BattleEvent::Victory));
    assert_eq!(battle.enemy.hp, 0);
    // the reward arrived in full
    assert_eq!(p.base_exp + p.exp, total_before + 42);
    // and the player never left the documented bounds
    assert!(0 <= p.hp && p.hp <= p.max_hp);
    assert!(p.check_valid());
}

#[test]
fn a_boss_battle_never_ends_in_escape() {
    let mut p = Progress::new();
    p.set_weapon(Some(Weapon { name: String::from("Valor Blade"), attack: 25 }));
    let mut battle = Battle::new(Enemy::earth_spirit(), true);
    let mut rng = Rng::new(5);
    // try to flee every turn: the action menu refuses in a boss fight, so
    // keep choosing the last entry and fighting never resolves to RanAway
    let confirm = pressed(GameKey::Confirm);
    let right = pressed(GameKey::Right);
    let mut outcome = None;
    for tick in 0..200000 {
        let input = if tick % 2 == 0 { &right } else { &confirm };
        let step = battle.update(input, &mut p, &mut rng);
        if let Some(event) = step.event {
            outcome = Some(event);
            break;
        }
    }
    match outcome {
        Some(BattleEvent::RanAway) => panic!("a boss fight allowed an escape"),
        Some(_) => {}
        None => panic!("the battle never resolved"),
    }
}
