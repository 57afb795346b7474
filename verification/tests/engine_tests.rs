//! Checks of the script engine: registry validation, the title flow, a
//! full title-to-battle-to-victory round trip with a balanced mode stack,
//! and the boundary-crossing arithmetic.

use rpg_core::enemy::{Enemy, EnemyAction};
use rpg_core::input::{GameKey, Input};
use rpg_core::levels::{Actor, ActorType, Animation, Level};
use rpg_core::progress::Progress;
use rpg_core::script::{
    crossed_coord, standard_registry, validate_level_scripts, EngineEvent, LevelScript,
    ScriptAction, ScriptEngine, ScriptStatus, TalkEntry, TalkKind,
};

fn test_level() -> Level {
    Level {
        identifier: 1,
        px_world_x: 0,
        px_world_y: 0,
        width: 10,
        height: 10,
        music: None,
        encounter_group: Some(0),
        gates: None,
        lever_engaged: false,
    }
}

fn player_at(x: i32, y: i32) -> Actor {
    Actor {
        identifier: ActorType::Player,
        grid_x: x,
        grid_y: y,
        visible: true,
        animation: Animation::FaceSouth,
        chest_type: None,
    }
}

fn weak_enemy() -> Enemy {
    Enemy {
        name: String::from("Thistle Rat"),
        hp: 1,
        attack: 0,
        defense: 0,
        weakness: None,
        exp: 3,
        actions: vec![EnemyAction {
            chance: 100,
            message: String::from("squeaks!"),
            damage_factor: None,
        }],
    }
}

fn known_ids() -> Vec<u32> {
    vec![1, 2, 3, 4, 5, 6]
}

fn test_engine() -> ScriptEngine {
    ScriptEngine::new(
        test_level(),
        vec![player_at(5, 5)],
        standard_registry(1, 2, 3, 4, 5, 6),
        &known_ids(),
        vec![vec![weak_enemy()]],
        1,
        false,
        12345,
    )
    .expect("engine construction")
}

#[test]
fn the_standard_registry_validates() {
    let registry = standard_registry(1, 2, 3, 4, 5, 6);
    assert!(validate_level_scripts(&registry, &known_ids()));
}

#[test]
fn an_unknown_location_is_rejected() {
    let registry = standard_registry(1, 2, 3, 4, 5, 99);
    assert!(!validate_level_scripts(&registry, &known_ids()));
}

#[test]
fn a_duplicate_location_is_rejected() {
    let registry = standard_registry(1, 2, 3, 4, 5, 5);
    assert!(!validate_level_scripts(&registry, &known_ids()));
}

#[test]
fn a_duplicate_talk_binding_is_rejected() {
    let registry = vec![LevelScript {
        level_id: 1,
        on_enter: None,
        on_talk: vec![
            TalkEntry { actor: ActorType::Bed, script: TalkKind::Bed },
            TalkEntry { actor: ActorType::Bed, script: TalkKind::Ducille },
        ],
    }];
    assert!(!validate_level_scripts(&registry, &known_ids()));
}

#[test]
fn startup_validation_is_fatal() {
    let result = ScriptEngine::new(
        test_level(),
        vec![player_at(5, 5)],
        standard_registry(1, 2, 3, 4, 5, 99),
        &known_ids(),
        vec![],
        1,
        false,
        1,
    );
    assert!(result.is_err());
    // a player outside the level is equally fatal
    let result = ScriptEngine::new(
        test_level(),
        vec![player_at(50, 5)],
        standard_registry(1, 2, 3, 4, 5, 6),
        &known_ids(),
        vec![],
        1,
        false,
        1,
    );
    assert!(result.is_err());
}

fn idle() -> Input {
    Input::new(false)
}

fn pressed(key: GameKey) -> Input {
    let mut input = Input::new(false);
    input.handle_key_down_event(key);
    input
}

fn skip_intro_confirm() -> Input {
    let mut input = Input::new(false);
    input.handle_key_down_event(GameKey::Cancel);
    input.reset_keys_pressed();
    input.handle_key_down_event(GameKey::Confirm);
    input
}

fn held(key: GameKey) -> Input {
    let mut input = Input::new(false);
    input.handle_key_down_event(key);
    input.reset_keys_pressed();
    input
}

/// Drive ticks with the given input until the stack has the wanted depth.
fn run_until_depth(engine: &mut ScriptEngine, input: &Input, depth: usize, limit: u32) {
    for _ in 0..limit {
        if engine.ctx.modes.modes.len() == depth {
            return;
        }
        let step = engine.step(input, EngineEvent::Tick);
        assert!(matches!(step.status, ScriptStatus::Running));
    }
    panic!("the stack never reached depth {}", depth);
}

#[test]
fn a_full_round_trip_keeps_the_stack_balanced() {
    let mut engine = test_engine();
    // the title screen is the only live mode
    assert_eq!(engine.ctx.modes.modes.len(), 1);
    // start a new game, skipping the opening vision
    let step = engine.step(&skip_intro_confirm(), EngineEvent::Tick);
    assert!(matches!(step.status, ScriptStatus::Running));
    // fade out, swap to the field, fade in: depth stays one throughout
    for _ in 0..70 {
        let step = engine.step(&idle(), EngineEvent::Tick);
        assert!(matches!(step.status, ScriptStatus::Running));
        assert!(engine.ctx.modes.modes.len() == 1);
    }
    // open and close the pause menu: one push, one pop
    run_until_depth(&mut engine, &pressed(GameKey::Cancel), 2, 50);
    run_until_depth(&mut engine, &pressed(GameKey::Cancel), 1, 50);
    // pace the meadow until a random encounter pushes a battle
    let before = engine.ctx.progress.base_exp + engine.ctx.progress.exp;
    let down = held(GameKey::Down);
    let up = held(GameKey::Up);
    let mut in_battle = false;
    for tick in 0..4000 {
        let input = if (tick / 8) % 2 == 0 { &down } else { &up };
        let step = engine.step(input, EngineEvent::Tick);
        assert!(matches!(step.status, ScriptStatus::Running));
        if engine.ctx.modes.modes.len() == 2 {
            in_battle = true;
            break;
        }
    }
    assert!(in_battle, "no encounter fired while pacing");
    // fight through: confirm every tick until the battle pops itself
    run_until_depth(&mut engine, &pressed(GameKey::Confirm), 1, 100000);
    // the reward of the fallen enemy arrived
    let after = engine.ctx.progress.base_exp + engine.ctx.progress.exp;
    assert_eq!(after, before + 3);
    // and the walk-around screen is the only live mode again
    assert_eq!(engine.ctx.modes.modes.len(), 1);
}

#[test]
fn quitting_from_the_title_options_halts_the_engine() {
    let mut engine = test_engine();
    // move to the options entry and confirm
    engine.step(&pressed(GameKey::Down), EngineEvent::Tick);
    engine.step(&pressed(GameKey::Down), EngineEvent::Tick);
    let step = engine.step(&pressed(GameKey::Confirm), EngineEvent::Tick);
    assert!(matches!(step.status, ScriptStatus::Running));
    assert_eq!(engine.ctx.modes.modes.len(), 2);
    // pick the quit row and confirm, then answer yes
    engine.step(&pressed(GameKey::Up), EngineEvent::Tick);
    let step = engine.step(&pressed(GameKey::Confirm), EngineEvent::Tick);
    assert!(matches!(step.status, ScriptStatus::Running));
    assert_eq!(engine.ctx.modes.modes.len(), 3);
    engine.step(&pressed(GameKey::Up), EngineEvent::Tick);
    let step = engine.step(&pressed(GameKey::Confirm), EngineEvent::Tick);
    assert!(matches!(step.status, ScriptStatus::Quit));
    assert!(engine.is_halted());
}

#[test]
fn a_corrupt_save_is_reported_and_the_title_returns() {
    let mut engine = ScriptEngine::new(
        test_level(),
        vec![player_at(5, 5)],
        standard_registry(1, 2, 3, 4, 5, 6),
        &known_ids(),
        vec![],
        1,
        true,
        7,
    )
    .expect("engine construction");
    // pick the continue entry
    engine.step(&pressed(GameKey::Down), EngineEvent::Tick);
    let step = engine.step(&pressed(GameKey::Confirm), EngineEvent::Tick);
    assert!(step.actions.iter().any(|a| matches!(a, ScriptAction::Load)));
    // reply with a save whose hit points exceed their cap
    let mut corrupt = Progress::new();
    corrupt.hp = corrupt.max_hp + 1;
    let step = engine.step(&idle(), EngineEvent::LoadResult(Ok(corrupt)));
    assert!(matches!(step.status, ScriptStatus::Running));
    // the error text box sits over the title
    assert_eq!(engine.ctx.modes.modes.len(), 2);
    // confirm through the reveal: back to the title alone
    run_until_depth(&mut engine, &pressed(GameKey::Confirm), 1, 1000);
    // the loaded garbage was discarded
    assert!(engine.ctx.progress.check_valid());
}

#[test]
fn crossing_a_boundary_and_back_reproduces_the_coordinate() {
    // two tile-aligned origins 160 pixels apart
    let a_px = 0;
    let b_px = 160;
    for g in [0, 3, 7] {
        let step = 1; // eastwards
        let crossed = crossed_coord(g, a_px, b_px, step);
        let back = crossed_coord(crossed, b_px, a_px, -step);
        assert_eq!(back, g);
    }
    // and in the other direction
    let crossed = crossed_coord(5, 480, 320, -1);
    assert_eq!(crossed_coord(crossed, 320, 480, 1), 5);
}

#[test]
fn warping_to_a_missing_level_is_fatal() {
    let mut engine = test_engine();
    // into the field, skipping the vision
    engine.step(&skip_intro_confirm(), EngineEvent::Tick);
    for _ in 0..70 {
        engine.step(&idle(), EngineEvent::Tick);
    }
    // open the debug menu (debug input enabled for this tick only)
    let mut debug_input = Input::new(true);
    debug_input.handle_key_down_event(GameKey::DebugMenu);
    engine.step(&debug_input, EngineEvent::Tick);
    assert_eq!(engine.ctx.modes.modes.len(), 2);
    // walk down to the warp entry and raise its argument out of range
    for _ in 0..9 {
        engine.step(&pressed(GameKey::Down), EngineEvent::Tick);
    }
    for _ in 0..7 {
        engine.step(&pressed(GameKey::Right), EngineEvent::Tick);
    }
    let step = engine.step(&pressed(GameKey::Confirm), EngineEvent::Tick);
    assert!(step
        .actions
        .iter()
        .any(|a| matches!(a, ScriptAction::FetchLevel(_))));
    // the level data has no such level: a fatal stop, not a bad state
    let step = engine.step(&idle(), EngineEvent::LevelFetched(None));
    assert!(matches!(step.status, ScriptStatus::Fatal(_)));
    assert!(engine.is_halted());
}
