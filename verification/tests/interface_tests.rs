//! Checks of the supporting pieces: input edge/level state, text layout,
//! the reveal counter and the music policy.

use rpg_core::audio::{Music, MusicAction, MusicState};
use rpg_core::contexts::sync_level_and_actors_with_lever;
use rpg_core::input::{GameKey, Input};
use rpg_core::levels::{Actor, ActorType, Animation, Level};
use rpg_core::text::Text;

#[test]
fn pressed_keys_are_edges_and_down_keys_are_levels() {
    let mut input = Input::new(false);
    assert!(!input.is_key_down(GameKey::Confirm));
    input.handle_key_down_event(GameKey::Confirm);
    assert!(input.is_key_down(GameKey::Confirm));
    assert!(input.is_key_pressed(GameKey::Confirm));
    // the driver clears edges between ticks; the level stays
    input.reset_keys_pressed();
    assert!(!input.is_key_pressed(GameKey::Confirm));
    assert!(input.is_key_down(GameKey::Confirm));
    input.handle_key_up_event(GameKey::Confirm);
    assert!(!input.is_key_down(GameKey::Confirm));
    // other keys are untouched
    input.handle_key_down_event(GameKey::Left);
    assert!(!input.is_key_down(GameKey::Right));
}

#[test]
fn the_debug_key_needs_debug_input() {
    let mut input = Input::new(false);
    input.handle_key_down_event(GameKey::DebugMenu);
    assert!(!input.is_key_pressed(GameKey::DebugMenu));
    let mut input = Input::new(true);
    input.handle_key_down_event(GameKey::DebugMenu);
    assert!(input.is_key_pressed(GameKey::DebugMenu));
}

#[test]
fn layout_places_glyphs_on_the_font_grid() {
    let text = Text::from_str(0, 0, 6, 8, "ab c\nd");
    // spaces and newlines leave no glyphs
    assert_eq!(text.glyphs.len(), 4);
    // 'a' is code 97: cell row 6, column 1
    assert_eq!(text.glyphs[0].src_x, 6);
    assert_eq!(text.glyphs[0].src_y, 48);
    assert_eq!(text.glyphs[0].x, 0);
    assert_eq!(text.glyphs[0].y, 0);
    assert_eq!(text.glyphs[1].x, 6);
    // the space advanced the pen
    assert_eq!(text.glyphs[2].x, 18);
    // the newline reset it below
    assert_eq!(text.glyphs[3].x, 0);
    assert_eq!(text.glyphs[3].y, 8);
    // width and height cover the widest and lowest glyph
    assert_eq!(text.width(), 24);
    assert_eq!(text.height(), 16);
}

#[test]
fn unknown_characters_fall_back_to_the_question_mark() {
    let fallback = Text::from_str(0, 0, 6, 8, "\u{00e9}");
    let question = Text::from_str(0, 0, 6, 8, "?");
    assert_eq!(fallback.glyphs[0].src_x, question.glyphs[0].src_x);
    assert_eq!(fallback.glyphs[0].src_y, question.glyphs[0].src_y);
}

#[test]
fn the_reveal_counter_walks_to_the_end_and_stops() {
    let mut text = Text::from_str(0, 0, 6, 8, "abc");
    assert!(text.all_chars_shown());
    text.hide_all_chars();
    assert!(!text.all_chars_shown());
    text.show_one_char();
    text.show_one_char();
    assert!(!text.all_chars_shown());
    text.show_one_char();
    assert!(text.all_chars_shown());
    // one more step changes nothing
    text.show_one_char();
    assert_eq!(text.shown, 3);
    text.show_all_chars();
    assert_eq!(text.shown, 3);
}

#[test]
fn asking_for_the_playing_track_is_a_no_op() {
    let mut music = MusicState::new();
    assert_eq!(music.play_music(Some(Music::Town)), MusicAction::Play(Music::Town));
    // idempotent: the same track keeps playing untouched
    assert_eq!(music.play_music(Some(Music::Town)), MusicAction::Keep);
    assert_eq!(music.play_music(Some(Music::Battle)), MusicAction::Play(Music::Battle));
    assert_eq!(music.play_music(None), MusicAction::Stop);
    assert_eq!(music.play_music(None), MusicAction::Keep);
}

#[test]
fn the_boss_track_plays_quieter() {
    assert_eq!(Music::Boss.base_volume_permille(), 544);
    assert_eq!(Music::Town.base_volume_permille(), 1000);
}

#[test]
fn the_lever_posture_reaches_the_actor_and_the_props() {
    let mut level = Level {
        identifier: 4,
        px_world_x: 0,
        px_world_y: 0,
        width: 10,
        height: 10,
        music: None,
        encounter_group: None,
        gates: None,
        lever_engaged: false,
    };
    let mut actors = vec![
        Actor {
            identifier: ActorType::Player,
            grid_x: 1,
            grid_y: 1,
            visible: true,
            animation: Animation::FaceSouth,
            chest_type: None,
        },
        Actor {
            identifier: ActorType::Lever,
            grid_x: 4,
            grid_y: 4,
            visible: true,
            animation: Animation::LeverLeft,
            chest_type: None,
        },
    ];
    sync_level_and_actors_with_lever(true, &mut level, &mut actors);
    assert!(level.lever_engaged);
    assert_eq!(actors[1].animation, Animation::LeverRight);
    // the player is untouched
    assert_eq!(actors[0].animation, Animation::FaceSouth);
    sync_level_and_actors_with_lever(false, &mut level, &mut actors);
    assert!(!level.lever_engaged);
    assert_eq!(actors[1].animation, Animation::LeverLeft);
}
