//! Free movement across the loaded level.
//!
//! Each tick reads the held direction keys, moves the player one tile at a
//! walking pace, and raises an event when the player opens the pause menu,
//! talks to an adjacent actor, touches the level's edge, or walks into a
//! random encounter.

use crate::input::{GameKey, Input};
use crate::levels::{spec_dx, spec_dy, Actor, ActorType, Animation, Direction, Level};
use crate::modes::simple::Step;
use crate::progress::Progress;
use vstd::prelude::*;

verus! {

/// Ticks one tile of walking takes.
pub const MOVE_TICKS: u32 = 8;

/// Events of the walk-around mode.
#[derive(Clone, Copy, Debug, PartialEq, Eq, Structural)]
pub enum WalkAroundEvent {
    DebugMenu,
    Encounter,
    MainMenu,
    TalkActor(usize),
    TouchLevelEdge(Direction),
}

/// The walk-around mode: a walking cooldown and the player's facing.
pub struct WalkAround {
    pub move_cooldown: u32,
    pub facing: Direction,
}

/// The direction whose key is held, highest priority first.
pub open spec fn spec_held_direction(input: Input) -> Option<Direction> {
    if input.spec_is_down(GameKey::Up) {
        Some(Direction::North)
    } else if input.spec_is_down(GameKey::Down) {
        Some(Direction::South)
    } else if input.spec_is_down(GameKey::Left) {
        Some(Direction::West)
    } else if input.spec_is_down(GameKey::Right) {
        Some(Direction::East)
    } else {
        None
    }
}

/// The facing animation of a direction.
pub open spec fn spec_facing_animation(dir: Direction) -> Animation {
    match dir {
        Direction::North => Animation::FaceNorth,
        Direction::South => Animation::FaceSouth,
        Direction::East => Animation::FaceEast,
        Direction::West => Animation::FaceWest,
    }
}

/// The first visible actor after the player standing on the given tile,
/// scanning upward from index `k`.
pub open spec fn spec_first_actor_at(actors: Seq<Actor>, tx: int, ty: int, k: int) -> Option<
    int,
>
    decreases actors.len() - k when 0 <= k
{
    if k >= actors.len() {
        None
    } else if actors[k].grid_x == tx && actors[k].grid_y == ty && actors[k].visible {
        Some(k)
    } else {
        spec_first_actor_at(actors, tx, ty, k + 1)
    }
}

/// The facing animation of a direction.
pub fn facing_animation(dir: Direction) -> (r: Animation)
    ensures
        r == spec_facing_animation(dir),
{
    match dir {
        Direction::North => Animation::FaceNorth,
        Direction::South => Animation::FaceSouth,
        Direction::East => Animation::FaceEast,
        Direction::West => Animation::FaceWest,
    }
}

impl WalkAround {
    /// Free movement, facing south, ready to step.
    pub fn new() -> (r: WalkAround)
        ensures
            r.move_cooldown == 0,
            r.facing == Direction::South,
    {
        WalkAround { move_cooldown: 0, facing: Direction::South }
    }

    /// One tick of free movement.  The pause-menu, debug-menu and talk
    /// events take priority over walking; a step onto a tile outside the
    /// level raises the edge event instead of moving; and a step that
    /// brings the encounter counter to zero raises an encounter when the
    /// level has an encounter table.
    #[verifier::loop_isolation(false)]
    pub fn update(
        &mut self,
        input: &Input,
        level: &Level,
        actors: &mut Vec<Actor>,
        progress: &mut Progress,
        encounter_steps: &mut i32,
    ) -> (r: Step<WalkAroundEvent>)
        requires
            input.wf(),
            level.wf(),
            old(progress).wf(),
            old(actors).len() >= 1,
            0 <= old(actors)@[0].grid_x < level.width,
            0 <= old(actors)@[0].grid_y < level.height,
            0 <= *old(encounter_steps) <= 100,
        ensures
            final(progress).wf(),
            final(actors).len() == old(actors).len(),
            0 <= final(actors)@[0].grid_x < level.width,
            0 <= final(actors)@[0].grid_y < level.height,
            forall|i: int| 1 <= i < old(actors)@.len() ==> final(actors)@[i] == old(actors)@[i],
            0 <= *final(encounter_steps) <= 100,
            *final(progress) == (Progress { steps: final(progress).steps, ..*old(progress) }),
            r.event == Some(WalkAroundEvent::Encounter) ==> level.encounter_group is Some
                && *final(encounter_steps) == 0,
            r.event matches Some(WalkAroundEvent::TalkActor(i)) ==> 1 <= i < old(actors)@.len(),
            // the debug-menu and pause-menu edges take priority and touch nothing
            input.spec_is_pressed(GameKey::DebugMenu) ==> r.event == Some(
                WalkAroundEvent::DebugMenu,
            ) && *final(self) == *old(self) && final(actors)@ == old(actors)@
                && *final(progress) == *old(progress) && *final(encounter_steps) == *old(
                encounter_steps,
            ),
            !input.spec_is_pressed(GameKey::DebugMenu) && input.spec_is_pressed(GameKey::Cancel)
                ==> r.event == Some(WalkAroundEvent::MainMenu) && *final(self) == *old(self)
                && final(actors)@ == old(actors)@ && *final(progress) == *old(progress)
                && *final(encounter_steps) == *old(encounter_steps),
            // confirm looks for the first visible actor on the faced tile
            !input.spec_is_pressed(GameKey::DebugMenu) && !input.spec_is_pressed(GameKey::Cancel)
                && input.spec_is_pressed(GameKey::Confirm) ==> {
                let tx = old(actors)@[0].grid_x + spec_dx(old(self).facing);
                let ty = old(actors)@[0].grid_y + spec_dy(old(self).facing);
                &&& *final(self) == *old(self)
                &&& final(actors)@ == old(actors)@
                &&& *final(progress) == *old(progress)
                &&& *final(encounter_steps) == *old(encounter_steps)
                &&& (spec_first_actor_at(old(actors)@, tx, ty, 1) matches Some(i) ==> r.event
                    == Some(WalkAroundEvent::TalkActor(i as usize)))
                &&& (spec_first_actor_at(old(actors)@, tx, ty, 1) is None ==> r.event is None)
            },
            // with no edge pressed, walking is governed by the held direction
            !input.spec_is_pressed(GameKey::DebugMenu) && !input.spec_is_pressed(GameKey::Cancel)
                && !input.spec_is_pressed(GameKey::Confirm) ==> {
                &&& (old(self).move_cooldown > 0 ==> final(self).move_cooldown == old(
                    self,
                ).move_cooldown - 1 && final(self).facing == old(self).facing && final(actors)@
                    == old(actors)@ && *final(progress) == *old(progress) && *final(encounter_steps) == *old(encounter_steps) && r.event is None)
                &&& (old(self).move_cooldown == 0 && spec_held_direction(*input) is None ==> *final(self) == *old(self) && final(actors)@ == old(actors)@ && *final(progress) == *old(
                    progress,
                ) && *final(encounter_steps) == *old(encounter_steps) && r.event is None)
                &&& (old(self).move_cooldown == 0 ==> (spec_held_direction(*input) matches Some(
                    d,
                ) ==> {
                    let tx = old(actors)@[0].grid_x + spec_dx(d);
                    let ty = old(actors)@[0].grid_y + spec_dy(d);
                    &&& final(self).facing == d
                    &&& final(actors)@[0].animation == spec_facing_animation(d)
                    &&& final(actors)@[0].identifier == old(actors)@[0].identifier
                    &&& final(actors)@[0].visible == old(actors)@[0].visible
                    // stepping outside the level raises the edge event instead of moving
                    &&& (!(0 <= tx < level.width && 0 <= ty < level.height) ==> r.event == Some(
                        WalkAroundEvent::TouchLevelEdge(d),
                    ) && final(actors)@[0].grid_x == old(actors)@[0].grid_x && final(actors)@[0].grid_y == old(actors)@[0].grid_y && *final(progress) == *old(progress)
                        && *final(encounter_steps) == *old(encounter_steps))
                    // otherwise the player moves one tile at the walking pace
                    &&& (0 <= tx < level.width && 0 <= ty < level.height ==> {
                        &&& final(actors)@[0].grid_x == tx && final(actors)@[0].grid_y == ty
                        &&& final(self).move_cooldown == MOVE_TICKS
                        &&& final(progress).steps == (if old(progress).steps < u32::MAX {
                            old(progress).steps + 1
                        } else {
                            old(progress).steps as int
                        })
                        &&& (level.encounter_group is None ==> *final(encounter_steps) == *old(
                            encounter_steps,
                        ) && r.event is None)
                        // a step empties the counter by one; hitting zero is the encounter
                        &&& (level.encounter_group is Some ==> {
                            &&& *final(encounter_steps) == (if *old(encounter_steps) > 0 {
                                *old(encounter_steps) - 1
                            } else {
                                0
                            })
                            &&& r.event == (if *final(encounter_steps) == 0 {
                                Some(WalkAroundEvent::Encounter)
                            } else {
                                None::<WalkAroundEvent>
                            })
                        })
                    })
                }))
            },
    {
        if input.is_key_pressed(GameKey::DebugMenu) {
            return Step { event: Some(WalkAroundEvent::DebugMenu), sfx: None };
        }
        if input.is_key_pressed(GameKey::Cancel) {
            return Step { event: Some(WalkAroundEvent::MainMenu), sfx: None };
        }
        if input.is_key_pressed(GameKey::Confirm) {
            let px = actors[0].grid_x;
            let py = actors[0].grid_y;
            let tx = px + self.facing.dx();
            let ty = py + self.facing.dy();
            let mut i: usize = 1;
            while i < actors.len()
                invariant
                    1 <= i <= actors.len(),
                    actors@ == old(actors)@,
                    *progress == *old(progress),
                    *encounter_steps == *old(encounter_steps),
                    *self == *old(self),
                    spec_first_actor_at(actors@, tx as int, ty as int, 1) == spec_first_actor_at(
                        actors@,
                        tx as int,
                        ty as int,
                        i as int,
                    ),
                decreases actors.len() - i,
            {
                if actors[i].grid_x == tx && actors[i].grid_y == ty && actors[i].visible {
                    return Step { event: Some(WalkAroundEvent::TalkActor(i)), sfx: None };
                }
                i = i + 1;
            }
            return Step { event: None, sfx: None };
        }
        if self.move_cooldown > 0 {
            self.move_cooldown = self.move_cooldown - 1;
            return Step { event: None, sfx: None };
        }
        let dir: Option<Direction> = if input.is_key_down(GameKey::Up) {
            Some(Direction::North)
        } else if input.is_key_down(GameKey::Down) {
            Some(Direction::South)
        } else if input.is_key_down(GameKey::Left) {
            Some(Direction::West)
        } else if input.is_key_down(GameKey::Right) {
            Some(Direction::East)
        } else {
            None
        };
        match dir {
            None => Step { event: None, sfx: None },
            Some(d) => {
                self.facing = d;
                let player = actors[0];
                let tx = player.grid_x + d.dx();
                let ty = player.grid_y + d.dy();
                let mut updated = player;
                updated.animation = facing_animation(d);
                if tx < 0 || tx >= level.width || ty < 0 || ty >= level.height {
                    actors[0] = updated;
                    return Step { event: Some(WalkAroundEvent::TouchLevelEdge(d)), sfx: None };
                }
                updated.grid_x = tx;
                updated.grid_y = ty;
                actors[0] = updated;
                self.move_cooldown = MOVE_TICKS;
                if progress.steps < u32::MAX {
                    progress.steps = progress.steps + 1;
                }
                if matches!(level.encounter_group, Some(_)) {
                    if *encounter_steps > 0 {
                        *encounter_steps = *encounter_steps - 1;
                    }
                    if *encounter_steps == 0 {
                        return Step { event: Some(WalkAroundEvent::Encounter), sfx: None };
                    }
                }
                Step { event: None, sfx: None }
            },
        }
    }
}

} // verus!
