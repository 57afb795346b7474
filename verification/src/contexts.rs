//! The script context: sole owner of the player's progress, the loaded
//! world, the generator and the mode stack while the script engine runs.

use crate::audio::MusicState;
use crate::levels::{Actor, ActorType, Animation, Level};
use crate::input::{GameKey, Input};
use crate::modes::simple::Step;
use crate::modes::walk_around::{WalkAround, WalkAroundEvent};
use crate::enemy::Enemy;
use crate::modes::battle::{Battle, BattleEvent};
use crate::modes::main_menu::{MainMenu, MainMenuEvent};
use crate::modes::simple::{Credits, CreditsEvent, DebugMenu, DebugMenuEvent, Ending,
    EndingEvent, Intro, IntroEvent, Options, OptionsEvent, TextBox, TextBoxEvent, Title,
    TitleEvent, YesNoPrompt, YesNoPromptEvent};
use crate::modes::{Mode, ModeStack};
use crate::text::TEXT_LIMIT;
use vstd::string::StrSliceExecFns;
use vstd::string::StringExecFns;
use crate::progress::Progress;
use crate::rng::Rng;
use vstd::prelude::*;

verus! {

/// Exactly what bringing the lever posture to `turned` does to an actor:
/// a lever actor shows the matching animation; every other actor is
/// untouched.
pub open spec fn spec_lever_synced(before: Actor, after: Actor, turned: bool) -> bool {
    if before.identifier == ActorType::Lever {
        after == (Actor {
            animation: if turned {
                Animation::LeverRight
            } else {
                Animation::LeverLeft
            },
            ..before
        })
    } else {
        after == before
    }
}

/// Exactly what the chest pass of level preparation does to an actor.
pub open spec fn spec_chest_prepared(before: Actor, after: Actor, opened: bool) -> bool {
    if before.identifier == ActorType::Chest {
        after == (Actor {
            animation: if opened {
                Animation::Open
            } else {
                Animation::Closed
            },
            ..before
        })
    } else {
        after == before
    }
}

/// Exactly what preparing a freshly loaded level does to an actor: a chest
/// shows whether it was already opened, a lever stands as it was left, and
/// every other actor is untouched.
pub open spec fn spec_prepared(before: Actor, after: Actor, opened: bool, turned: bool) -> bool {
    if before.identifier == ActorType::Chest {
        after == (Actor {
            animation: if opened {
                Animation::Open
            } else {
                Animation::Closed
            },
            ..before
        })
    } else {
        spec_lever_synced(before, after, turned)
    }
}

/// Everything the script engine owns and mutates between suspensions.
pub struct ScriptContext {
    pub modes: ModeStack,
    pub rng: Rng,
    pub progress: Progress,
    pub level: Level,
    pub actors: Vec<Actor>,
    pub music: MusicState,
    /// Blackness of the fade overlay, in permille.
    pub fade_permille: u32,
    /// Steps left until the next random encounter.
    pub encounter_steps: i32,
    /// Whether a save request must first confirm an overwrite.
    pub confirm_save_overwrite: bool,
}

impl ScriptContext {
    /// Well-formedness of everything owned.
    pub open spec fn wf(self) -> bool {
        &&& self.modes.wf()
        &&& self.progress.wf()
        &&& self.level.wf()
        &&& self.actors.len() >= 1
        &&& 0 <= self.actors@[0].grid_x < self.level.width
        &&& 0 <= self.actors@[0].grid_y < self.level.height
        &&& self.fade_permille <= 1000
        &&& 0 <= self.encounter_steps <= 100
    }

    /// One tick of the free roam on top of the stack.
    pub fn update_walk_around_mode(&mut self, input: &Input) -> (r: Step<WalkAroundEvent>)
        requires
            old(self).wf(),
            input.wf(),
            old(self).modes.modes@.len() >= 1,
            old(self).modes.modes@.last() is WalkAround,
        ensures
            final(self).wf(),
            final(self).modes.modes@.len() == old(self).modes.modes@.len(),
            final(self).modes.modes@.last() is WalkAround,
            final(self).level == old(self).level,
            r.event == Some(WalkAroundEvent::Encounter) ==> final(self).level.encounter_group
                is Some,
            r.event matches Some(WalkAroundEvent::TalkActor(i)) ==> 1 <= i
                < final(self).actors.len(),
    {
        self.modes.update_walk_around_mode(
            input,
            &self.level,
            &mut self.actors,
            &mut self.progress,
            &mut self.encounter_steps,
        )
    }

    /// Whether the lever of the current level is turned.
    pub fn lever_is_turned(&self) -> (r: bool)
        ensures
            r == self.progress.turned_levers@.contains(self.level.identifier),
    {
        self.progress.lever_is_turned(self.level.identifier)
    }

    /// Flip the current level's lever and bring its actor and props into
    /// the new position.
    pub fn toggle_lever(&mut self)
        requires
            old(self).wf(),
        ensures
            final(self).wf(),
            // membership of exactly this level's lever flips; no other entry moves
            final(self).progress.turned_levers@.contains(old(self).level.identifier) == !old(
                self,
            ).progress.turned_levers@.contains(old(self).level.identifier),
            forall|x: u32|
                x != old(self).level.identifier ==> final(self).progress.turned_levers@.contains(
                    x,
                ) == old(self).progress.turned_levers@.contains(x),
            // nothing else of the player or the context changes
            final(self).progress == (Progress {
                turned_levers: final(self).progress.turned_levers,
                ..old(self).progress
            }),
            *final(self) == (ScriptContext {
                progress: final(self).progress,
                level: final(self).level,
                actors: final(self).actors,
                ..*old(self)
            }),
            // the props and the lever actor stand in the new position
            final(self).level == (Level {
                lever_engaged: !old(self).progress.turned_levers@.contains(
                    old(self).level.identifier,
                ),
                ..old(self).level
            }),
            final(self).actors@.len() == old(self).actors@.len(),
            forall|i: int|
                0 <= i < old(self).actors@.len() ==> spec_lever_synced(
                    old(self).actors@[i],
                    #[trigger] final(self).actors@[i],
                    !old(self).progress.turned_levers@.contains(old(self).level.identifier),
                ),
    {
        let id = self.level.identifier;
        self.progress.toggle_lever(id);
        let turned = self.progress.lever_is_turned(id);
        sync_level_and_actors_with_lever(turned, &mut self.level, &mut self.actors);
    }

    /// Place gates at the given tile of the current level.
    pub fn place_gates(&mut self, tile_x: i32, tile_y: i32)
        requires
            old(self).wf(),
        ensures
            final(self).wf(),
            final(self).level == (Level { gates: Some((tile_x, tile_y)), ..old(self).level }),
            *final(self) == (ScriptContext { level: final(self).level, ..*old(self) }),
    {
        self.level.place_gates(tile_x, tile_y);
    }

    /// Bring a freshly loaded level and its actors in line with the
    /// persistent state: the chest shows whether it was already opened, and
    /// the lever and its props stand as they were left.
    pub fn prepare_level_and_actors(&self, level: &mut Level, actors: &mut Vec<Actor>)
        ensures
            *final(level) == (Level {
                lever_engaged: self.progress.turned_levers@.contains(old(level).identifier),
                ..*old(level)
            }),
            final(actors)@.len() == old(actors)@.len(),
            forall|i: int|
                0 <= i < old(actors)@.len() ==> spec_prepared(
                    old(actors)@[i],
                    #[trigger] final(actors)@[i],
                    self.progress.collected_chests@.contains(old(level).identifier),
                    self.progress.turned_levers@.contains(old(level).identifier),
                ),
    {
        let chest_opened = self.progress.chest_collected(level.identifier);
        let ghost fetched = actors@;
        let mut i: usize = 0;
        while i < actors.len()
            invariant
                i <= actors.len(),
                actors@.len() == fetched.len(),
                forall|k: int|
                    0 <= k < i ==> spec_chest_prepared(fetched[k], #[trigger] actors@[k], chest_opened),
                forall|k: int| i <= k < actors@.len() ==> #[trigger] actors@[k] == fetched[k],
            decreases actors.len() - i,
        {
            let actor = actors[i];
            proof {
                assert(actor == fetched[i as int]);
            }
            if matches!(actor.identifier, ActorType::Chest) {
                let updated = Actor {
                    animation: if chest_opened {
                        Animation::Open
                    } else {
                        Animation::Closed
                    },
                    ..actor
                };
                actors[i] = updated;
                proof {
                    assert(fetched[i as int].identifier == ActorType::Chest);
                    assert(actors@[i as int] == updated);

                    assert(spec_chest_prepared(fetched[i as int], actors@[i as int], chest_opened));
                }
            } else {
                proof {
                    assert(spec_chest_prepared(fetched[i as int], actors@[i as int], chest_opened));
                }
            }
            i = i + 1;
        }
        let ghost mid = actors@;
        let lever_turned = self.progress.lever_is_turned(level.identifier);
        sync_level_and_actors_with_lever(lever_turned, level, actors);
        proof {
            assert forall|k: int| 0 <= k < fetched.len() implies spec_prepared(
                fetched[k],
                #[trigger] actors@[k],
                chest_opened,
                lever_turned,
            ) by {
                assert(spec_chest_prepared(fetched[k], mid[k], chest_opened));
                assert(spec_lever_synced(mid[k], actors@[k], lever_turned));
            }
        }
    }
}

/// Show the lever actor in the given position and set the props it
/// controls accordingly.
pub fn sync_level_and_actors_with_lever(
    lever_turned: bool,
    level: &mut Level,
    actors: &mut Vec<Actor>,
)
    ensures
        *final(level) == (Level { lever_engaged: lever_turned, ..*old(level) }),
        final(actors)@.len() == old(actors)@.len(),
        forall|i: int|
            0 <= i < old(actors)@.len() ==> spec_lever_synced(
                old(actors)@[i],
                #[trigger] final(actors)@[i],
                lever_turned,
            ),
{
    let mut i: usize = 0;
    while i < actors.len()
        invariant
            i <= actors.len(),
            actors@.len() == old(actors)@.len(),
            forall|k: int|
                0 <= k < i ==> spec_lever_synced(old(actors)@[k], #[trigger] actors@[k],
                lever_turned),
            forall|k: int| i <= k < actors@.len() ==> #[trigger] actors@[k] == old(actors)@[k],
        decreases actors.len() - i,
    {
        let actor = actors[i];
        if matches!(actor.identifier, ActorType::Lever) {
            let mut updated = actor;
            updated.animation = if lever_turned {
                Animation::LeverRight
            } else {
                Animation::LeverLeft
            };
            actors[i] = updated;
        }
        i = i + 1;
    }
    level.sync_props_with_lever(lever_turned);
}

impl ScriptContext {
    /// Pop the top mode; everything else is untouched.
    pub fn pop_mode(&mut self)
        requires
            old(self).wf(),
            old(self).modes.modes@.len() >= 1,
        ensures
            final(self).wf(),
            final(self).modes.modes@ == old(self).modes.modes@.drop_last(),
            *final(self) == (ScriptContext { modes: final(self).modes, ..*old(self) }),
    {
        self.modes.pop();
    }

    /// Push a battle against the given enemy.
    pub fn push_battle_mode(&mut self, enemy: Enemy, boss_fight: bool)
        requires
            old(self).wf(),
            enemy.wf(),
            enemy.hp >= 1,
        ensures
            final(self).wf(),
            final(self).modes.modes@.len() == old(self).modes.modes@.len() + 1,
            forall|i: int|
                0 <= i < old(self).modes.modes@.len() ==> final(self).modes.modes@[i] == old(
                    self,
                ).modes.modes@[i],
            (final(self).modes.modes@.last() matches Mode::Battle(b) && b.boss_fight
                == boss_fight),
            *final(self) == (ScriptContext { modes: final(self).modes, ..*old(self) }),
    {
        self.modes.push(Mode::Battle(Battle::new(enemy, boss_fight)));
    }

    /// Push the credits roll.
    pub fn push_credits_mode(&mut self)
        requires
            old(self).wf(),
        ensures
            final(self).wf(),
            final(self).modes.modes@.len() == old(self).modes.modes@.len() + 1,
            forall|i: int|
                0 <= i < old(self).modes.modes@.len() ==> final(self).modes.modes@[i] == old(
                    self,
                ).modes.modes@[i],
            final(self).modes.modes@.last() is Credits,
            *final(self) == (ScriptContext { modes: final(self).modes, ..*old(self) }),
    {
        self.modes.push(Mode::Credits(Credits::new()));
    }

    /// Push the debug menu.
    pub fn push_debug_menu_mode(&mut self)
        requires
            old(self).wf(),
        ensures
            final(self).wf(),
            final(self).modes.modes@.len() == old(self).modes.modes@.len() + 1,
            forall|i: int|
                0 <= i < old(self).modes.modes@.len() ==> final(self).modes.modes@[i] == old(
                    self,
                ).modes.modes@[i],
            final(self).modes.modes@.last() is DebugMenu,
            *final(self) == (ScriptContext { modes: final(self).modes, ..*old(self) }),
    {
        self.modes.push(Mode::DebugMenu(DebugMenu::new()));
    }

    /// Push the ending screen.
    pub fn push_ending_mode(&mut self)
        requires
            old(self).wf(),
        ensures
            final(self).wf(),
            final(self).modes.modes@.len() == old(self).modes.modes@.len() + 1,
            forall|i: int|
                0 <= i < old(self).modes.modes@.len() ==> final(self).modes.modes@[i] == old(
                    self,
                ).modes.modes@[i],
            final(self).modes.modes@.last() is Ending,
            *final(self) == (ScriptContext { modes: final(self).modes, ..*old(self) }),
    {
        self.modes.push(Mode::Ending(Ending::new()));
    }

    /// Push the opening vision.
    pub fn push_intro_mode(&mut self)
        requires
            old(self).wf(),
        ensures
            final(self).wf(),
            final(self).modes.modes@.len() == old(self).modes.modes@.len() + 1,
            forall|i: int|
                0 <= i < old(self).modes.modes@.len() ==> final(self).modes.modes@[i] == old(
                    self,
                ).modes.modes@[i],
            final(self).modes.modes@.last() is Intro,
            *final(self) == (ScriptContext { modes: final(self).modes, ..*old(self) }),
    {
        self.modes.push(Mode::Intro(Intro::new()));
    }

    /// Push the pause menu.
    pub fn push_main_menu_mode(&mut self, status_only: bool)
        requires
            old(self).wf(),
        ensures
            final(self).wf(),
            final(self).modes.modes@.len() == old(self).modes.modes@.len() + 1,
            forall|i: int|
                0 <= i < old(self).modes.modes@.len() ==> final(self).modes.modes@[i] == old(
                    self,
                ).modes.modes@[i],
            final(self).modes.modes@.last() is MainMenu,
            *final(self) == (ScriptContext { modes: final(self).modes, ..*old(self) }),
    {
        self.modes.push(Mode::MainMenu(MainMenu::new(status_only)));
    }

    /// Push the options screen with the given volumes.
    pub fn push_options_mode(&mut self, music_volume: u32, sfx_volume: u32)
        requires
            old(self).wf(),
            music_volume <= 100,
            sfx_volume <= 100,
        ensures
            final(self).wf(),
            final(self).modes.modes@.len() == old(self).modes.modes@.len() + 1,
            forall|i: int|
                0 <= i < old(self).modes.modes@.len() ==> final(self).modes.modes@[i] == old(
                    self,
                ).modes.modes@[i],
            final(self).modes.modes@.last() is Options,
            *final(self) == (ScriptContext { modes: final(self).modes, ..*old(self) }),
    {
        self.modes.push(Mode::Options(Options::new(music_volume, sfx_volume)));
    }

    /// Push a text box over the given message.
    pub fn push_text_box_mode(&mut self, s: &String)
        requires
            old(self).wf(),
        ensures
            final(self).wf(),
            final(self).modes.modes@.len() == old(self).modes.modes@.len() + 1,
            forall|i: int|
                0 <= i < old(self).modes.modes@.len() ==> final(self).modes.modes@[i] == old(
                    self,
                ).modes.modes@[i],
            final(self).modes.modes@.last() is TextBox,
            // the box lays out the given text (an unreasonably long text,
            // which no script produces, is replaced by an empty box)
            s@.len() <= TEXT_LIMIT ==> (final(self).modes.modes@.last() matches Mode::TextBox(t)
                && t.text.glyphs@ == crate::text::spec_layout(
                s@,
                crate::modes::simple::FONT_W as int,
                crate::modes::simple::FONT_H as int,
                0,
                0,
            ) && t.text.shown == 0),
            s@.len() > TEXT_LIMIT ==> (final(self).modes.modes@.last() matches Mode::TextBox(t)
                && t.text.glyphs@.len() == 0),
            *final(self) == (ScriptContext { modes: final(self).modes, ..*old(self) }),
    {
        proof {
            reveal_strlit("");
        }
        let text_box = if s.as_str().unicode_len() <= TEXT_LIMIT {
            TextBox::new(s.as_str())
        } else {
            TextBox::new("")
        };
        self.modes.push(Mode::TextBox(text_box));
    }

    /// Push the title screen.
    pub fn push_title_mode(&mut self, save_exists: bool)
        requires
            old(self).wf(),
        ensures
            final(self).wf(),
            final(self).modes.modes@.len() == old(self).modes.modes@.len() + 1,
            forall|i: int|
                0 <= i < old(self).modes.modes@.len() ==> final(self).modes.modes@[i] == old(
                    self,
                ).modes.modes@[i],
            final(self).modes.modes@.last() is Title,
            *final(self) == (ScriptContext { modes: final(self).modes, ..*old(self) }),
    {
        self.modes.push(Mode::Title(Title::new(save_exists)));
    }

    /// Push the free-roam screen.
    pub fn push_walk_around_mode(&mut self)
        requires
            old(self).wf(),
        ensures
            final(self).wf(),
            final(self).modes.modes@.len() == old(self).modes.modes@.len() + 1,
            forall|i: int|
                0 <= i < old(self).modes.modes@.len() ==> final(self).modes.modes@[i] == old(
                    self,
                ).modes.modes@[i],
            final(self).modes.modes@.last() is WalkAround,
            *final(self) == (ScriptContext { modes: final(self).modes, ..*old(self) }),
    {
        self.modes.push(Mode::WalkAround(WalkAround::new()));
    }

    /// Push a yes/no prompt with the given labels.
    pub fn push_yes_no_prompt_mode(
        &mut self,
        prompt: &str,
        yes_label: &str,
        no_label: &str,
        initial_choice: bool,
    )
        requires
            old(self).wf(),
        ensures
            final(self).wf(),
            final(self).modes.modes@.len() == old(self).modes.modes@.len() + 1,
            forall|i: int|
                0 <= i < old(self).modes.modes@.len() ==> final(self).modes.modes@[i] == old(
                    self,
                ).modes.modes@[i],
            (final(self).modes.modes@.last() matches Mode::YesNoPrompt(p) && p.choice
                == initial_choice),
            // the prompt lays out the question over its two labels
            // (over-long labels, which no script produces, give an empty prompt)
            prompt@.len() <= 3000 && yes_label@.len() <= 3000 && no_label@.len() <= 3000 ==> (
            final(self).modes.modes@.last() matches Mode::YesNoPrompt(p) && p.text.glyphs@
                == crate::text::spec_layout(
                prompt@ + "\n "@ + yes_label@ + "\n "@ + no_label@,
                crate::modes::simple::FONT_W as int,
                crate::modes::simple::FONT_H as int,
                0,
                0,
            )),
            *final(self) == (ScriptContext { modes: final(self).modes, ..*old(self) }),
    {
        proof {
            reveal_strlit("");
        }
        let prompt_len = prompt.unicode_len();
        let yes_len = yes_label.unicode_len();
        let no_len = no_label.unicode_len();
        let prompt_mode = if prompt_len <= 3000 && yes_len <= 3000 && no_len <= 3000 {
            YesNoPrompt::new(prompt, yes_label, no_label, initial_choice)
        } else {
            YesNoPrompt::new("", "", "", initial_choice)
        };
        self.modes.push(Mode::YesNoPrompt(prompt_mode));
    }

    /// One tick of the battle on top.
    pub fn update_battle_mode(&mut self, input: &Input) -> (r: Step<BattleEvent>)
        requires
            old(self).wf(),
            input.wf(),
            old(self).modes.modes@.len() >= 1,
            old(self).modes.modes@.last() is Battle,
        ensures
            final(self).wf(),
            final(self).modes.modes@.len() == old(self).modes.modes@.len(),
            forall|i: int|
                0 <= i < old(self).modes.modes@.len() - 1 ==> final(self).modes.modes@[i] == old(
                    self,
                ).modes.modes@[i],
            final(self).modes.modes@.last() is Battle,
            (old(self).modes.modes@.last() matches Mode::Battle(b) && b.boss_fight) ==> r.event
                != Some(BattleEvent::RanAway),
            r.event == Some(BattleEvent::Defeat) ==> final(self).progress.hp == 0,
            final(self).level == old(self).level,
            final(self).actors@ == old(self).actors@,
            final(self).encounter_steps == old(self).encounter_steps,
            final(self).fade_permille == old(self).fade_permille,
            final(self).confirm_save_overwrite == old(self).confirm_save_overwrite,
            final(self).music == old(self).music,
    {
        self.modes.update_battle_mode(input, &mut self.progress, &mut self.rng)
    }

    /// One tick of the pause menu on top.
    pub fn update_main_menu_mode(&mut self, input: &Input) -> (r: Step<MainMenuEvent>)
        requires
            old(self).wf(),
            input.wf(),
            old(self).modes.modes@.len() >= 1,
            old(self).modes.modes@.last() is MainMenu,
        ensures
            final(self).wf(),
            final(self).modes.modes@.len() == old(self).modes.modes@.len(),
            forall|i: int|
                0 <= i < old(self).modes.modes@.len() - 1 ==> final(self).modes.modes@[i] == old(
                    self,
                ).modes.modes@[i],
            final(self).modes.modes@.last() is MainMenu,
            final(self).level == old(self).level,
            final(self).actors@ == old(self).actors@,
            final(self).encounter_steps == old(self).encounter_steps,
            final(self).fade_permille == old(self).fade_permille,
            final(self).confirm_save_overwrite == old(self).confirm_save_overwrite,
            final(self).music == old(self).music,
            final(self).rng == old(self).rng,
    {
        self.modes.update_main_menu_mode(input, &mut self.progress)
    }

    /// One tick of the text box on top.
    pub fn update_text_box_mode(&mut self, input: &Input) -> (r: Step<TextBoxEvent>)
        requires
            old(self).wf(),
            input.wf(),
            old(self).modes.modes@.len() >= 1,
            old(self).modes.modes@.last() is TextBox,
        ensures
            final(self).wf(),
            final(self).modes.modes@.len() == old(self).modes.modes@.len(),
            forall|i: int|
                0 <= i < old(self).modes.modes@.len() - 1 ==> final(self).modes.modes@[i] == old(
                    self,
                ).modes.modes@[i],
            final(self).modes.modes@.last() is TextBox,
            (old(self).modes.modes@.last() matches Mode::TextBox(t) && t.text.shown
                >= t.text.glyphs.len()) ==> r.event == (if input.spec_is_pressed(
                GameKey::Confirm,
            ) {
                Some(TextBoxEvent::Done)
            } else {
                None::<TextBoxEvent>
            }),
            (old(self).modes.modes@.last() matches Mode::TextBox(t) && t.text.shown
                < t.text.glyphs.len()) ==> r.event is None,
            *final(self) == (ScriptContext { modes: final(self).modes, ..*old(self) }),
    {
        self.modes.update_text_box_mode(input)
    }

    /// One tick of the prompt on top.
    pub fn update_yes_no_prompt_mode(&mut self, input: &Input) -> (r: Step<YesNoPromptEvent>)
        requires
            old(self).wf(),
            input.wf(),
            old(self).modes.modes@.len() >= 1,
            old(self).modes.modes@.last() is YesNoPrompt,
        ensures
            final(self).wf(),
            final(self).modes.modes@.len() == old(self).modes.modes@.len(),
            forall|i: int|
                0 <= i < old(self).modes.modes@.len() - 1 ==> final(self).modes.modes@[i] == old(
                    self,
                ).modes.modes@[i],
            final(self).modes.modes@.last() is YesNoPrompt,
            *final(self) == (ScriptContext { modes: final(self).modes, ..*old(self) }),
    {
        self.modes.update_yes_no_prompt_mode(input)
    }

    /// One tick of the title screen on top.
    pub fn update_title_mode(&mut self, input: &Input) -> (r: Step<TitleEvent>)
        requires
            old(self).wf(),
            input.wf(),
            old(self).modes.modes@.len() >= 1,
            old(self).modes.modes@.last() is Title,
        ensures
            final(self).wf(),
            final(self).modes.modes@.len() == old(self).modes.modes@.len(),
            forall|i: int|
                0 <= i < old(self).modes.modes@.len() - 1 ==> final(self).modes.modes@[i] == old(
                    self,
                ).modes.modes@[i],
            final(self).modes.modes@.last() is Title,
            *final(self) == (ScriptContext { modes: final(self).modes, ..*old(self) }),
    {
        self.modes.update_title_mode(input)
    }

    /// One tick of the options screen on top.
    pub fn update_options_mode(&mut self, input: &Input) -> (r: Step<OptionsEvent>)
        requires
            old(self).wf(),
            input.wf(),
            old(self).modes.modes@.len() >= 1,
            old(self).modes.modes@.last() is Options,
        ensures
            final(self).wf(),
            final(self).modes.modes@.len() == old(self).modes.modes@.len(),
            forall|i: int|
                0 <= i < old(self).modes.modes@.len() - 1 ==> final(self).modes.modes@[i] == old(
                    self,
                ).modes.modes@[i],
            final(self).modes.modes@.last() is Options,
            *final(self) == (ScriptContext { modes: final(self).modes, ..*old(self) }),
    {
        self.modes.update_options_mode(input)
    }

    /// One tick of the debug menu on top.
    pub fn update_debug_menu_mode(&mut self, input: &Input) -> (r: Step<DebugMenuEvent>)
        requires
            old(self).wf(),
            input.wf(),
            old(self).modes.modes@.len() >= 1,
            old(self).modes.modes@.last() is DebugMenu,
        ensures
            final(self).wf(),
            final(self).modes.modes@.len() == old(self).modes.modes@.len(),
            forall|i: int|
                0 <= i < old(self).modes.modes@.len() - 1 ==> final(self).modes.modes@[i] == old(
                    self,
                ).modes.modes@[i],
            final(self).modes.modes@.last() is DebugMenu,
            *final(self) == (ScriptContext { modes: final(self).modes, ..*old(self) }),
    {
        self.modes.update_debug_menu_mode(input)
    }

    /// One tick of the intro on top.
    pub fn update_intro_mode(&mut self, input: &Input) -> (r: Step<IntroEvent>)
        requires
            old(self).wf(),
            input.wf(),
            old(self).modes.modes@.len() >= 1,
            old(self).modes.modes@.last() is Intro,
        ensures
            final(self).wf(),
            final(self).modes.modes@.len() == old(self).modes.modes@.len(),
            forall|i: int|
                0 <= i < old(self).modes.modes@.len() - 1 ==> final(self).modes.modes@[i] == old(
                    self,
                ).modes.modes@[i],
            final(self).modes.modes@.last() is Intro,
            *final(self) == (ScriptContext { modes: final(self).modes, ..*old(self) }),
    {
        self.modes.update_intro_mode(input)
    }

    /// One tick of the ending screen on top.
    pub fn update_ending_mode(&mut self, input: &Input) -> (r: Step<EndingEvent>)
        requires
            old(self).wf(),
            input.wf(),
            old(self).modes.modes@.len() >= 1,
            old(self).modes.modes@.last() is Ending,
        ensures
            final(self).wf(),
            final(self).modes.modes@.len() == old(self).modes.modes@.len(),
            forall|i: int|
                0 <= i < old(self).modes.modes@.len() - 1 ==> final(self).modes.modes@[i] == old(
                    self,
                ).modes.modes@[i],
            final(self).modes.modes@.last() is Ending,
            *final(self) == (ScriptContext { modes: final(self).modes, ..*old(self) }),
    {
        self.modes.update_ending_mode(input)
    }

    /// One tick of the credits on top.
    pub fn update_credits_mode(&mut self, input: &Input) -> (r: Step<CreditsEvent>)
        requires
            old(self).wf(),
            input.wf(),
            old(self).modes.modes@.len() >= 1,
            old(self).modes.modes@.last() is Credits,
        ensures
            final(self).wf(),
            final(self).modes.modes@.len() == old(self).modes.modes@.len(),
            forall|i: int|
                0 <= i < old(self).modes.modes@.len() - 1 ==> final(self).modes.modes@[i] == old(
                    self,
                ).modes.modes@[i],
            final(self).modes.modes@.last() is Credits,
            *final(self) == (ScriptContext { modes: final(self).modes, ..*old(self) }),
    {
        self.modes.update_credits_mode(input)
    }
}

} // verus!
