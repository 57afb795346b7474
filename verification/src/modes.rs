//! The interactive screen modes and the stack that schedules them.
//!
//! A `Mode` is one screen: title, free roam, battle, menus, dialogue boxes
//! and cutscenes.  The `ModeStack` holds them in the order they were
//! pushed; the top mode takes the input each tick through one of the typed
//! `update` accessors, and everything on the stack is drawn bottom to top,
//! so a dialogue box overlays the field it was opened from.

pub mod battle;
pub mod main_menu;
pub mod simple;
pub mod walk_around;

use crate::input::{GameKey, Input};
use crate::levels::{Actor, Level};
use crate::modes::battle::{Battle, BattleEvent};
use crate::modes::main_menu::{MainMenu, MainMenuEvent};
use crate::modes::simple::{Credits, CreditsEvent, DebugMenu, DebugMenuEvent, Ending,
    EndingEvent, Intro, IntroEvent, Options, OptionsEvent, Step, TextBox, TextBoxEvent, Title,
    TitleEvent, YesNoPrompt, YesNoPromptEvent};
use crate::modes::walk_around::{WalkAround, WalkAroundEvent};
use crate::progress::Progress;
use crate::rng::Rng;
use vstd::pervasive::unreached;
use vstd::prelude::*;

verus! {

/// One interactive screen.
pub enum Mode {
    Battle(Battle),
    Credits(Credits),
    DebugMenu(DebugMenu),
    Ending(Ending),
    Intro(Intro),
    MainMenu(MainMenu),
    Options(Options),
    TextBox(TextBox),
    Title(Title),
    WalkAround(WalkAround),
    YesNoPrompt(YesNoPrompt),
}

impl Mode {
    /// Well-formedness of whichever mode this is.
    pub open spec fn wf(self) -> bool {
        match self {
            Mode::Battle(b) => b.wf(),
            Mode::DebugMenu(d) => d.wf(),
            Mode::MainMenu(m) => m.wf(),
            Mode::Options(o) => o.wf(),
            Mode::TextBox(t) => t.text.wf(),
            Mode::Title(t) => t.selection <= 2,
            Mode::Ending(e) => e.selection <= 1,
            _ => true,
        }
    }
}

/// The stack of live modes, bottom first.
pub struct ModeStack {
    pub modes: Vec<Mode>,
}

impl ModeStack {
    /// Every mode on the stack is well-formed.
    pub open spec fn wf(self) -> bool {
        forall|i: int| 0 <= i < self.modes@.len() ==> (#[trigger] self.modes@[i]).wf()
    }

    /// An empty stack.
    pub fn new() -> (r: ModeStack)
        ensures
            r.wf(),
            r.modes@.len() == 0,
    {
        ModeStack { modes: Vec::new() }
    }

    /// How many modes are live.
    pub fn len(&self) -> (r: usize)
        ensures
            r == self.modes@.len(),
    {
        self.modes.len()
    }

    /// Push a mode on top.
    pub fn push(&mut self, mode: Mode)
        requires
            old(self).wf(),
            mode.wf(),
        ensures
            final(self).wf(),
            final(self).modes@ == old(self).modes@.push(mode),
    {
        self.modes.push(mode);
    }

    /// Pop the top mode; the caller pops only what it pushed.
    pub fn pop(&mut self)
        requires
            old(self).wf(),
            old(self).modes@.len() >= 1,
        ensures
            final(self).wf(),
            final(self).modes@ == old(self).modes@.drop_last(),
    {
        let _ = self.modes.pop();
        proof {
            assert(self.modes@ =~= old(self).modes@.drop_last());
        }
    }

    /// One tick of the battle on top of the stack.
    pub fn update_battle_mode(&mut self, input: &Input, progress: &mut Progress, rng: &mut Rng)
        -> (r: Step<BattleEvent>)
        requires
            old(self).wf(),
            input.wf(),
            old(progress).wf(),
            old(self).modes@.len() >= 1,
            old(self).modes@.last() is Battle,
        ensures
            final(self).wf(),
            final(progress).wf(),
            final(self).modes@.len() == old(self).modes@.len(),
            forall|i: int|
                0 <= i < old(self).modes@.len() - 1 ==> final(self).modes@[i] == old(
                    self,
                ).modes@[i],
            final(self).modes@.last() is Battle,
            r.event == Some(BattleEvent::Defeat) ==> final(progress).hp == 0,
            (old(self).modes@.last() matches Mode::Battle(b) && b.boss_fight) ==> r.event
                != Some(BattleEvent::RanAway),
    {
        let top = self.modes.pop();
        match top {
            Some(Mode::Battle(mut battle)) => {
                let step = battle.update(input, progress, rng);
                self.modes.push(Mode::Battle(battle));
                proof {
                    assert forall|i: int| 0 <= i < old(self).modes@.len() - 1 implies self.modes@[i]
                        == old(self).modes@[i] by {
                        assert(self.modes@[i] == old(self).modes@.drop_last()[i]);
                    }
                }
                step
            },
            _ => unreached(),
        }
    }

    /// One tick of the pause menu on top of the stack.
    pub fn update_main_menu_mode(&mut self, input: &Input, progress: &mut Progress) -> (r: Step<
        MainMenuEvent,
    >)
        requires
            old(self).wf(),
            input.wf(),
            old(progress).wf(),
            old(self).modes@.len() >= 1,
            old(self).modes@.last() is MainMenu,
        ensures
            final(self).wf(),
            final(progress).wf(),
            final(self).modes@.len() == old(self).modes@.len(),
            forall|i: int|
                0 <= i < old(self).modes@.len() - 1 ==> final(self).modes@[i] == old(
                    self,
                ).modes@[i],
            final(self).modes@.last() is MainMenu,
    {
        let top = self.modes.pop();
        match top {
            Some(Mode::MainMenu(mut menu)) => {
                let step = menu.update(input, progress);
                self.modes.push(Mode::MainMenu(menu));
                proof {
                    assert forall|i: int| 0 <= i < old(self).modes@.len() - 1 implies self.modes@[i]
                        == old(self).modes@[i] by {
                        assert(self.modes@[i] == old(self).modes@.drop_last()[i]);
                    }
                }
                step
            },
            _ => unreached(),
        }
    }

    /// One tick of the free roam on top of the stack.
    pub fn update_walk_around_mode(
        &mut self,
        input: &Input,
        level: &Level,
        actors: &mut Vec<Actor>,
        progress: &mut Progress,
        encounter_steps: &mut i32,
    ) -> (r: Step<WalkAroundEvent>)
        requires
            old(self).wf(),
            input.wf(),
            level.wf(),
            old(progress).wf(),
            old(self).modes@.len() >= 1,
            old(self).modes@.last() is WalkAround,
            old(actors).len() >= 1,
            0 <= old(actors)@[0].grid_x < level.width,
            0 <= old(actors)@[0].grid_y < level.height,
            0 <= *old(encounter_steps) <= 100,
        ensures
            final(self).wf(),
            final(progress).wf(),
            final(self).modes@.len() == old(self).modes@.len(),
            forall|i: int|
                0 <= i < old(self).modes@.len() - 1 ==> final(self).modes@[i] == old(
                    self,
                ).modes@[i],
            final(self).modes@.last() is WalkAround,
            final(actors).len() == old(actors).len(),
            0 <= final(actors)@[0].grid_x < level.width,
            0 <= final(actors)@[0].grid_y < level.height,
            forall|i: int| 1 <= i < old(actors)@.len() ==> final(actors)@[i] == old(actors)@[i],
            0 <= *final(encounter_steps) <= 100,
            *final(progress) == (Progress { steps: final(progress).steps, ..*old(progress) }),
            r.event == Some(WalkAroundEvent::Encounter) ==> level.encounter_group is Some,
            r.event matches Some(WalkAroundEvent::TalkActor(i)) ==> 1 <= i < old(actors)@.len(),
    {
        let top = self.modes.pop();
        match top {
            Some(Mode::WalkAround(mut walk)) => {
                let step = walk.update(input, level, actors, progress, encounter_steps);
                self.modes.push(Mode::WalkAround(walk));
                proof {
                    assert forall|i: int| 0 <= i < old(self).modes@.len() - 1 implies self.modes@[i]
                        == old(self).modes@[i] by {
                        assert(self.modes@[i] == old(self).modes@.drop_last()[i]);
                    }
                }
                step
            },
            _ => unreached(),
        }
    }

    /// One tick of the text box on top of the stack.
    pub fn update_text_box_mode(&mut self, input: &Input) -> (r: Step<TextBoxEvent>)
        requires
            old(self).wf(),
            input.wf(),
            old(self).modes@.len() >= 1,
            old(self).modes@.last() is TextBox,
        ensures
            final(self).wf(),
            final(self).modes@.len() == old(self).modes@.len(),
            forall|i: int|
                0 <= i < old(self).modes@.len() - 1 ==> final(self).modes@[i] == old(
                    self,
                ).modes@[i],
            final(self).modes@.last() is TextBox,
            (old(self).modes@.last() matches Mode::TextBox(t) && t.text.shown
                >= t.text.glyphs.len()) ==> r.event == (if input.spec_is_pressed(
                GameKey::Confirm,
            ) {
                Some(TextBoxEvent::Done)
            } else {
                None::<TextBoxEvent>
            }),
            (old(self).modes@.last() matches Mode::TextBox(t) && t.text.shown
                < t.text.glyphs.len()) ==> r.event is None,
    {
        let top = self.modes.pop();
        match top {
            Some(Mode::TextBox(mut text_box)) => {
                let step = text_box.update(input);
                self.modes.push(Mode::TextBox(text_box));
                proof {
                    assert forall|i: int| 0 <= i < old(self).modes@.len() - 1 implies self.modes@[i]
                        == old(self).modes@[i] by {
                        assert(self.modes@[i] == old(self).modes@.drop_last()[i]);
                    }
                }
                step
            },
            _ => unreached(),
        }
    }

    /// One tick of the prompt on top of the stack.
    pub fn update_yes_no_prompt_mode(&mut self, input: &Input) -> (r: Step<YesNoPromptEvent>)
        requires
            old(self).wf(),
            input.wf(),
            old(self).modes@.len() >= 1,
            old(self).modes@.last() is YesNoPrompt,
        ensures
            final(self).wf(),
            final(self).modes@.len() == old(self).modes@.len(),
            forall|i: int|
                0 <= i < old(self).modes@.len() - 1 ==> final(self).modes@[i] == old(
                    self,
                ).modes@[i],
            final(self).modes@.last() is YesNoPrompt,
    {
        let top = self.modes.pop();
        match top {
            Some(Mode::YesNoPrompt(mut prompt)) => {
                let step = prompt.update(input);
                self.modes.push(Mode::YesNoPrompt(prompt));
                proof {
                    assert forall|i: int| 0 <= i < old(self).modes@.len() - 1 implies self.modes@[i]
                        == old(self).modes@[i] by {
                        assert(self.modes@[i] == old(self).modes@.drop_last()[i]);
                    }
                }
                step
            },
            _ => unreached(),
        }
    }

    /// One tick of the title screen on top of the stack.
    pub fn update_title_mode(&mut self, input: &Input) -> (r: Step<TitleEvent>)
        requires
            old(self).wf(),
            input.wf(),
            old(self).modes@.len() >= 1,
            old(self).modes@.last() is Title,
        ensures
            final(self).wf(),
            final(self).modes@.len() == old(self).modes@.len(),
            forall|i: int|
                0 <= i < old(self).modes@.len() - 1 ==> final(self).modes@[i] == old(
                    self,
                ).modes@[i],
            final(self).modes@.last() is Title,
    {
        let top = self.modes.pop();
        match top {
            Some(Mode::Title(mut title)) => {
                let step = title.update(input);
                self.modes.push(Mode::Title(title));
                proof {
                    assert forall|i: int| 0 <= i < old(self).modes@.len() - 1 implies self.modes@[i]
                        == old(self).modes@[i] by {
                        assert(self.modes@[i] == old(self).modes@.drop_last()[i]);
                    }
                }
                step
            },
            _ => unreached(),
        }
    }

    /// One tick of the options screen on top of the stack.
    pub fn update_options_mode(&mut self, input: &Input) -> (r: Step<OptionsEvent>)
        requires
            old(self).wf(),
            input.wf(),
            old(self).modes@.len() >= 1,
            old(self).modes@.last() is Options,
        ensures
            final(self).wf(),
            final(self).modes@.len() == old(self).modes@.len(),
            forall|i: int|
                0 <= i < old(self).modes@.len() - 1 ==> final(self).modes@[i] == old(
                    self,
                ).modes@[i],
            final(self).modes@.last() is Options,
    {
        let top = self.modes.pop();
        match top {
            Some(Mode::Options(mut options)) => {
                let step = options.update(input);
                self.modes.push(Mode::Options(options));
                proof {
                    assert forall|i: int| 0 <= i < old(self).modes@.len() - 1 implies self.modes@[i]
                        == old(self).modes@[i] by {
                        assert(self.modes@[i] == old(self).modes@.drop_last()[i]);
                    }
                }
                step
            },
            _ => unreached(),
        }
    }

    /// One tick of the debug menu on top of the stack.
    pub fn update_debug_menu_mode(&mut self, input: &Input) -> (r: Step<DebugMenuEvent>)
        requires
            old(self).wf(),
            input.wf(),
            old(self).modes@.len() >= 1,
            old(self).modes@.last() is DebugMenu,
        ensures
            final(self).wf(),
            final(self).modes@.len() == old(self).modes@.len(),
            forall|i: int|
                0 <= i < old(self).modes@.len() - 1 ==> final(self).modes@[i] == old(
                    self,
                ).modes@[i],
            final(self).modes@.last() is DebugMenu,
    {
        let top = self.modes.pop();
        match top {
            Some(Mode::DebugMenu(mut menu)) => {
                let step = menu.update(input);
                self.modes.push(Mode::DebugMenu(menu));
                proof {
                    assert forall|i: int| 0 <= i < old(self).modes@.len() - 1 implies self.modes@[i]
                        == old(self).modes@[i] by {
                        assert(self.modes@[i] == old(self).modes@.drop_last()[i]);
                    }
                }
                step
            },
            _ => unreached(),
        }
    }

    /// One tick of the intro on top of the stack.
    pub fn update_intro_mode(&mut self, input: &Input) -> (r: Step<IntroEvent>)
        requires
            old(self).wf(),
            input.wf(),
            old(self).modes@.len() >= 1,
            old(self).modes@.last() is Intro,
        ensures
            final(self).wf(),
            final(self).modes@.len() == old(self).modes@.len(),
            forall|i: int|
                0 <= i < old(self).modes@.len() - 1 ==> final(self).modes@[i] == old(
                    self,
                ).modes@[i],
            final(self).modes@.last() is Intro,
    {
        let top = self.modes.pop();
        match top {
            Some(Mode::Intro(mut intro)) => {
                let step = intro.update(input);
                self.modes.push(Mode::Intro(intro));
                proof {
                    assert forall|i: int| 0 <= i < old(self).modes@.len() - 1 implies self.modes@[i]
                        == old(self).modes@[i] by {
                        assert(self.modes@[i] == old(self).modes@.drop_last()[i]);
                    }
                }
                step
            },
            _ => unreached(),
        }
    }

    /// One tick of the ending screen on top of the stack.
    pub fn update_ending_mode(&mut self, input: &Input) -> (r: Step<EndingEvent>)
        requires
            old(self).wf(),
            input.wf(),
            old(self).modes@.len() >= 1,
            old(self).modes@.last() is Ending,
        ensures
            final(self).wf(),
            final(self).modes@.len() == old(self).modes@.len(),
            forall|i: int|
                0 <= i < old(self).modes@.len() - 1 ==> final(self).modes@[i] == old(
                    self,
                ).modes@[i],
            final(self).modes@.last() is Ending,
    {
        let top = self.modes.pop();
        match top {
            Some(Mode::Ending(mut ending)) => {
                let step = ending.update(input);
                self.modes.push(Mode::Ending(ending));
                proof {
                    assert forall|i: int| 0 <= i < old(self).modes@.len() - 1 implies self.modes@[i]
                        == old(self).modes@[i] by {
                        assert(self.modes@[i] == old(self).modes@.drop_last()[i]);
                    }
                }
                step
            },
            _ => unreached(),
        }
    }

    /// One tick of the credits on top of the stack.
    pub fn update_credits_mode(&mut self, input: &Input) -> (r: Step<CreditsEvent>)
        requires
            old(self).wf(),
            input.wf(),
            old(self).modes@.len() >= 1,
            old(self).modes@.last() is Credits,
        ensures
            final(self).wf(),
            final(self).modes@.len() == old(self).modes@.len(),
            forall|i: int|
                0 <= i < old(self).modes@.len() - 1 ==> final(self).modes@[i] == old(
                    self,
                ).modes@[i],
            final(self).modes@.last() is Credits,
    {
        let top = self.modes.pop();
        match top {
            Some(Mode::Credits(mut credits)) => {
                let step = credits.update(input);
                self.modes.push(Mode::Credits(credits));
                proof {
                    assert forall|i: int| 0 <= i < old(self).modes@.len() - 1 implies self.modes@[i]
                        == old(self).modes@[i] by {
                        assert(self.modes@[i] == old(self).modes@.drop_last()[i]);
                    }
                }
                step
            },
            _ => unreached(),
        }
    }
}

} // verus!
