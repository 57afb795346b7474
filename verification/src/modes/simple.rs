//! The small menu and cutscene modes: text box, yes/no prompt, title
//! screen, options, debug menu, intro, ending and credits.
//!
//! Each mode is a little state machine stepped once per tick; `update`
//! consumes one tick of input and either keeps running (`event` is `None`)
//! or finishes with its terminal event.

use crate::audio::Sfx;
use crate::input::{GameKey, Input};
use crate::progress::{Armor, Weapon};
use crate::text::{Text, TEXT_LIMIT};
use vstd::prelude::*;
use vstd::string::StringExecFns;

verus! {

/// Font cell width used by every text block, in pixels.
pub const FONT_W: i32 = 6;

/// Font cell height used by every text block, in pixels.
pub const FONT_H: i32 = 8;

/// One tick's outcome of a mode: a terminal event once the mode is done,
/// and at most one sound effect to play.
pub struct Step<E> {
    pub event: Option<E>,
    pub sfx: Option<Sfx>,
}

/// A modal message box that reveals its text one character per tick.
pub struct TextBox {
    pub text: Text,
}

/// Terminal event of a `TextBox`.
#[derive(Clone, Copy, Debug, PartialEq, Eq, Structural)]
pub enum TextBoxEvent {
    Done,
}

impl TextBox {
    /// A text box holding `s`, fully hidden, ready to reveal.
    pub fn new(s: &str) -> (r: TextBox)
        requires
            s@.len() <= TEXT_LIMIT,
        ensures
            r.text.wf(),
            r.text.shown == 0,
            r.text.glyphs@ == crate::text::spec_layout(s@, FONT_W as int, FONT_H as int, 0, 0),
    {
        let mut text = Text::from_str(26, 124, FONT_W, FONT_H, s);
        text.hide_all_chars();
        TextBox { text }
    }

    /// Reveal one more character per tick; once everything shows, a confirm
    /// press finishes the box.
    pub fn update(&mut self, input: &Input) -> (r: Step<TextBoxEvent>)
        requires
            old(self).text.wf(),
            input.wf(),
        ensures
            final(self).text.wf(),
            old(self).text.shown < old(self).text.glyphs.len() ==> r.event is None
                && final(self).text.shown == old(self).text.shown + 1,
            old(self).text.shown >= old(self).text.glyphs.len() ==> *final(self) == *old(self)
                && r.event == if input.spec_is_pressed(GameKey::Confirm) {
                Some(TextBoxEvent::Done)
            } else {
                None::<TextBoxEvent>
            },
    {
        if !self.text.all_chars_shown() {
            self.text.show_one_char();
            Step { event: None, sfx: None }
        } else if input.is_key_pressed(GameKey::Confirm) {
            Step { event: Some(TextBoxEvent::Done), sfx: Some(Sfx::Confirm) }
        } else {
            Step { event: None, sfx: None }
        }
    }
}

/// A two-way prompt; `choice` is true while the affirmative answer is
/// selected.
pub struct YesNoPrompt {
    pub text: Text,
    pub choice: bool,
}

/// Terminal event of a `YesNoPrompt`.
#[derive(Clone, Copy, Debug, PartialEq, Eq, Structural)]
pub enum YesNoPromptEvent {
    Yes,
    No,
}

impl YesNoPrompt {
    /// A prompt over the given question and labels, starting on the given
    /// choice.
    pub fn new(prompt: &str, yes_label: &str, no_label: &str, initial_choice: bool) -> (r:
        YesNoPrompt)
        requires
            prompt@.len() + yes_label@.len() + no_label@.len() + 4 <= TEXT_LIMIT,
        ensures
            r.text.wf(),
            r.choice == initial_choice,
            r.text.glyphs@ == crate::text::spec_layout(
                prompt@ + "\n "@ + yes_label@ + "\n "@ + no_label@,
                FONT_W as int,
                FONT_H as int,
                0,
                0,
            ),
    {
        let body = String::from_str(prompt).concat("\n ").concat(yes_label).concat("\n ").concat(
            no_label,
        );
        proof {
            reveal_strlit("\n ");
        }
        let text = Text::from_str(26, 124, FONT_W, FONT_H, body.as_str());
        YesNoPrompt { text, choice: initial_choice }
    }

    /// Up and down move the selection; confirm answers with it; cancel
    /// answers no.
    pub fn update(&mut self, input: &Input) -> (r: Step<YesNoPromptEvent>)
        requires
            input.wf(),
        ensures
            final(self).text == old(self).text,
            r.event == if input.spec_is_pressed(GameKey::Confirm) {
                if old(self).choice {
                    Some(YesNoPromptEvent::Yes)
                } else {
                    Some(YesNoPromptEvent::No)
                }
            } else if input.spec_is_pressed(GameKey::Cancel) {
                Some(YesNoPromptEvent::No)
            } else {
                None::<YesNoPromptEvent>
            },
            r.event is None ==> final(self).choice == (if input.spec_is_pressed(GameKey::Up)
                || input.spec_is_pressed(GameKey::Down) {
                !old(self).choice
            } else {
                old(self).choice
            }),
    {
        if input.is_key_pressed(GameKey::Confirm) {
            let event = if self.choice {
                YesNoPromptEvent::Yes
            } else {
                YesNoPromptEvent::No
            };
            Step { event: Some(event), sfx: Some(Sfx::Confirm) }
        } else if input.is_key_pressed(GameKey::Cancel) {
            Step { event: Some(YesNoPromptEvent::No), sfx: Some(Sfx::Cancel) }
        } else if input.is_key_pressed(GameKey::Up) || input.is_key_pressed(GameKey::Down) {
            self.choice = !self.choice;
            Step { event: None, sfx: Some(Sfx::Cursor) }
        } else {
            Step { event: None, sfx: None }
        }
    }
}

/// The title screen: new game, continue, options.
pub struct Title {
    pub selection: u32,
    pub save_exists: bool,
}

/// Terminal event of the title screen.  `NewGame` carries whether the
/// opening sequence should play.
#[derive(Clone, Copy, Debug, PartialEq, Eq, Structural)]
pub enum TitleEvent {
    NewGame(bool),
    Continue,
    Options,
}

impl Title {
    /// The title screen; `save_exists` decides whether continuing is
    /// offered.
    pub fn new(save_exists: bool) -> (r: Title)
        ensures
            r.selection == 0,
            r.save_exists == save_exists,
    {
        Title { selection: 0, save_exists }
    }

    /// Up and down move over the three entries; confirm picks one.
    /// Holding the cancel key while confirming a new game skips the
    /// opening sequence.
    pub fn update(&mut self, input: &Input) -> (r: Step<TitleEvent>)
        requires
            input.wf(),
            old(self).selection <= 2,
        ensures
            final(self).selection <= 2,
            final(self).save_exists == old(self).save_exists,
            input.spec_is_pressed(GameKey::Confirm) ==> r.event == (match old(self).selection {
                0u32 => Some(TitleEvent::NewGame(!input.spec_is_down(GameKey::Cancel))),
                1u32 => if old(self).save_exists {
                    Some(TitleEvent::Continue)
                } else {
                    None::<TitleEvent>
                },
                _ => Some(TitleEvent::Options),
            }),
            !input.spec_is_pressed(GameKey::Confirm) ==> r.event is None,
    {
        if input.is_key_pressed(GameKey::Confirm) {
            match self.selection {
                0 => Step {
                    event: Some(TitleEvent::NewGame(!input.is_key_down(GameKey::Cancel))),
                    sfx: Some(Sfx::Confirm),
                },
                1 => {
                    if self.save_exists {
                        Step { event: Some(TitleEvent::Continue), sfx: Some(Sfx::Confirm) }
                    } else {
                        Step { event: None, sfx: Some(Sfx::Cancel) }
                    }
                },
                _ => Step { event: Some(TitleEvent::Options), sfx: Some(Sfx::Confirm) },
            }
        } else if input.is_key_pressed(GameKey::Up) {
            self.selection = if self.selection == 0 {
                2
            } else {
                self.selection - 1
            };
            Step { event: None, sfx: Some(Sfx::Cursor) }
        } else if input.is_key_pressed(GameKey::Down) {
            self.selection = if self.selection == 2 {
                0
            } else {
                self.selection + 1
            };
            Step { event: None, sfx: Some(Sfx::Cursor) }
        } else {
            Step { event: None, sfx: None }
        }
    }
}

/// The options screen: two volume rows, credits and quit.
pub struct Options {
    pub selection: u32,
    pub music_volume: u32,
    pub sfx_volume: u32,
}

/// Terminal events of the options screen.
#[derive(Clone, Copy, Debug, PartialEq, Eq, Structural)]
pub enum OptionsEvent {
    Credits,
    Done,
    Quit,
}

impl Options {
    /// The options screen with both volumes at the given levels.
    pub fn new(music_volume: u32, sfx_volume: u32) -> (r: Options)
        requires
            music_volume <= 100,
            sfx_volume <= 100,
        ensures
            r.wf(),
            r.music_volume == music_volume,
            r.sfx_volume == sfx_volume,
    {
        Options { selection: 0, music_volume, sfx_volume }
    }

    /// Selection on one of the four rows and both volumes in range.
    pub open spec fn wf(self) -> bool {
        &&& self.selection <= 3
        &&& self.music_volume <= 100
        &&& self.sfx_volume <= 100
    }

    /// Up and down move over the rows; left and right nudge the selected
    /// volume by ten; confirm picks credits or quit; cancel leaves.
    pub fn update(&mut self, input: &Input) -> (r: Step<OptionsEvent>)
        requires
            input.wf(),
            old(self).wf(),
        ensures
            final(self).wf(),
            input.spec_is_pressed(GameKey::Cancel) ==> r.event == Some(OptionsEvent::Done),
            !input.spec_is_pressed(GameKey::Cancel) && input.spec_is_pressed(GameKey::Confirm)
                ==> r.event == (match old(self).selection {
                2u32 => Some(OptionsEvent::Credits),
                3u32 => Some(OptionsEvent::Quit),
                _ => None::<OptionsEvent>,
            }),
            !input.spec_is_pressed(GameKey::Cancel) && !input.spec_is_pressed(GameKey::Confirm)
                ==> r.event is None,
    {
        if input.is_key_pressed(GameKey::Cancel) {
            Step { event: Some(OptionsEvent::Done), sfx: Some(Sfx::Cancel) }
        } else if input.is_key_pressed(GameKey::Confirm) {
            match self.selection {
                2 => Step { event: Some(OptionsEvent::Credits), sfx: Some(Sfx::Confirm) },
                3 => Step { event: Some(OptionsEvent::Quit), sfx: Some(Sfx::Confirm) },
                _ => Step { event: None, sfx: None },
            }
        } else if input.is_key_pressed(GameKey::Up) {
            self.selection = if self.selection == 0 {
                3
            } else {
                self.selection - 1
            };
            Step { event: None, sfx: Some(Sfx::Cursor) }
        } else if input.is_key_pressed(GameKey::Down) {
            self.selection = if self.selection == 3 {
                0
            } else {
                self.selection + 1
            };
            Step { event: None, sfx: Some(Sfx::Cursor) }
        } else if input.is_key_pressed(GameKey::Left) {
            if self.selection == 0 {
                self.music_volume = if self.music_volume >= 10 {
                    self.music_volume - 10
                } else {
                    0
                };
            } else if self.selection == 1 {
                self.sfx_volume = if self.sfx_volume >= 10 {
                    self.sfx_volume - 10
                } else {
                    0
                };
            }
            Step { event: None, sfx: Some(Sfx::Cursor) }
        } else if input.is_key_pressed(GameKey::Right) {
            if self.selection == 0 {
                self.music_volume = if self.music_volume <= 90 {
                    self.music_volume + 10
                } else {
                    100
                };
            } else if self.selection == 1 {
                self.sfx_volume = if self.sfx_volume <= 90 {
                    self.sfx_volume + 10
                } else {
                    100
                };
            }
            Step { event: None, sfx: Some(Sfx::Cursor) }
        } else {
            Step { event: None, sfx: None }
        }
    }
}

/// The debug menu: a command list with one adjustable argument.
pub struct DebugMenu {
    pub selection: u32,
    pub argument: u32,
}

/// Terminal events of the debug menu.
pub enum DebugMenuEvent {
    Cancel,
    GainLevel,
    Battle(u32),
    SetWeapon(Option<Weapon>),
    SetArmor(Option<Armor>),
    GetItems,
    LearnAllMagic,
    ResetStepCounts,
    ChangeFlag(u32),
    Warp(u32, i32, i32),
    Quit,
}

/// The weapon a debug tier stands for.
pub open spec fn spec_tier_weapon(tier: u32, weapon: Option<Weapon>) -> bool {
    if tier == 0 {
        weapon is None
    } else {
        weapon matches Some(w) && (if tier == 1 {
            w.name@ == "Short Sword"@ && w.attack == 2
        } else if tier == 2 {
            w.name@ == "Long Sword"@ && w.attack == 7
        } else if tier == 3 {
            w.name@ == "Duelist Sword"@ && w.attack == 13
        } else {
            w.name@ == "Valor Blade"@ && w.attack == 25
        })
    }
}

/// The armor a debug tier stands for.
pub open spec fn spec_tier_armor(tier: u32, armor: Option<Armor>) -> bool {
    if tier == 0 {
        armor is None
    } else {
        armor matches Some(a) && (if tier == 1 {
            a.name@ == "Leather Armor"@ && a.defense == 2
        } else if tier == 2 {
            a.name@ == "Chain Vest"@ && a.defense == 7
        } else if tier == 3 {
            a.name@ == "Steel Armor"@ && a.defense == 13
        } else {
            a.name@ == "Mythic Plate"@ && a.defense == 25
        })
    }
}

/// The command a confirmed debug-menu entry issues, given the selection
/// and the adjustable argument.
pub open spec fn spec_debug_command(selection: u32, argument: u32, event: Option<
    DebugMenuEvent,
>) -> bool {
    if selection == 0 {
        event matches Some(DebugMenuEvent::Cancel)
    } else if selection == 1 {
        event matches Some(DebugMenuEvent::GainLevel)
    } else if selection == 2 {
        event == Some(DebugMenuEvent::Battle(argument))
    } else if selection == 3 {
        event matches Some(DebugMenuEvent::SetWeapon(w)) && spec_tier_weapon(argument % 5, w)
    } else if selection == 4 {
        event matches Some(DebugMenuEvent::SetArmor(a)) && spec_tier_armor(argument % 5, a)
    } else if selection == 5 {
        event matches Some(DebugMenuEvent::GetItems)
    } else if selection == 6 {
        event matches Some(DebugMenuEvent::LearnAllMagic)
    } else if selection == 7 {
        event matches Some(DebugMenuEvent::ResetStepCounts)
    } else if selection == 8 {
        event == Some(DebugMenuEvent::ChangeFlag(argument % 3))
    } else if selection == 9 {
        event == Some(DebugMenuEvent::Warp((argument + 1) as u32, 5, 5))
    } else {
        event matches Some(DebugMenuEvent::Quit)
    }
}

/// Number of debug menu entries.
pub const DEBUG_ENTRIES: u32 = 11;

impl DebugMenu {
    /// The debug menu, on its first entry.
    pub fn new() -> (r: DebugMenu)
        ensures
            r.wf(),
    {
        DebugMenu { selection: 0, argument: 0 }
    }

    /// Selection on one of the entries and the argument within its range.
    pub open spec fn wf(self) -> bool {
        &&& self.selection < DEBUG_ENTRIES
        &&& self.argument <= 8
    }

    /// The weapon of a debug tier.
    fn tier_weapon(tier: u32) -> (r: Option<Weapon>)
        ensures
            spec_tier_weapon(tier, r),
            tier == 0 ==> r is None,
            tier != 0 ==> (r matches Some(w) && 1 <= w.attack <= 25),
    {
        match tier {
            0 => None,
            1 => Some(Weapon { name: String::from_str("Short Sword"), attack: 2 }),
            2 => Some(Weapon { name: String::from_str("Long Sword"), attack: 7 }),
            3 => Some(Weapon { name: String::from_str("Duelist Sword"), attack: 13 }),
            _ => Some(Weapon { name: String::from_str("Valor Blade"), attack: 25 }),
        }
    }

    /// The armor of a debug tier.
    fn tier_armor(tier: u32) -> (r: Option<Armor>)
        ensures
            spec_tier_armor(tier, r),
            tier == 0 ==> r is None,
            tier != 0 ==> (r matches Some(a) && 1 <= a.defense <= 25),
    {
        match tier {
            0 => None,
            1 => Some(Armor { name: String::from_str("Leather Armor"), defense: 2 }),
            2 => Some(Armor { name: String::from_str("Chain Vest"), defense: 7 }),
            3 => Some(Armor { name: String::from_str("Steel Armor"), defense: 13 }),
            _ => Some(Armor { name: String::from_str("Mythic Plate"), defense: 25 }),
        }
    }

    /// Up and down move over the commands, left and right adjust the
    /// argument, confirm issues the command, cancel leaves.
    pub fn update(&mut self, input: &Input) -> (r: Step<DebugMenuEvent>)
        requires
            input.wf(),
            old(self).wf(),
        ensures
            final(self).wf(),
            input.spec_is_pressed(GameKey::Cancel) ==> (r.event matches Some(
                DebugMenuEvent::Cancel,
            )),
            !input.spec_is_pressed(GameKey::Cancel) && input.spec_is_pressed(GameKey::Confirm)
                ==> spec_debug_command(old(self).selection, old(self).argument, r.event),
            !input.spec_is_pressed(GameKey::Cancel) && !input.spec_is_pressed(GameKey::Confirm)
                ==> r.event is None,
    {
        if input.is_key_pressed(GameKey::Cancel) {
            Step { event: Some(DebugMenuEvent::Cancel), sfx: Some(Sfx::Cancel) }
        } else if input.is_key_pressed(GameKey::Confirm) {
            let event = match self.selection {
                0 => DebugMenuEvent::Cancel,
                1 => DebugMenuEvent::GainLevel,
                2 => DebugMenuEvent::Battle(self.argument),
                3 => DebugMenuEvent::SetWeapon(Self::tier_weapon(self.argument % 5)),
                4 => DebugMenuEvent::SetArmor(Self::tier_armor(self.argument % 5)),
                5 => DebugMenuEvent::GetItems,
                6 => DebugMenuEvent::LearnAllMagic,
                7 => DebugMenuEvent::ResetStepCounts,
                8 => DebugMenuEvent::ChangeFlag(self.argument % 3),
                9 => DebugMenuEvent::Warp(self.argument + 1, 5, 5),
                _ => DebugMenuEvent::Quit,
            };
            Step { event: Some(event), sfx: Some(Sfx::Confirm) }
        } else if input.is_key_pressed(GameKey::Up) {
            self.selection = if self.selection == 0 {
                DEBUG_ENTRIES - 1
            } else {
                self.selection - 1
            };
            Step { event: None, sfx: Some(Sfx::Cursor) }
        } else if input.is_key_pressed(GameKey::Down) {
            self.selection = if self.selection == DEBUG_ENTRIES - 1 {
                0
            } else {
                self.selection + 1
            };
            Step { event: None, sfx: Some(Sfx::Cursor) }
        } else if input.is_key_pressed(GameKey::Left) {
            self.argument = if self.argument == 0 {
                8
            } else {
                self.argument - 1
            };
            Step { event: None, sfx: Some(Sfx::Cursor) }
        } else if input.is_key_pressed(GameKey::Right) {
            self.argument = if self.argument == 8 {
                0
            } else {
                self.argument + 1
            };
            Step { event: None, sfx: Some(Sfx::Cursor) }
        } else {
            Step { event: None, sfx: None }
        }
    }
}

/// Ticks the intro vision plays before it can be confirmed away.
pub const INTRO_TICKS: u32 = 240;

/// The opening vision.
pub struct Intro {
    pub ticks: u32,
}

/// Terminal event of the intro.
#[derive(Clone, Copy, Debug, PartialEq, Eq, Structural)]
pub enum IntroEvent {
    Done,
}

impl Intro {
    /// The intro at its start.
    pub fn new() -> (r: Intro)
        ensures
            r.ticks == INTRO_TICKS,
    {
        Intro { ticks: INTRO_TICKS }
    }

    /// The vision runs down its tick count, then finishes; a confirm press
    /// ends it early.
    pub fn update(&mut self, input: &Input) -> (r: Step<IntroEvent>)
        requires
            input.wf(),
        ensures
            r.event == if old(self).ticks == 0 || input.spec_is_pressed(GameKey::Confirm) {
                Some(IntroEvent::Done)
            } else {
                None::<IntroEvent>
            },
            r.event is None ==> final(self).ticks == old(self).ticks - 1,
    {
        if self.ticks == 0 || input.is_key_pressed(GameKey::Confirm) {
            Step { event: Some(IntroEvent::Done), sfx: None }
        } else {
            self.ticks = self.ticks - 1;
            Step { event: None, sfx: None }
        }
    }
}

/// The ending screen, looping between its two offers.
pub struct Ending {
    pub selection: u32,
}

/// Events of the ending screen; it never finishes on its own.
#[derive(Clone, Copy, Debug, PartialEq, Eq, Structural)]
pub enum EndingEvent {
    Credits,
    Status,
}

impl Ending {
    /// The ending screen on its first entry.
    pub fn new() -> (r: Ending)
        ensures
            r.selection == 0,
    {
        Ending { selection: 0 }
    }

    /// Up and down toggle between the offers; confirm picks one.
    pub fn update(&mut self, input: &Input) -> (r: Step<EndingEvent>)
        requires
            input.wf(),
            old(self).selection <= 1,
        ensures
            final(self).selection <= 1,
            input.spec_is_pressed(GameKey::Confirm) ==> r.event == (if old(self).selection == 0 {
                Some(EndingEvent::Credits)
            } else {
                Some(EndingEvent::Status)
            }),
            !input.spec_is_pressed(GameKey::Confirm) ==> r.event is None,
    {
        if input.is_key_pressed(GameKey::Confirm) {
            let event = if self.selection == 0 {
                EndingEvent::Credits
            } else {
                EndingEvent::Status
            };
            Step { event: Some(event), sfx: Some(Sfx::Confirm) }
        } else if input.is_key_pressed(GameKey::Up) || input.is_key_pressed(GameKey::Down) {
            self.selection = if self.selection == 0 {
                1
            } else {
                0
            };
            Step { event: None, sfx: Some(Sfx::Cursor) }
        } else {
            Step { event: None, sfx: None }
        }
    }
}

/// Ticks the credits roll before a confirm press is accepted.
pub const CREDITS_TICKS: u32 = 600;

/// The credits roll.
pub struct Credits {
    pub ticks: u32,
}

/// Terminal event of the credits.
#[derive(Clone, Copy, Debug, PartialEq, Eq, Structural)]
pub enum CreditsEvent {
    Done,
}

impl Credits {
    /// The credits at their start.
    pub fn new() -> (r: Credits)
        ensures
            r.ticks == CREDITS_TICKS,
    {
        Credits { ticks: CREDITS_TICKS }
    }

    /// The roll runs down its tick count; afterwards a confirm press ends
    /// it.
    pub fn update(&mut self, input: &Input) -> (r: Step<CreditsEvent>)
        requires
            input.wf(),
        ensures
            r.event == if old(self).ticks == 0 && input.spec_is_pressed(GameKey::Confirm) {
                Some(CreditsEvent::Done)
            } else {
                None::<CreditsEvent>
            },
            old(self).ticks > 0 ==> final(self).ticks == old(self).ticks - 1,
    {
        if self.ticks == 0 {
            if input.is_key_pressed(GameKey::Confirm) {
                Step { event: Some(CreditsEvent::Done), sfx: Some(Sfx::Confirm) }
            } else {
                Step { event: None, sfx: None }
            }
        } else {
            self.ticks = self.ticks - 1;
            Step { event: None, sfx: None }
        }
    }
}

} // verus!
