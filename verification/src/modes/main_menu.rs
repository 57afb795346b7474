//! The pause menu: player status, and the magic and item submenus that
//! heal outside of battle.

use crate::audio::Sfx;
use crate::input::{GameKey, Input};
use crate::modes::simple::Step;
use crate::progress::{
    heal_spell_amount, salve_heal, spec_heal_spell, spec_item_slot, spec_mp_cost,
    spec_salve_heal, spec_tonic_heal, tonic_heal, Item, Magic, Progress,
};
use vstd::prelude::*;

verus! {

/// Which screen of the pause menu is active.
#[derive(Clone, Copy, Debug, PartialEq, Eq, Structural)]
pub enum MainMenuScreen {
    Main,
    Magic,
    Items,
}

/// The pause menu.  In `status_only` form (shown from the ending screen)
/// it offers no submenus.
pub struct MainMenu {
    pub screen: MainMenuScreen,
    pub selection: u32,
    pub sub_selection: u32,
    pub status_only: bool,
}

/// Terminal events of the pause menu.
#[derive(Clone, Copy, Debug, PartialEq, Eq, Structural)]
pub enum MainMenuEvent {
    Done,
    Options,
}

/// The item kind shown on a submenu row.
pub open spec fn spec_row_item(row: int) -> Item {
    if row == 0 {
        Item::Salve
    } else if row == 1 {
        Item::Tonic
    } else if row == 2 {
        Item::XSalve
    } else {
        Item::XTonic
    }
}

/// Whether an item restores hit points (instead of magic points).
pub open spec fn spec_item_heals_hp(item: Item) -> bool {
    item == Item::Salve || item == Item::XSalve
}

/// How much an item restores, given the stat caps.
pub open spec fn spec_item_heal_amount(item: Item, max_hp: int, max_mp: int) -> int {
    match item {
        Item::Salve => spec_salve_heal(max_hp),
        Item::XSalve => max_hp,
        Item::Tonic => spec_tonic_heal(max_mp),
        Item::XTonic => max_mp,
    }
}

/// Exactly what using the item on a submenu row does to the player: the
/// stack shrinks by one and the stat rises by the item's amount, clamped
/// at its cap; nothing else changes.
pub open spec fn spec_item_use_effect(before: Progress, after: Progress, row: int) -> bool {
    let item = spec_row_item(row);
    let usable = before.spec_item_count(item) > 0 && (if spec_item_heals_hp(item) {
        before.hp < before.max_hp
    } else {
        before.mp < before.max_mp
    });
    if !usable {
        after == before
    } else {
        let amount = spec_item_heal_amount(item, before.max_hp as int, before.max_mp as int);
        &&& after.spec_item_count(item) == before.spec_item_count(item) - 1
        &&& (forall|other: Item|
            other != item ==> after.spec_item_count(other) == before.spec_item_count(other))
        &&& (if spec_item_heals_hp(item) {
            &&& after.hp == (if before.hp + amount <= before.max_hp {
                before.hp + amount
            } else {
                before.max_hp as int
            })
            &&& after.mp == before.mp
        } else {
            &&& after.mp == (if before.mp + amount <= before.max_mp {
                before.mp + amount
            } else {
                before.max_mp as int
            })
            &&& after.hp == before.hp
        })
        &&& after.max_hp == before.max_hp && after.max_mp == before.max_mp
        &&& after.attack == before.attack && after.defense == before.defense
        &&& after.level == before.level && after.exp == before.exp
        &&& after.magic@ == before.magic@
    }
}

/// Exactly what casting the healing spell from the menu does: its cost
/// leaves the magic points and half the hit-point cap returns, clamped.
pub open spec fn spec_heal_cast_effect(before: Progress, after: Progress) -> bool {
    let castable = before.spec_knows(Magic::Heal) && before.mp >= spec_mp_cost(Magic::Heal)
        && before.hp < before.max_hp;
    if !castable {
        after == before
    } else {
        &&& after.mp == before.mp - spec_mp_cost(Magic::Heal)
        &&& after.hp == (if before.hp + spec_heal_spell(before.max_hp as int) <= before.max_hp {
            before.hp + spec_heal_spell(before.max_hp as int)
        } else {
            before.max_hp as int
        })
        &&& after.items@ == before.items@ && after.magic@ == before.magic@
        &&& after.max_hp == before.max_hp && after.max_mp == before.max_mp
        &&& after.attack == before.attack && after.defense == before.defense
        &&& after.level == before.level && after.exp == before.exp
    }
}

/// The item shown on a submenu row.
pub fn row_item(row: u32) -> (r: Item)
    requires
        row < 4,
    ensures
        r == spec_row_item(row as int),
        spec_item_slot(r) == row,
{
    match row {
        0 => Item::Salve,
        1 => Item::Tonic,
        2 => Item::XSalve,
        _ => Item::XTonic,
    }
}

/// Use the item of a submenu row, when one is carried and the stat it
/// restores is below its cap.
pub fn use_item_from_menu(progress: &mut Progress, row: u32) -> (used: bool)
    requires
        old(progress).wf(),
        row < 4,
    ensures
        final(progress).wf(),
        spec_item_use_effect(*old(progress), *final(progress), row as int),
        used == (old(progress).spec_item_count(spec_row_item(row as int)) > 0 && (
        if spec_item_heals_hp(spec_row_item(row as int)) {
            old(progress).hp < old(progress).max_hp
        } else {
            old(progress).mp < old(progress).max_mp
        })),
    {
    let item = row_item(row);
    let count = progress.items[row as usize].amount;
    let usable = count > 0 && (match item {
        Item::Salve | Item::XSalve => progress.hp < progress.max_hp,
        Item::Tonic | Item::XTonic => progress.mp < progress.max_mp,
    });
    if usable {
        progress.consume_item(item);
        match item {
            Item::Salve => {
                let amount = salve_heal(progress.max_hp);
                progress.heal_hp(amount);
            },
            Item::XSalve => {
                let amount = progress.max_hp;
                progress.heal_hp(amount);
            },
            Item::Tonic => {
                let amount = tonic_heal(progress.max_mp);
                progress.heal_mp(amount);
            },
            Item::XTonic => {
                let amount = progress.max_mp;
                progress.heal_mp(amount);
            },
        }
        true
    } else {
        false
    }
}

/// Cast the healing spell from the menu, when it is known, affordable and
/// needed.
pub fn cast_heal_from_menu(progress: &mut Progress) -> (cast: bool)
    requires
        old(progress).wf(),
    ensures
        final(progress).wf(),
        spec_heal_cast_effect(*old(progress), *final(progress)),
        cast == (old(progress).spec_knows(Magic::Heal) && old(progress).mp >= spec_mp_cost(
            Magic::Heal,
        ) && old(progress).hp < old(progress).max_hp),
{
    let cost = Magic::Heal.mp_cost();
    let known = progress.magic[0].known;
    if known && progress.mp >= cost && progress.hp < progress.max_hp {
        progress.spend_mp(cost);
        let amount = heal_spell_amount(progress.max_hp);
        progress.heal_hp(amount);
        true
    } else {
        false
    }
}

impl MainMenu {
    /// The pause menu on its first entry.
    pub fn new(status_only: bool) -> (r: MainMenu)
        ensures
            r.wf(),
            r.status_only == status_only,
            r.screen == MainMenuScreen::Main,
    {
        MainMenu { screen: MainMenuScreen::Main, selection: 0, sub_selection: 0, status_only }
    }

    /// Cursors within their menus.
    pub open spec fn wf(self) -> bool {
        &&& self.selection <= 3
        &&& self.sub_selection <= 4
    }

    /// One tick of the pause menu.  On the main screen, cancel or the
    /// return entry leaves, the options entry raises `Options`, and the
    /// magic and item entries open their submenus; within a submenu,
    /// confirm on a row applies the row's spell or item.
    pub fn update(&mut self, input: &Input, progress: &mut Progress) -> (r: Step<MainMenuEvent>)
        requires
            input.wf(),
            old(self).wf(),
            old(progress).wf(),
        ensures
            final(self).wf(),
            final(progress).wf(),
            final(self).status_only == old(self).status_only,
            old(self).status_only ==> {
                &&& *final(self) == *old(self)
                &&& *final(progress) == *old(progress)
                &&& r.event == if input.spec_is_pressed(GameKey::Cancel) || input.spec_is_pressed(
                    GameKey::Confirm,
                ) {
                    Some(MainMenuEvent::Done)
                } else {
                    None::<MainMenuEvent>
                }
            },
            !old(self).status_only && old(self).screen == MainMenuScreen::Main ==> {
                &&& *final(progress) == *old(progress)
                &&& r.event == if input.spec_is_pressed(GameKey::Cancel) {
                    Some(MainMenuEvent::Done)
                } else if input.spec_is_pressed(GameKey::Confirm) {
                    if old(self).selection == 0 {
                        Some(MainMenuEvent::Done)
                    } else if old(self).selection == 3 {
                        Some(MainMenuEvent::Options)
                    } else {
                        None::<MainMenuEvent>
                    }
                } else {
                    None::<MainMenuEvent>
                }
            },
            !old(self).status_only && old(self).screen != MainMenuScreen::Main ==> r.event
                is None,
            !old(self).status_only && old(self).screen == MainMenuScreen::Items
                && input.spec_is_pressed(GameKey::Confirm) && !input.spec_is_pressed(
                GameKey::Cancel,
            ) && 1 <= old(self).sub_selection <= 4 ==> spec_item_use_effect(
                *old(progress),
                *final(progress),
                old(self).sub_selection - 1,
            ),
            !old(self).status_only && old(self).screen == MainMenuScreen::Magic
                && input.spec_is_pressed(GameKey::Confirm) && !input.spec_is_pressed(
                GameKey::Cancel,
            ) && 1 <= old(self).sub_selection <= 4 ==> if old(self).sub_selection == 1 {
                spec_heal_cast_effect(*old(progress), *final(progress))
            } else {
                *final(progress) == *old(progress)
            },
    {
        if self.status_only {
            if input.is_key_pressed(GameKey::Cancel) || input.is_key_pressed(GameKey::Confirm) {
                return Step { event: Some(MainMenuEvent::Done), sfx: Some(Sfx::Cancel) };
            }
            return Step { event: None, sfx: None };
        }
        match self.screen {
            MainMenuScreen::Main => {
                if input.is_key_pressed(GameKey::Cancel) {
                    Step { event: Some(MainMenuEvent::Done), sfx: Some(Sfx::Cancel) }
                } else if input.is_key_pressed(GameKey::Confirm) {
                    match self.selection {
                        0 => Step { event: Some(MainMenuEvent::Done), sfx: Some(Sfx::Cancel) },
                        1 => {
                            self.screen = MainMenuScreen::Magic;
                            self.sub_selection = 0;
                            Step { event: None, sfx: Some(Sfx::Confirm) }
                        },
                        2 => {
                            self.screen = MainMenuScreen::Items;
                            self.sub_selection = 0;
                            Step { event: None, sfx: Some(Sfx::Confirm) }
                        },
                        _ => Step { event: Some(MainMenuEvent::Options), sfx: Some(Sfx::Confirm) },
                    }
                } else if input.is_key_pressed(GameKey::Up) {
                    self.selection = if self.selection == 0 {
                        3
                    } else {
                        self.selection - 1
                    };
                    Step { event: None, sfx: Some(Sfx::Cursor) }
                } else if input.is_key_pressed(GameKey::Down) {
                    self.selection = if self.selection == 3 {
                        0
                    } else {
                        self.selection + 1
                    };
                    Step { event: None, sfx: Some(Sfx::Cursor) }
                } else {
                    Step { event: None, sfx: None }
                }
            },
            MainMenuScreen::Magic => {
                if input.is_key_pressed(GameKey::Cancel) {
                    self.screen = MainMenuScreen::Main;
                    Step { event: None, sfx: Some(Sfx::Cancel) }
                } else if input.is_key_pressed(GameKey::Confirm) {
                    if self.sub_selection == 0 {
                        self.screen = MainMenuScreen::Main;
                        Step { event: None, sfx: Some(Sfx::Cancel) }
                    } else if self.sub_selection == 1 {
                        let cast = cast_heal_from_menu(progress);
                        Step {
                            event: None,
                            sfx: Some(
                                if cast {
                                    Sfx::Heal
                                } else {
                                    Sfx::Cancel
                                },
                            ),
                        }
                    } else {
                        Step { event: None, sfx: Some(Sfx::Cancel) }
                    }
                } else if input.is_key_pressed(GameKey::Up) {
                    self.sub_selection = if self.sub_selection == 0 {
                        4
                    } else {
                        self.sub_selection - 1
                    };
                    Step { event: None, sfx: Some(Sfx::Cursor) }
                } else if input.is_key_pressed(GameKey::Down) {
                    self.sub_selection = if self.sub_selection == 4 {
                        0
                    } else {
                        self.sub_selection + 1
                    };
                    Step { event: None, sfx: Some(Sfx::Cursor) }
                } else {
                    Step { event: None, sfx: None }
                }
            },
            MainMenuScreen::Items => {
                if input.is_key_pressed(GameKey::Cancel) {
                    self.screen = MainMenuScreen::Main;
                    Step { event: None, sfx: Some(Sfx::Cancel) }
                } else if input.is_key_pressed(GameKey::Confirm) {
                    if self.sub_selection == 0 {
                        self.screen = MainMenuScreen::Main;
                        Step { event: None, sfx: Some(Sfx::Cancel) }
                    } else {
                        let used = use_item_from_menu(progress, self.sub_selection - 1);
                        Step {
                            event: None,
                            sfx: Some(
                                if used {
                                    Sfx::Heal
                                } else {
                                    Sfx::Cancel
                                },
                            ),
                        }
                    }
                } else if input.is_key_pressed(GameKey::Up) {
                    self.sub_selection = if self.sub_selection == 0 {
                        4
                    } else {
                        self.sub_selection - 1
                    };
                    Step { event: None, sfx: Some(Sfx::Cursor) }
                } else if input.is_key_pressed(GameKey::Down) {
                    self.sub_selection = if self.sub_selection == 4 {
                        0
                    } else {
                        self.sub_selection + 1
                    };
                    Step { event: None, sfx: Some(Sfx::Cursor) }
                } else {
                    Step { event: None, sfx: None }
                }
            },
        }
    }
}

} // verus!
