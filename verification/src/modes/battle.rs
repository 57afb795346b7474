//! The battle mode: a turn loop over the player's action menu, the damage
//! engine, leveling and loot.
//!
//! One battle is a cycle of phases: at the turn's start the follow-up bonus
//! ages and the turn's prospective damage is drawn; the action menu then
//! takes a choice; the blow, spell, item or flee attempt plays out through
//! flicker, message-reveal and confirm phases; then the enemy acts, and the
//! cycle repeats until victory, defeat or escape.

use crate::audio::Sfx;
use crate::combat::{calc_enemy_damage, calc_magic_damage, roll_loot, run_attempt,
    select_enemy_action, spec_chosen_action, spec_enemy_damage, spec_loot_item,
    spec_magic_damage};
use crate::enemy::{Enemy, EnemyAction};
use crate::input::{GameKey, Input};
use crate::modes::main_menu::{row_item, spec_item_heal_amount, spec_item_heals_hp,
    spec_row_item};
use crate::modes::simple::Step;
use crate::progress::{heal_spell_amount, player_rank, salve_heal, spec_capped,
    spec_heal_spell, spec_mp_cost, tonic_heal, Item, Magic, Progress, EXP_CAP, MAX_LEVEL,
    STAT_LIMIT};
use crate::rng::{spec_draw, spec_next_state, Rng};
use crate::text::u32_to_string;
use vstd::prelude::*;
use vstd::string::StringExecFns;

verus! {

/// Ticks of a hit-flicker animation.
pub const FLICKER_TICKS: u32 = 20;

/// A battle message revealed one character per tick.
pub struct Message {
    pub text: String,
    pub total: usize,
    pub shown: usize,
}

impl Message {
    /// No more characters shown than the message has.
    pub open spec fn wf(self) -> bool {
        &&& self.shown <= self.total
        &&& self.total == self.text@.len()
    }

    /// An empty message.
    pub fn new() -> (r: Message)
        ensures
            r.wf(),
            r.text@.len() == 0,
            r.total == 0,
            r.shown == 0,
    {
        Message { text: String::new(), total: 0, shown: 0 }
    }

    /// Replace the message; it starts fully hidden.
    pub fn set(&mut self, s: String)
        ensures
            final(self).wf(),
            final(self).text@ == s@,
            final(self).shown == 0,
    {
        self.total = s.as_str().unicode_len();
        self.text = s;
        self.shown = 0;
    }

    /// Whether the whole message shows.
    pub fn all_shown(&self) -> (r: bool)
        ensures
            r == (self.shown >= self.total),
    {
        self.shown >= self.total
    }

    /// Reveal one more character.
    pub fn show_one(&mut self)
        requires
            old(self).wf(),
        ensures
            final(self).wf(),
            final(self).text == old(self).text,
            final(self).total == old(self).total,
            final(self).shown == if old(self).shown < old(self).total {
                old(self).shown + 1
            } else {
                old(self).shown as int
            },
    {
        if self.shown < self.total {
            self.shown = self.shown + 1;
        }
    }
}

/// What follows once the current message is confirmed (or the current
/// animation ends).
#[derive(Clone, Copy, Debug, PartialEq, Eq, Structural)]
pub enum AfterMessage {
    /// Check the enemy's hit points, then victory or the enemy's turn.
    PlayerActionDone,
    /// Resolve the flee attempt.
    RunCheck,
    /// Grant the experience reward, then one level-up per message.
    VictoryLevels,
    /// Finish the battle as a victory.
    ReturnVictory,
    /// Finish the battle as an escape.
    ReturnRanAway,
    /// Check the player's hit points, then defeat, escape or a new turn.
    EnemyTurnDone,
}

/// Where the battle stands.
#[derive(Clone, Copy, Debug, PartialEq, Eq, Structural)]
pub enum BattlePhase {
    /// Age the follow-up and draw the turn's prospective damage.
    TurnStart,
    /// The four-entry action menu.
    ActionMenu { selection: u32 },
    /// The spell submenu; entry zero goes back.
    MagicMenu { selection: u32 },
    /// The item submenu; entry zero goes back.
    ItemMenu { selection: u32 },
    /// The enemy sprite flickers from a hit.
    EnemyFlicker { ticks: u32, next: AfterMessage },
    /// The status box flickers from a hit.
    StatusFlicker { ticks: u32, next: AfterMessage },
    /// The message reveals one character per tick.
    Reveal { next: AfterMessage },
    /// The revealed message waits for a confirm press.
    WaitConfirm { next: AfterMessage },
}

/// Terminal events of a battle.
#[derive(Clone, Copy, Debug, PartialEq, Eq, Structural)]
pub enum BattleEvent {
    Defeat,
    RanAway,
    Victory,
}

/// Whether a continuation cannot lead to an escape.
pub open spec fn spec_after_no_flee(after: AfterMessage) -> bool {
    after != AfterMessage::RunCheck && after != AfterMessage::ReturnRanAway
}

/// A follow-up one turn later: its countdown falls by one until it runs
/// out.
pub open spec fn spec_aged_follow_up(follow_up: Option<(Magic, u32)>) -> Option<(Magic, u32)> {
    match follow_up {
        Some((magic, turns)) => if turns > 0 {
            Some((magic, (turns - 1) as u32))
        } else {
            None
        },
        None => None,
    }
}

/// Hit points after a blow, never below zero.
pub open spec fn spec_hp_after(hp: int, damage: int) -> int {
    if damage <= hp {
        hp - damage
    } else {
        0
    }
}

/// Exactly what the enemy's turn does, starting from generator state `s`:
/// one draw picks the table entry; a damaging entry takes a second draw to
/// round its blow, which lands on the player's hit points.
pub open spec fn spec_enemy_turn_effect(
    enemy: Enemy,
    before: Progress,
    after: Progress,
    s: u64,
    s_after: u64,
    phase_after: BattlePhase,
) -> bool {
    let idx = spec_chosen_action(
        enemy.actions@.map_values(|a: EnemyAction| a.chance),
        spec_draw(s, 100) as int,
    );
    match enemy.actions@[idx].damage_factor {
        Some(factor) => {
            &&& after.hp == spec_hp_after(
                before.hp as int,
                spec_enemy_damage(
                    spec_next_state(s),
                    enemy.attack as int,
                    before.defense as int,
                    factor as int,
                ),
            )
            &&& after == (Progress { hp: after.hp, ..before })
            &&& s_after == spec_next_state(spec_next_state(s))
            &&& phase_after == (BattlePhase::StatusFlicker {
                ticks: FLICKER_TICKS,
                next: AfterMessage::EnemyTurnDone,
            })
        },
        None => {
            &&& after == before
            &&& s_after == spec_next_state(s)
            &&& phase_after == (BattlePhase::Reveal { next: AfterMessage::EnemyTurnDone })
        },
    }
}

/// Exactly what confirming a victory-sequence message does: the pending
/// experience reward lands exactly once (saturating at the counter's cap);
/// then, while the experience covers the next threshold, one level-up per
/// confirm; once it no longer does, the loot roll decides between one item
/// (its stack capped at nine) and the immediate victory.
pub open spec fn spec_victory_confirm_effect(
    battle: Battle,
    before: Progress,
    after: Progress,
    s: u64,
    s_after: u64,
    phase_after: BattlePhase,
    event: Option<BattleEvent>,
    reward_pending_after: bool,
) -> bool {
    let granted = if battle.reward_pending {
        battle.enemy.exp as int
    } else {
        0
    };
    let exp1 = if before.exp + granted <= EXP_CAP {
        before.exp + granted
    } else {
        EXP_CAP as int
    };
    &&& reward_pending_after == false
    &&& if before.level < MAX_LEVEL && exp1 >= 10 * before.level {
        &&& after.level == before.level + 1
        &&& after.exp == exp1 - 10 * before.level
        &&& after.base_exp == before.base_exp + 10 * before.level
        &&& after.max_hp == spec_capped(before.max_hp + 5)
        &&& after.max_mp == spec_capped(before.max_mp + 2)
        &&& after.attack == spec_capped(before.attack + 2)
        &&& after.defense == spec_capped(before.defense + 2)
        &&& after.hp == before.hp && after.mp == before.mp
        &&& after.items@ == before.items@ && after.magic@ == before.magic@
        &&& s_after == s
        &&& phase_after == (BattlePhase::Reveal { next: AfterMessage::VictoryLevels })
        &&& event is None
    } else {
        let gate = spec_draw(s, 10);
        &&& (gate == 0 ==> {
            let item = spec_loot_item(spec_draw(spec_next_state(s), 18) as int);
            &&& s_after == spec_next_state(spec_next_state(s))
            &&& after.spec_item_count(item) == (
            if before.spec_item_count(item) < 9 {
                before.spec_item_count(item) + 1
            } else {
                9
            })
            &&& (forall|other: Item|
                other != item ==> after.spec_item_count(other) == before.spec_item_count(
                    other,
                ))
            &&& after == (Progress { exp: exp1 as i64, items: after.items, ..before })
            &&& (before.spec_item_count(item) < 9 ==> phase_after == (BattlePhase::Reveal {
                next: AfterMessage::ReturnVictory,
            }) && event is None)
            &&& (before.spec_item_count(item) >= 9 ==> event == Some(BattleEvent::Victory))
        })
        &&& (gate != 0 ==> {
            &&& s_after == spec_next_state(s)
            &&& after == (Progress { exp: exp1 as i64, ..before })
            &&& event == Some(BattleEvent::Victory)
        })
    }
}

/// Exactly what resolving a flee attempt does: one draw against the
/// enemy's lost hit points plus the blow the player gave up; on failure
/// the enemy takes its turn at once and the escape is owed after it.
pub open spec fn spec_run_confirm_effect(
    battle: Battle,
    before: Progress,
    after: Progress,
    s: u64,
    s_after: u64,
    phase_after: BattlePhase,
    run_after_flag: bool,
) -> bool {
    let escaped = spec_draw(s, battle.enemy_max_hp as u32) < battle.enemy_max_hp
        - battle.enemy.hp + battle.player_damage;
    if escaped {
        &&& after == before
        &&& s_after == spec_next_state(s)
        &&& phase_after == (BattlePhase::Reveal { next: AfterMessage::ReturnRanAway })
        &&& run_after_flag == battle.run_after_enemy_turn
    } else {
        &&& run_after_flag == true
        &&& spec_enemy_turn_effect(
            battle.enemy,
            before,
            after,
            spec_next_state(s),
            s_after,
            phase_after,
        )
    }
}

/// Whether a continuation belongs to the victory sequence, which only
/// begins once the enemy has fallen.
pub open spec fn spec_after_victory(after: AfterMessage) -> bool {
    after == AfterMessage::VictoryLevels || after == AfterMessage::ReturnVictory
}

/// Whether a phase belongs to the victory sequence.
pub open spec fn spec_phase_victory(phase: BattlePhase) -> bool {
    match phase {
        BattlePhase::EnemyFlicker { next, .. } => spec_after_victory(next),
        BattlePhase::StatusFlicker { next, .. } => spec_after_victory(next),
        BattlePhase::Reveal { next } => spec_after_victory(next),
        BattlePhase::WaitConfirm { next } => spec_after_victory(next),
        _ => false,
    }
}

/// Whether a phase can only be reached while the enemy still stands.
pub open spec fn spec_phase_enemy_alive(phase: BattlePhase) -> bool {
    match phase {
        BattlePhase::TurnStart => true,
        BattlePhase::ActionMenu { .. } => true,
        BattlePhase::MagicMenu { .. } => true,
        BattlePhase::ItemMenu { .. } => true,
        BattlePhase::EnemyFlicker { next, .. } => spec_after_alive(next),
        BattlePhase::StatusFlicker { next, .. } => spec_after_alive(next),
        BattlePhase::Reveal { next } => spec_after_alive(next),
        BattlePhase::WaitConfirm { next } => spec_after_alive(next),
    }
}

/// Whether a continuation can only be pending while the enemy still
/// stands.
pub open spec fn spec_after_alive(after: AfterMessage) -> bool {
    after == AfterMessage::RunCheck || after == AfterMessage::ReturnRanAway || after
        == AfterMessage::EnemyTurnDone
}

/// Whether a phase cannot lead to an escape.
pub open spec fn spec_phase_no_flee(phase: BattlePhase) -> bool {
    match phase {
        BattlePhase::EnemyFlicker { next, .. } => spec_after_no_flee(next),
        BattlePhase::StatusFlicker { next, .. } => spec_after_no_flee(next),
        BattlePhase::Reveal { next } => spec_after_no_flee(next),
        BattlePhase::WaitConfirm { next } => spec_after_no_flee(next),
        _ => true,
    }
}

/// One running battle.
pub struct Battle {
    pub enemy: Enemy,
    pub enemy_max_hp: i32,
    pub boss_fight: bool,
    pub enemy_visible: bool,
    pub status_visible: bool,
    pub menu_visible: bool,
    pub message: Message,
    pub follow_up: Option<(Magic, u32)>,
    pub player_damage: i32,
    pub run_after_enemy_turn: bool,
    pub reward_pending: bool,
    pub phase: BattlePhase,
}

impl Battle {
    /// Well-formedness: the enemy in range of its starting hit points, the
    /// turn damage bounded, cursors inside their menus, and no path to an
    /// escape in a boss fight.
    pub open spec fn wf(self) -> bool {
        &&& self.enemy.wf()
        &&& 0 <= self.enemy.hp <= self.enemy_max_hp <= STAT_LIMIT
        &&& 1 <= self.enemy_max_hp
        &&& 0 <= self.player_damage <= 1000001
        &&& self.message.wf()
        &&& (match self.phase {
            BattlePhase::ActionMenu { selection } => selection <= 3,
            BattlePhase::MagicMenu { selection } => selection <= 4,
            BattlePhase::ItemMenu { selection } => selection <= 4,
            BattlePhase::EnemyFlicker { ticks, .. } => ticks <= FLICKER_TICKS,
            BattlePhase::StatusFlicker { ticks, .. } => ticks <= FLICKER_TICKS,
            _ => true,
        })
        &&& (self.boss_fight ==> !self.run_after_enemy_turn && spec_phase_no_flee(self.phase))
        &&& (spec_phase_victory(self.phase) ==> self.enemy.hp == 0)
        &&& (spec_phase_enemy_alive(self.phase) ==> self.enemy.hp >= 1)
    }

    /// A battle against the given enemy, about to take its first turn.
    pub fn new(enemy: Enemy, boss_fight: bool) -> (r: Battle)
        requires
            enemy.wf(),
            1 <= enemy.hp,
        ensures
            r.wf(),
            r.enemy == enemy,
            r.enemy_max_hp == enemy.hp,
            r.boss_fight == boss_fight,
            r.phase == BattlePhase::TurnStart,
            r.follow_up is None,
            r.enemy_visible && r.status_visible && !r.menu_visible,
            r.player_damage == 0,
            !r.run_after_enemy_turn && !r.reward_pending,
            r.message.text@.len() == 0 && r.message.shown == 0,
    {
        let enemy_max_hp = enemy.hp;
        Battle {
            enemy,
            enemy_max_hp,
            boss_fight,
            enemy_visible: true,
            status_visible: true,
            menu_visible: false,
            message: Message::new(),
            follow_up: None,
            player_damage: 0,
            run_after_enemy_turn: false,
            reward_pending: false,
            phase: BattlePhase::TurnStart,
        }
    }

    /// The enemy takes its turn: one draw picks the action, and if the
    /// action deals damage another draw rounds it.
    fn enemy_turn(&mut self, progress: &mut Progress, rng: &mut Rng) -> (r: Step<BattleEvent>)
        requires
            old(self).wf(),
            old(progress).wf(),
            old(self).enemy.hp >= 1,
        ensures
            final(self).wf(),
            final(progress).wf(),
            r.event is None,
            final(self).boss_fight == old(self).boss_fight,
            final(self).run_after_enemy_turn == old(self).run_after_enemy_turn,
            final(self).enemy == old(self).enemy,
            final(self).reward_pending == old(self).reward_pending,
            spec_enemy_turn_effect(
                old(self).enemy,
                *old(progress),
                *final(progress),
                old(rng)@,
                final(rng)@,
                final(self).phase,
            ),
    {
        let roll = rng.random(100);
        let idx = select_enemy_action(&self.enemy.actions, roll);
        let mut msg = String::new().concat(self.enemy.name.as_str()).concat(" ").concat(
            self.enemy.actions[idx].message.as_str(),
        );
        let factor = self.enemy.actions[idx].damage_factor;
        match factor {
            Some(f) => {
                let damage = calc_enemy_damage(rng, self.enemy.attack, progress.defense, f);
                progress.damage_hp(damage);
                msg = msg.concat("\n").concat(u32_to_string(damage as u32).as_str()).concat(
                    " HP damage to Coric.",
                );
                self.message.set(msg);
                self.phase = BattlePhase::StatusFlicker {
                    ticks: FLICKER_TICKS,
                    next: AfterMessage::EnemyTurnDone,
                };
                Step { event: None, sfx: Some(Sfx::Hurt) }
            },
            None => {
                self.message.set(msg);
                self.phase = BattlePhase::Reveal { next: AfterMessage::EnemyTurnDone };
                Step { event: None, sfx: None }
            },
        }
    }

    /// The enemy fell: announce the reward.
    fn begin_victory(&mut self, progress: &mut Progress) -> (r: Step<BattleEvent>)
        requires
            old(self).wf(),
            old(progress).wf(),
            old(self).enemy.hp == 0,
        ensures
            final(self).wf(),
            final(progress).wf(),
            r.event is None,
            final(self).boss_fight == old(self).boss_fight,
            final(self).enemy == old(self).enemy,
            *final(progress) == *old(progress),
            final(self).phase == (BattlePhase::Reveal { next: AfterMessage::VictoryLevels }),
            final(self).reward_pending,
    {
        self.enemy_visible = false;
        self.reward_pending = true;
        let msg = String::new().concat(self.enemy.name.as_str()).concat(
            " is defeated!\nCoric gained ",
        ).concat(u32_to_string(self.enemy.exp as u32).as_str()).concat(" XP!");
        self.message.set(msg);
        self.phase = BattlePhase::Reveal { next: AfterMessage::VictoryLevels };
        Step { event: None, sfx: None }
    }

    /// Grant the pending reward, then one level-up message at a time; when
    /// the experience is spent, roll for loot and finish.
    fn victory_levels(&mut self, progress: &mut Progress, rng: &mut Rng) -> (r: Step<BattleEvent>)
        requires
            old(self).wf(),
            old(progress).wf(),
            old(self).enemy.hp == 0,
        ensures
            final(self).wf(),
            final(progress).wf(),
            final(self).boss_fight == old(self).boss_fight,
            final(self).enemy == old(self).enemy,
            r.event is Some ==> r.event == Some(BattleEvent::Victory),
            spec_victory_confirm_effect(
                *old(self),
                *old(progress),
                *final(progress),
                old(rng)@,
                final(rng)@,
                final(self).phase,
                r.event,
                final(self).reward_pending,
            ),
    {
        if self.reward_pending {
            self.reward_pending = false;
            progress.add_exp(self.enemy.exp);
        }
        let rank_before = player_rank(progress.level);
        if progress.gain_level_from_exp() {
            let rank_after = player_rank(progress.level);
            let mut msg = String::new().concat("Coric is now level ").concat(
                u32_to_string(progress.level as u32).as_str(),
            ).concat("!");
            if !rank_equal(rank_before, rank_after) {
                msg = msg.concat("\nCoric becomes a ").concat(rank_after).concat("!");
            }
            self.message.set(msg);
            self.phase = BattlePhase::Reveal { next: AfterMessage::VictoryLevels };
            Step { event: None, sfx: Some(Sfx::LevelUp) }
        } else {
            match roll_loot(rng) {
                Some(item) => {
                    let given = progress.maybe_give_items(item, 1);
                    if given > 0 {
                        let msg = String::new().concat("Coric found a ").concat(
                            item.name(),
                        ).concat("!");
                        self.message.set(msg);
                        self.phase = BattlePhase::Reveal { next: AfterMessage::ReturnVictory };
                        Step { event: None, sfx: Some(Sfx::Chime) }
                    } else {
                        Step { event: Some(BattleEvent::Victory), sfx: None }
                    }
                },
                None => Step { event: Some(BattleEvent::Victory), sfx: None },
            }
        }
    }

    /// Take the continuation of a confirmed message.
    fn advance(&mut self, progress: &mut Progress, rng: &mut Rng, after: AfterMessage) -> (r:
        Step<BattleEvent>)
        requires
            old(self).wf(),
            old(progress).wf(),
            old(self).boss_fight ==> spec_after_no_flee(after),
            spec_after_victory(after) ==> old(self).enemy.hp == 0,
            spec_after_alive(after) ==> old(self).enemy.hp >= 1,
        ensures
            final(self).wf(),
            final(progress).wf(),
            final(self).boss_fight == old(self).boss_fight,
            r.event == Some(BattleEvent::Victory) ==> final(self).enemy.hp == 0,
            r.event == Some(BattleEvent::Defeat) ==> final(progress).hp == 0,
            final(self).boss_fight ==> r.event != Some(BattleEvent::RanAway),
            after == AfterMessage::PlayerActionDone && old(self).enemy.hp == 0 ==> {
                &&& *final(progress) == *old(progress)
                &&& final(rng)@ == old(rng)@
                &&& final(self).phase == (BattlePhase::Reveal { next: AfterMessage::VictoryLevels })
                &&& final(self).reward_pending
                &&& final(self).enemy == old(self).enemy
                &&& r.event is None
            },
            after == AfterMessage::PlayerActionDone && old(self).enemy.hp >= 1 ==> {
                &&& spec_enemy_turn_effect(
                    old(self).enemy,
                    *old(progress),
                    *final(progress),
                    old(rng)@,
                    final(rng)@,
                    final(self).phase,
                )
                &&& final(self).enemy == old(self).enemy
                &&& r.event is None
            },
            after == AfterMessage::RunCheck ==> {
                &&& spec_run_confirm_effect(
                    *old(self),
                    *old(progress),
                    *final(progress),
                    old(rng)@,
                    final(rng)@,
                    final(self).phase,
                    final(self).run_after_enemy_turn,
                )
                &&& final(self).enemy == old(self).enemy
                &&& r.event is None
            },
            after == AfterMessage::VictoryLevels ==> {
                &&& spec_victory_confirm_effect(
                    *old(self),
                    *old(progress),
                    *final(progress),
                    old(rng)@,
                    final(rng)@,
                    final(self).phase,
                    r.event,
                    final(self).reward_pending,
                )
                &&& final(self).enemy == old(self).enemy
            },
            after == AfterMessage::ReturnVictory ==> r.event == Some(BattleEvent::Victory)
                && *final(progress) == *old(progress) && final(rng)@ == old(rng)@
                && final(self).enemy == old(self).enemy,
            after == AfterMessage::ReturnRanAway ==> r.event == Some(BattleEvent::RanAway)
                && *final(progress) == *old(progress) && final(rng)@ == old(rng)@
                && final(self).enemy == old(self).enemy,
            after == AfterMessage::EnemyTurnDone ==> {
                &&& final(self).enemy == old(self).enemy
                &&& final(rng)@ == old(rng)@
                &&& *final(progress) == *old(progress)
                &&& (old(progress).hp == 0 ==> r.event == Some(BattleEvent::Defeat))
                &&& (old(progress).hp >= 1 && old(self).run_after_enemy_turn ==> final(self).phase
                    == (BattlePhase::Reveal { next: AfterMessage::ReturnRanAway })
                    && !final(self).run_after_enemy_turn && r.event is None)
                &&& (old(progress).hp >= 1 && !old(self).run_after_enemy_turn ==> final(self).phase
                    == BattlePhase::TurnStart && r.event is None)
            },
    {
        match after {
            AfterMessage::PlayerActionDone => {
                if self.enemy.hp == 0 {
                    self.begin_victory(progress)
                } else {
                    self.enemy_turn(progress, rng)
                }
            },
            AfterMessage::RunCheck => {
                let escaped = run_attempt(rng, self.enemy_max_hp, self.enemy.hp,
                    self.player_damage);
                if escaped {
                    self.message.set(String::from_str("Coric ran away!"));
                    self.phase = BattlePhase::Reveal { next: AfterMessage::ReturnRanAway };
                    Step { event: None, sfx: None }
                } else {
                    self.run_after_enemy_turn = true;
                    self.enemy_turn(progress, rng)
                }
            },
            AfterMessage::VictoryLevels => self.victory_levels(progress, rng),
            AfterMessage::ReturnVictory => Step { event: Some(BattleEvent::Victory), sfx: None },
            AfterMessage::ReturnRanAway => Step { event: Some(BattleEvent::RanAway), sfx: None },
            AfterMessage::EnemyTurnDone => {
                if progress.hp == 0 {
                    Step { event: Some(BattleEvent::Defeat), sfx: None }
                } else if self.run_after_enemy_turn {
                    self.run_after_enemy_turn = false;
                    self.message.set(String::from_str("Coric ran away!"));
                    self.phase = BattlePhase::Reveal { next: AfterMessage::ReturnRanAway };
                    Step { event: None, sfx: None }
                } else {
                    self.phase = BattlePhase::TurnStart;
                    Step { event: None, sfx: None }
                }
            },
        }
    }

    /// One tick of the battle: exactly one transition of the phase machine,
    /// spelled out below phase by phase.
    pub fn update(&mut self, input: &Input, progress: &mut Progress, rng: &mut Rng) -> (r: Step<
        BattleEvent,
    >)
        requires
            input.wf(),
            old(self).wf(),
            old(progress).wf(),
        ensures
            final(self).wf(),
            final(progress).wf(),
            final(self).boss_fight == old(self).boss_fight,
            // the three outcomes characterise the final state
            r.event == Some(BattleEvent::Victory) ==> final(self).enemy.hp == 0,
            r.event == Some(BattleEvent::Defeat) ==> final(progress).hp == 0
                && final(self).enemy.hp >= 1,
            r.event == Some(BattleEvent::RanAway) ==> final(self).enemy.hp >= 1
                && final(progress).hp == old(progress).hp,
            r.event is Some && final(self).enemy.hp == 0 ==> r.event == Some(
                BattleEvent::Victory,
            ),
            final(self).boss_fight ==> r.event != Some(BattleEvent::RanAway),
            // the turn's start: the follow-up ages and the turn's damage is drawn
            old(self).phase == BattlePhase::TurnStart ==> {
                &&& final(self).follow_up == spec_aged_follow_up(old(self).follow_up)
                &&& final(self).player_damage == spec_magic_damage(
                    old(rng)@,
                    old(progress).attack as int,
                    old(self).enemy.defense as int,
                    spec_aged_follow_up(old(self).follow_up),
                    old(self).enemy.weakness,
                )
                &&& final(rng)@ == spec_next_state(old(rng)@)
                &&& final(self).phase == (BattlePhase::ActionMenu { selection: 0u32 })
                &&& *final(progress) == *old(progress)
                &&& final(self).enemy == old(self).enemy
                &&& r.event is None
            },
            // the action menu
            old(self).phase matches BattlePhase::ActionMenu { selection } ==> {
                &&& (!input.spec_is_pressed(GameKey::Confirm) ==> *final(progress) == *old(
                    progress,
                ) && final(rng)@ == old(rng)@ && final(self).enemy == old(self).enemy && r.event
                    is None)
                &&& (input.spec_is_pressed(GameKey::Confirm) && selection == 0 ==> {
                    &&& final(self).enemy.hp == spec_hp_after(
                        old(self).enemy.hp as int,
                        old(self).player_damage as int,
                    )
                    &&& final(self).phase == (BattlePhase::EnemyFlicker {
                        ticks: FLICKER_TICKS,
                        next: AfterMessage::PlayerActionDone,
                    })
                    &&& *final(progress) == *old(progress)
                    &&& final(rng)@ == old(rng)@
                    &&& r.event is None
                })
                &&& (input.spec_is_pressed(GameKey::Confirm) && selection == 1 ==> final(self).phase == (BattlePhase::MagicMenu { selection: 0u32 }) && *final(progress)
                    == *old(progress) && final(rng)@ == old(rng)@ && final(self).enemy == old(
                    self,
                ).enemy && r.event is None)
                &&& (input.spec_is_pressed(GameKey::Confirm) && selection == 2 ==> final(self).phase == (BattlePhase::ItemMenu { selection: 0u32 }) && *final(progress)
                    == *old(progress) && final(rng)@ == old(rng)@ && final(self).enemy == old(
                    self,
                ).enemy && r.event is None)
                &&& (input.spec_is_pressed(GameKey::Confirm) && selection == 3 && old(
                    self,
                ).boss_fight ==> *final(self) == *old(self) && *final(progress) == *old(progress)
                    && final(rng)@ == old(rng)@ && r.event is None)
                &&& (input.spec_is_pressed(GameKey::Confirm) && selection == 3 && !old(
                    self,
                ).boss_fight ==> final(self).phase == (BattlePhase::Reveal {
                    next: AfterMessage::RunCheck,
                }) && *final(progress) == *old(progress) && final(rng)@ == old(rng)@ && final(self).enemy == old(self).enemy && r.event is None)
            },
            // the spell submenu: a spell is cast only when known and affordable
            old(self).phase matches BattlePhase::MagicMenu { selection } ==> {
                &&& (input.spec_is_pressed(GameKey::Cancel) || !input.spec_is_pressed(
                    GameKey::Confirm,
                ) ==> *final(progress) == *old(progress) && final(rng)@ == old(rng)@ && final(self).enemy == old(self).enemy && r.event is None)
                &&& (!input.spec_is_pressed(GameKey::Cancel) && input.spec_is_pressed(
                    GameKey::Confirm,
                ) && selection == 0 ==> *final(progress) == *old(progress) && final(rng)@ == old(
                    rng,
                )@ && final(self).enemy == old(self).enemy && final(self).phase == (
                BattlePhase::ActionMenu { selection: 1u32 }) && r.event is None)
                &&& (!input.spec_is_pressed(GameKey::Cancel) && input.spec_is_pressed(
                    GameKey::Confirm,
                ) && 1 <= selection <= 4 ==> {
                    let slot = old(progress).magic@[selection - 1];
                    &&& (!(slot.known && old(progress).mp >= spec_mp_cost(slot.magic)) ==> *final(progress) == *old(progress) && final(rng)@ == old(rng)@ && final(self).enemy == old(
                        self,
                    ).enemy && r.event is None)
                    &&& (slot.known && old(progress).mp >= spec_mp_cost(slot.magic) && slot.magic
                        == Magic::Heal ==> {
                        &&& final(progress).mp == old(progress).mp - spec_mp_cost(Magic::Heal)
                        &&& final(progress).hp == (if old(progress).hp + spec_heal_spell(
                            old(progress).max_hp as int,
                        ) <= old(progress).max_hp {
                            old(progress).hp + spec_heal_spell(old(progress).max_hp as int)
                        } else {
                            old(progress).max_hp as int
                        })
                        &&& final(progress).items@ == old(progress).items@
                        &&& final(self).enemy == old(self).enemy
                        &&& final(rng)@ == old(rng)@
                        &&& final(self).phase == (BattlePhase::Reveal {
                            next: AfterMessage::PlayerActionDone,
                        })
                        &&& r.event is None
                    })
                    &&& (slot.known && old(progress).mp >= spec_mp_cost(slot.magic) && slot.magic
                        != Magic::Heal ==> {
                        &&& final(self).follow_up == Some((slot.magic, 1u32))
                        &&& final(self).enemy.hp == spec_hp_after(
                            old(self).enemy.hp as int,
                            spec_magic_damage(
                                old(rng)@,
                                old(progress).attack as int,
                                old(self).enemy.defense as int,
                                Some((slot.magic, 1u32)),
                                old(self).enemy.weakness,
                            ),
                        )
                        &&& final(progress).mp == old(progress).mp - spec_mp_cost(slot.magic)
                        &&& final(progress).hp == old(progress).hp
                        &&& final(progress).items@ == old(progress).items@
                        &&& final(rng)@ == spec_next_state(old(rng)@)
                        &&& final(self).phase == (BattlePhase::EnemyFlicker {
                            ticks: FLICKER_TICKS,
                            next: AfterMessage::PlayerActionDone,
                        })
                        &&& r.event is None
                    })
                })
            },
            // the item submenu: an item is used only when one is carried
            old(self).phase matches BattlePhase::ItemMenu { selection } ==> {
                &&& (input.spec_is_pressed(GameKey::Cancel) || !input.spec_is_pressed(
                    GameKey::Confirm,
                ) ==> *final(progress) == *old(progress) && final(rng)@ == old(rng)@ && final(self).enemy == old(self).enemy && r.event is None)
                &&& (!input.spec_is_pressed(GameKey::Cancel) && input.spec_is_pressed(
                    GameKey::Confirm,
                ) && selection == 0 ==> *final(progress) == *old(progress) && final(rng)@ == old(
                    rng,
                )@ && final(self).enemy == old(self).enemy && final(self).phase == (
                BattlePhase::ActionMenu { selection: 2u32 }) && r.event is None)
                &&& (!input.spec_is_pressed(GameKey::Cancel) && input.spec_is_pressed(
                    GameKey::Confirm,
                ) && 1 <= selection <= 4 ==> {
                    let item = spec_row_item(selection - 1);
                    &&& (old(progress).spec_item_count(item) == 0 ==> *final(progress) == *old(
                        progress,
                    ) && final(rng)@ == old(rng)@ && final(self).enemy == old(self).enemy
                        && r.event is None)
                    &&& (old(progress).spec_item_count(item) > 0 ==> {
                        let amount = spec_item_heal_amount(
                            item,
                            old(progress).max_hp as int,
                            old(progress).max_mp as int,
                        );
                        &&& final(progress).spec_item_count(item) == old(
                            progress,
                        ).spec_item_count(item) - 1
                        &&& (forall|other: Item|
                            other != item ==> final(progress).spec_item_count(other) == old(
                                progress,
                            ).spec_item_count(other))
                        &&& (spec_item_heals_hp(item) ==> final(progress).hp == (if old(
                            progress,
                        ).hp + amount <= old(progress).max_hp {
                            old(progress).hp + amount
                        } else {
                            old(progress).max_hp as int
                        }) && final(progress).mp == old(progress).mp)
                        &&& (!spec_item_heals_hp(item) ==> final(progress).mp == (if old(
                            progress,
                        ).mp + amount <= old(progress).max_mp {
                            old(progress).mp + amount
                        } else {
                            old(progress).max_mp as int
                        }) && final(progress).hp == old(progress).hp)
                        &&& final(self).enemy == old(self).enemy
                        &&& final(rng)@ == old(rng)@
                        &&& final(self).phase == (BattlePhase::Reveal {
                            next: AfterMessage::PlayerActionDone,
                        })
                        &&& r.event is None
                    })
                })
            },
            // animations and the reveal touch nothing that matters
            (old(self).phase matches BattlePhase::EnemyFlicker { .. } || old(
                self,
            ).phase matches BattlePhase::StatusFlicker { .. } || old(self).phase matches
                BattlePhase::Reveal { .. }) ==> *final(progress) == *old(progress) && final(rng)@
                == old(rng)@ && final(self).enemy == old(self).enemy && r.event is None,
            // a confirmed message takes its continuation
            old(self).phase matches BattlePhase::WaitConfirm { next } ==> {
                &&& (!input.spec_is_pressed(GameKey::Confirm) ==> *final(self) == *old(self)
                    && *final(progress) == *old(progress) && final(rng)@ == old(rng)@ && r.event
                    is None)
                &&& (input.spec_is_pressed(GameKey::Confirm) ==> {
                    &&& (next == AfterMessage::PlayerActionDone && old(self).enemy.hp == 0 ==> {
                        &&& *final(progress) == *old(progress)
                        &&& final(rng)@ == old(rng)@
                        &&& final(self).phase == (BattlePhase::Reveal {
                            next: AfterMessage::VictoryLevels,
                        })
                        &&& final(self).reward_pending
                        &&& final(self).enemy == old(self).enemy
                        &&& r.event is None
                    })
                    &&& (next == AfterMessage::PlayerActionDone && old(self).enemy.hp >= 1 ==> {
                        &&& spec_enemy_turn_effect(
                            old(self).enemy,
                            *old(progress),
                            *final(progress),
                            old(rng)@,
                            final(rng)@,
                            final(self).phase,
                        )
                        &&& final(self).enemy == old(self).enemy
                        &&& r.event is None
                    })
                    &&& (next == AfterMessage::RunCheck ==> {
                        &&& spec_run_confirm_effect(
                            *old(self),
                            *old(progress),
                            *final(progress),
                            old(rng)@,
                            final(rng)@,
                            final(self).phase,
                            final(self).run_after_enemy_turn,
                        )
                        &&& final(self).enemy == old(self).enemy
                        &&& r.event is None
                    })
                    &&& (next == AfterMessage::VictoryLevels ==> {
                        &&& spec_victory_confirm_effect(
                            *old(self),
                            *old(progress),
                            *final(progress),
                            old(rng)@,
                            final(rng)@,
                            final(self).phase,
                            r.event,
                            final(self).reward_pending,
                        )
                        &&& final(self).enemy == old(self).enemy
                    })
                    &&& (next == AfterMessage::ReturnVictory ==> r.event == Some(
                        BattleEvent::Victory,
                    ) && *final(progress) == *old(progress) && final(rng)@ == old(rng)@)
                    &&& (next == AfterMessage::ReturnRanAway ==> r.event == Some(
                        BattleEvent::RanAway,
                    ) && *final(progress) == *old(progress) && final(rng)@ == old(rng)@)
                    &&& (next == AfterMessage::EnemyTurnDone ==> {
                        &&& final(self).enemy == old(self).enemy
                        &&& final(rng)@ == old(rng)@
                        &&& *final(progress) == *old(progress)
                        &&& (old(progress).hp == 0 ==> r.event == Some(BattleEvent::Defeat))
                        &&& (old(progress).hp >= 1 && old(self).run_after_enemy_turn ==> final(self).phase == (BattlePhase::Reveal { next: AfterMessage::ReturnRanAway })
                            && !final(self).run_after_enemy_turn && r.event is None)
                        &&& (old(progress).hp >= 1 && !old(self).run_after_enemy_turn ==> final(self).phase == BattlePhase::TurnStart && r.event is None)
                    })
                })
            },
    {
        let phase = self.phase;
        match phase {
            BattlePhase::TurnStart => {
                self.follow_up = match self.follow_up {
                    Some((magic, turns)) => if turns > 0 {
                        Some((magic, turns - 1))
                    } else {
                        None
                    },
                    None => None,
                };
                self.player_damage = calc_magic_damage(
                    rng,
                    progress.attack,
                    self.enemy.defense,
                    self.follow_up,
                    self.enemy.weakness,
                );
                self.menu_visible = true;
                self.phase = BattlePhase::ActionMenu { selection: 0 };
                Step { event: None, sfx: None }
            },
            BattlePhase::ActionMenu { selection } => {
                if input.is_key_pressed(GameKey::Confirm) {
                    match selection {
                        0 => {
                            self.menu_visible = false;
                            self.enemy.take_damage(self.player_damage);
                            let msg = String::new().concat("Coric attacks!\n").concat(
                                u32_to_string(self.player_damage as u32).as_str(),
                            ).concat(" HP damage to ").concat(self.enemy.name.as_str()).concat(
                                ".",
                            );
                            self.message.set(msg);
                            self.phase = BattlePhase::EnemyFlicker {
                                ticks: FLICKER_TICKS,
                                next: AfterMessage::PlayerActionDone,
                            };
                            Step { event: None, sfx: Some(Sfx::Attack) }
                        },
                        1 => {
                            self.phase = BattlePhase::MagicMenu { selection: 0 };
                            Step { event: None, sfx: Some(Sfx::Confirm) }
                        },
                        2 => {
                            self.phase = BattlePhase::ItemMenu { selection: 0 };
                            Step { event: None, sfx: Some(Sfx::Confirm) }
                        },
                        _ => {
                            if self.boss_fight {
                                Step { event: None, sfx: Some(Sfx::Cancel) }
                            } else {
                                self.menu_visible = false;
                                self.message.set(String::from_str("Coric turns to flee..."));
                                self.phase = BattlePhase::Reveal {
                                    next: AfterMessage::RunCheck,
                                };
                                Step { event: None, sfx: Some(Sfx::Confirm) }
                            }
                        },
                    }
                } else if input.is_key_pressed(GameKey::Left) {
                    self.phase = BattlePhase::ActionMenu {
                        selection: if selection == 0 {
                            3
                        } else {
                            selection - 1
                        },
                    };
                    Step { event: None, sfx: Some(Sfx::Cursor) }
                } else if input.is_key_pressed(GameKey::Right) {
                    self.phase = BattlePhase::ActionMenu {
                        selection: if selection == 3 {
                            0
                        } else {
                            selection + 1
                        },
                    };
                    Step { event: None, sfx: Some(Sfx::Cursor) }
                } else {
                    Step { event: None, sfx: None }
                }
            },
            BattlePhase::MagicMenu { selection } => {
                if input.is_key_pressed(GameKey::Cancel) {
                    self.phase = BattlePhase::ActionMenu { selection: 1 };
                    Step { event: None, sfx: Some(Sfx::Cancel) }
                } else if input.is_key_pressed(GameKey::Confirm) {
                    if selection == 0 {
                        self.phase = BattlePhase::ActionMenu { selection: 1 };
                        Step { event: None, sfx: Some(Sfx::Cancel) }
                    } else {
                        let slot = progress.magic[(selection - 1) as usize];
                        let cost = slot.magic.mp_cost();
                        if slot.known && progress.mp >= cost {
                            progress.spend_mp(cost);
                            self.menu_visible = false;
                            match slot.magic {
                                Magic::Heal => {
                                    let amount = heal_spell_amount(progress.max_hp);
                                    progress.heal_hp(amount);
                                    let msg = String::new().concat("Coric casts Heal!\n").concat(
                                        u32_to_string(amount as u32).as_str(),
                                    ).concat(" HP recovered.");
                                    self.message.set(msg);
                                    self.phase = BattlePhase::Reveal {
                                        next: AfterMessage::PlayerActionDone,
                                    };
                                    Step { event: None, sfx: Some(Sfx::Heal) }
                                },
                                magic => {
                                    self.follow_up = Some((magic, 1));
                                    let damage = calc_magic_damage(
                                        rng,
                                        progress.attack,
                                        self.enemy.defense,
                                        self.follow_up,
                                        self.enemy.weakness,
                                    );
                                    self.enemy.take_damage(damage);
                                    let weak = match self.enemy.weakness {
                                        Some(w) => w == magic,
                                        None => false,
                                    };
                                    let mut msg = String::new().concat("Coric casts ").concat(
                                        magic.name(),
                                    ).concat("!\n");
                                    if weak {
                                        msg = msg.concat(self.enemy.name.as_str()).concat(
                                            " is weak to ",
                                        ).concat(magic.name()).concat("!\n");
                                    }
                                    msg = msg.concat(u32_to_string(damage as u32).as_str()).concat(
                                        " HP damage to ",
                                    ).concat(self.enemy.name.as_str()).concat(".");
                                    self.message.set(msg);
                                    self.phase = BattlePhase::EnemyFlicker {
                                        ticks: FLICKER_TICKS,
                                        next: AfterMessage::PlayerActionDone,
                                    };
                                    Step { event: None, sfx: Some(Sfx::Magic) }
                                },
                            }
                        } else {
                            Step { event: None, sfx: Some(Sfx::Cancel) }
                        }
                    }
                } else if input.is_key_pressed(GameKey::Up) {
                    self.phase = BattlePhase::MagicMenu {
                        selection: if selection == 0 {
                            4
                        } else {
                            selection - 1
                        },
                    };
                    Step { event: None, sfx: Some(Sfx::Cursor) }
                } else if input.is_key_pressed(GameKey::Down) {
                    self.phase = BattlePhase::MagicMenu {
                        selection: if selection == 4 {
                            0
                        } else {
                            selection + 1
                        },
                    };
                    Step { event: None, sfx: Some(Sfx::Cursor) }
                } else {
                    Step { event: None, sfx: None }
                }
            },
            BattlePhase::ItemMenu { selection } => {
                if input.is_key_pressed(GameKey::Cancel) {
                    self.phase = BattlePhase::ActionMenu { selection: 2 };
                    Step { event: None, sfx: Some(Sfx::Cancel) }
                } else if input.is_key_pressed(GameKey::Confirm) {
                    if selection == 0 {
                        self.phase = BattlePhase::ActionMenu { selection: 2 };
                        Step { event: None, sfx: Some(Sfx::Cancel) }
                    } else {
                        let item = row_item(selection - 1);
                        if progress.items[(selection - 1) as usize].amount > 0 {
                            progress.consume_item(item);
                            self.menu_visible = false;
                            let (amount, heals_hp): (i32, bool) = match item {
                                Item::Salve => (salve_heal(progress.max_hp), true),
                                Item::XSalve => (progress.max_hp, true),
                                Item::Tonic => (tonic_heal(progress.max_mp), false),
                                Item::XTonic => (progress.max_mp, false),
                            };
                            let mut msg = String::new().concat("Coric uses ").concat(
                                item.name(),
                            ).concat(".\n").concat(u32_to_string(amount as u32).as_str());
                            if heals_hp {
                                progress.heal_hp(amount);
                                msg = msg.concat(" HP healed for Coric!");
                            } else {
                                progress.heal_mp(amount);
                                msg = msg.concat(" MP healed for Coric!");
                            }
                            self.message.set(msg);
                            self.phase = BattlePhase::Reveal {
                                next: AfterMessage::PlayerActionDone,
                            };
                            Step { event: None, sfx: Some(Sfx::Heal) }
                        } else {
                            Step { event: None, sfx: Some(Sfx::Cancel) }
                        }
                    }
                } else if input.is_key_pressed(GameKey::Up) {
                    self.phase = BattlePhase::ItemMenu {
                        selection: if selection == 0 {
                            4
                        } else {
                            selection - 1
                        },
                    };
                    Step { event: None, sfx: Some(Sfx::Cursor) }
                } else if input.is_key_pressed(GameKey::Down) {
                    self.phase = BattlePhase::ItemMenu {
                        selection: if selection == 4 {
                            0
                        } else {
                            selection + 1
                        },
                    };
                    Step { event: None, sfx: Some(Sfx::Cursor) }
                } else {
                    Step { event: None, sfx: None }
                }
            },
            BattlePhase::EnemyFlicker { ticks, next } => {
                if ticks > 0 {
                    self.enemy_visible = (ticks / 2) % 2 == 0;
                    self.phase = BattlePhase::EnemyFlicker { ticks: ticks - 1, next };
                } else {
                    self.enemy_visible = true;
                    self.phase = BattlePhase::Reveal { next };
                }
                Step { event: None, sfx: None }
            },
            BattlePhase::StatusFlicker { ticks, next } => {
                if ticks > 0 {
                    self.status_visible = (ticks / 2) % 2 == 0;
                    self.phase = BattlePhase::StatusFlicker { ticks: ticks - 1, next };
                } else {
                    self.status_visible = true;
                    self.phase = BattlePhase::Reveal { next };
                }
                Step { event: None, sfx: None }
            },
            BattlePhase::Reveal { next } => {
                if !self.message.all_shown() {
                    self.message.show_one();
                } else {
                    self.phase = BattlePhase::WaitConfirm { next };
                }
                Step { event: None, sfx: None }
            },
            BattlePhase::WaitConfirm { next } => {
                if input.is_key_pressed(GameKey::Confirm) {
                    let step = self.advance(progress, rng, next);
                    Step {
                        event: step.event,
                        sfx: match step.sfx {
                            Some(s) => Some(s),
                            None => Some(Sfx::Cursor),
                        },
                    }
                } else {
                    Step { event: None, sfx: None }
                }
            },
        }
    }
}

/// Whether two rank names are the same string.
fn rank_equal(a: &str, b: &str) -> (r: bool)
    ensures
        r == (a@ == b@),
{
    let sa = String::from_str(a);
    let sb = String::from_str(b);
    sa == sb
}

} // verus!
