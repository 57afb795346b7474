//! The script engine: the game's whole narrative control flow as one
//! explicit state machine.
//!
//! The engine owns the `ScriptContext` for its entire run.  Once per tick
//! the embedding driver calls `step` with the tick's input (or with the
//! reply to an outside request); the engine advances the active mode,
//! consumes its terminal event, mutates the world, and hands back the
//! actions only the driver can perform: playing audio, saving, loading,
//! and fetching level data.
//!
//! Every push onto the mode stack is matched by a pop before the engine
//! returns to the wait state that made it: the well-formedness invariant
//! pins the exact stack shape of every phase, so no mode can leak across a
//! scripted sequence.

use crate::audio::{Music, MusicAction, MusicState, Sfx};
use crate::contexts::ScriptContext;
use crate::enemy::Enemy;
use crate::input::{GameKey, Input};
use crate::levels::{Actor, ActorType, Animation, ChestType, Direction, Level, TILE_SIZE};
use crate::modes::battle::BattleEvent;
use crate::modes::main_menu::MainMenuEvent;
use crate::modes::simple::{CreditsEvent, DebugMenuEvent, EndingEvent, IntroEvent,
    OptionsEvent, TextBoxEvent, Title, TitleEvent, YesNoPromptEvent};
use crate::modes::walk_around::WalkAroundEvent;
use crate::modes::{Mode, ModeStack};
use crate::progress::{ids_contain, spec_fresh_progress, Item, Magic, Progress, MAX_LEVEL};
use crate::rng::Rng;
use crate::text::u32_to_string;
use vstd::arithmetic::div_mod::{lemma_div_multiples_vanish, lemma_fundamental_div_mod};
use vstd::prelude::*;
use vstd::string::StringExecFns;

verus! {

/// One of the three guardian spirits.
#[derive(Clone, Copy, Debug, PartialEq, Eq, Structural)]
pub enum BossKind {
    Earth,
    Water,
    Fire,
}

/// A location's on-enter behaviour.
#[derive(Clone, Copy, Debug, PartialEq, Eq, Structural)]
pub enum EnterKind {
    /// Close the gates at the given tile while the Earth guardian stands.
    GateWhileEarthStands { tile_x: i32, tile_y: i32 },
    /// Close the gates at the given tile while the Water guardian stands.
    GateWhileWaterStands { tile_x: i32, tile_y: i32 },
    /// Remove the named guardian's actor once it has fallen.
    ClearFallenBoss(BossKind),
}

/// A talk interaction the registry can bind to an actor type.
#[derive(Clone, Copy, Debug, PartialEq, Eq, Structural)]
pub enum TalkKind {
    Bed,
    Ducille,
    Jace,
    Julis,
    Matero,
    Boss(BossKind),
}

/// One talk binding of a location.
#[derive(Clone, Copy, Debug, PartialEq, Eq, Structural)]
pub struct TalkEntry {
    pub actor: ActorType,
    pub script: TalkKind,
}

/// The scripts of one location.
pub struct LevelScript {
    pub level_id: u32,
    pub on_enter: Option<EnterKind>,
    pub on_talk: Vec<TalkEntry>,
}

/// A valid registry names only known locations, no location twice, and no
/// actor type twice within one location's talk table.
pub open spec fn spec_registry_valid(registry: Seq<LevelScript>, known: Seq<u32>) -> bool {
    &&& (forall|i: int| 0 <= i < registry.len() ==> known.contains(#[trigger] registry[i].level_id))
    &&& (forall|i: int, j: int|
        0 <= i < j < registry.len() ==> registry[i].level_id != registry[j].level_id)
    &&& (forall|i: int, a: int, b: int|
        0 <= i < registry.len() && 0 <= a < b < registry[i].on_talk@.len() ==> #[trigger] registry[
            i
        ].on_talk@[a].actor != #[trigger] registry[i].on_talk@[b].actor)
}

/// Check a registry for unknown locations, duplicate locations and
/// duplicate talk bindings; such defects are fatal at startup.
pub fn validate_level_scripts(registry: &Vec<LevelScript>, known: &Vec<u32>) -> (r: bool)
    ensures
        r == spec_registry_valid(registry@, known@),
{
    let mut i: usize = 0;
    while i < registry.len()
        invariant
            i <= registry.len(),
            forall|k: int| 0 <= k < i ==> known@.contains(#[trigger] registry@[k].level_id),
            forall|k: int, j: int|
                0 <= k < j < i ==> registry@[k].level_id != registry@[j].level_id,
            forall|k: int, a: int, b: int|
                0 <= k < i && 0 <= a < b < registry@[k].on_talk@.len() ==> #[trigger] registry@[
                    k
                ].on_talk@[a].actor != #[trigger] registry@[k].on_talk@[b].actor,
        decreases registry.len() - i,
    {
        if !ids_contain(known, registry[i].level_id) {
            return false;
        }
        let mut j: usize = 0;
        while j < i
            invariant
                j <= i < registry.len(),
                forall|k: int| 0 <= k < j ==> registry@[k].level_id != registry@[i as int].level_id,
            decreases i - j,
        {
            if registry[j].level_id == registry[i].level_id {
                return false;
            }
            j = j + 1;
        }
        let talk_len = registry[i].on_talk.len();
        let mut a: usize = 0;
        while a < talk_len
            invariant
                i < registry.len(),
                talk_len == registry@[i as int].on_talk@.len(),
                a <= talk_len,
                forall|x: int, y: int|
                    0 <= x < y < talk_len && y < a ==> registry@[i as int].on_talk@[x].actor
                        != registry@[i as int].on_talk@[y].actor,
            decreases talk_len - a,
        {
            let mut b: usize = 0;
            while b < a
                invariant
                    i < registry.len(),
                    talk_len == registry@[i as int].on_talk@.len(),
                    b <= a < talk_len,
                    forall|x: int|
                        0 <= x < b ==> registry@[i as int].on_talk@[x].actor != registry@[
                            i as int
                        ].on_talk@[a as int].actor,
                decreases a - b,
            {
                if registry[i].on_talk[b].actor == registry[i].on_talk[a].actor {
                    return false;
                }
                b = b + 1;
            }
            a = a + 1;
        }
        i = i + 1;
    }
    true
}

/// The game's own registry: the home village with its five interactions,
/// the two gated approaches, and the three guardian halls.
pub fn standard_registry(
    start_id: u32,
    earth_gate_id: u32,
    earth_hall_id: u32,
    water_gate_id: u32,
    water_hall_id: u32,
    fire_hall_id: u32,
) -> (r: Vec<LevelScript>)
    ensures
        r@.len() == 6,
{
    let mut start_talk: Vec<TalkEntry> = Vec::new();
    start_talk.push(TalkEntry { actor: ActorType::Bed, script: TalkKind::Bed });
    start_talk.push(TalkEntry { actor: ActorType::Ducille, script: TalkKind::Ducille });
    start_talk.push(TalkEntry { actor: ActorType::Jace, script: TalkKind::Jace });
    start_talk.push(TalkEntry { actor: ActorType::Julis, script: TalkKind::Julis });
    start_talk.push(TalkEntry { actor: ActorType::Matero, script: TalkKind::Matero });
    let mut earth_talk: Vec<TalkEntry> = Vec::new();
    earth_talk.push(TalkEntry { actor: ActorType::Earth, script: TalkKind::Boss(BossKind::Earth) });
    let mut water_talk: Vec<TalkEntry> = Vec::new();
    water_talk.push(TalkEntry { actor: ActorType::Water, script: TalkKind::Boss(BossKind::Water) });
    let mut fire_talk: Vec<TalkEntry> = Vec::new();
    fire_talk.push(TalkEntry { actor: ActorType::Fire, script: TalkKind::Boss(BossKind::Fire) });
    let mut registry: Vec<LevelScript> = Vec::new();
    registry.push(LevelScript { level_id: start_id, on_enter: None, on_talk: start_talk });
    registry.push(
        LevelScript {
            level_id: earth_gate_id,
            on_enter: Some(EnterKind::GateWhileEarthStands { tile_x: 9, tile_y: 10 }),
            on_talk: Vec::new(),
        },
    );
    registry.push(
        LevelScript {
            level_id: earth_hall_id,
            on_enter: Some(EnterKind::ClearFallenBoss(BossKind::Earth)),
            on_talk: earth_talk,
        },
    );
    registry.push(
        LevelScript {
            level_id: water_gate_id,
            on_enter: Some(EnterKind::GateWhileWaterStands { tile_x: 29, tile_y: 12 }),
            on_talk: Vec::new(),
        },
    );
    registry.push(
        LevelScript {
            level_id: water_hall_id,
            on_enter: Some(EnterKind::ClearFallenBoss(BossKind::Water)),
            on_talk: water_talk,
        },
    );
    registry.push(
        LevelScript {
            level_id: fire_hall_id,
            on_enter: Some(EnterKind::ClearFallenBoss(BossKind::Fire)),
            on_talk: fire_talk,
        },
    );
    registry
}

/// The grid coordinate after crossing a level boundary: the pixel offset
/// between the two origins, in tiles, minus the step just taken.
pub open spec fn spec_crossed_coord(g: int, from_px: int, to_px: int, step: int) -> int {
    g + (from_px - to_px) / (TILE_SIZE as int) - step
}

/// The grid coordinate after crossing a level boundary, computed from the
/// tile-aligned origins of the two levels.
pub fn crossed_coord(g: i32, from_px: i32, to_px: i32, step: i32) -> (r: i32)
    requires
        0 <= from_px <= crate::levels::WORLD_LIMIT,
        0 <= to_px <= crate::levels::WORLD_LIMIT,
        from_px % TILE_SIZE == 0,
        to_px % TILE_SIZE == 0,
        -2000 <= g <= 2000,
        -1 <= step <= 1,
    ensures
        r == spec_crossed_coord(g as int, from_px as int, to_px as int, step as int),
{
    let from_tile = ((from_px as u32) / (TILE_SIZE as u32)) as i32;
    let to_tile = ((to_px as u32) / (TILE_SIZE as u32)) as i32;
    proof {
        lemma_fundamental_div_mod(from_px as int, TILE_SIZE as int);
        lemma_fundamental_div_mod(to_px as int, TILE_SIZE as int);
        lemma_div_multiples_vanish(
            (from_px as int) / (TILE_SIZE as int) - (to_px as int) / (TILE_SIZE as int),
            TILE_SIZE as int,
        );
    }
    g + (from_tile - to_tile) - step
}

/// Crossing a level boundary and crossing straight back reproduces the
/// original grid coordinate exactly: with both origins tile-aligned the
/// pixel offsets divide evenly and cancel, so there is no drift.
pub proof fn lemma_level_crossing_round_trip(g: int, a_px: int, b_px: int, step: int)
    requires
        a_px % (TILE_SIZE as int) == 0,
        b_px % (TILE_SIZE as int) == 0,
    ensures
        spec_crossed_coord(spec_crossed_coord(g, a_px, b_px, step), b_px, a_px, -step) == g,
{
    let t = TILE_SIZE as int;
    lemma_fundamental_div_mod(a_px, t);
    lemma_fundamental_div_mod(b_px, t);
    let ka = a_px / t;
    let kb = b_px / t;
    assert(a_px - b_px == t * (ka - kb));
    assert(b_px - a_px == t * (kb - ka));
    lemma_div_multiples_vanish(ka - kb, t);
    lemma_div_multiples_vanish(kb - ka, t);
}

/// A request only the embedding driver can perform.
pub enum ScriptAction {
    /// Change what music plays.
    Music(MusicAction),
    /// Scale the music volume, in percent.
    SetMusicVolume(u32),
    /// Play a sound effect.
    Sfx(Sfx),
    /// Write the player's progress to durable storage.
    Save,
    /// Read the player's progress from durable storage.
    Load,
    /// Fetch the level with the given identifier and its actors.
    FetchLevel(u32),
    /// Fetch the level adjoining the given world-pixel position in the
    /// given direction, if any.
    FetchNeighbour { px_x: i32, px_y: i32, dir: Direction },
}

/// What the driver hands the engine on one tick: usually nothing, or the
/// reply to an earlier request.
pub enum EngineEvent {
    Tick,
    SaveResult(Result<(), String>),
    LoadResult(Result<Progress, String>),
    LevelFetched(Option<(Level, Vec<Actor>)>),
}

/// How a step of the engine ended.
pub enum ScriptStatus {
    /// The game goes on; drive the engine again next tick.
    Running,
    /// The player quit.
    Quit,
    /// An invariant the level data or save data must uphold was broken;
    /// the game cannot continue.
    Fatal(String),
}

/// One tick's outcome: the engine's status and the driver's work.
pub struct EngineStep {
    pub status: ScriptStatus,
    pub actions: Vec<ScriptAction>,
}

/// What happens when a fade completes.
#[derive(Clone, Copy, Debug, PartialEq, Eq, Structural)]
pub enum FadeThen {
    /// Leave the title: start the intro or enter the field.
    TitleToField { intro: bool },
    /// The intro has faded in; the Spirit of Air speaks.
    IntroShown,
    /// The intro whiteout holds; fade on to black.
    IntroWhite,
    /// The intro is over; clear it away and enter the field.
    IntroEnd,
    /// The field has faded in; pan the player or start roaming.
    FieldShown { intro: bool },
    /// The bed rest is dark; sleep a moment.
    BedDark,
    /// The bed rest brightened; restore the player.
    BedLight,
    /// Dark before the credits roll.
    CreditsDark { over_title: bool },
    /// Bright again after the credits.
    CreditsLight { over_title: bool },
    /// Dark after a defeat; warp home.
    DefeatDark,
    /// Bright again at home after a defeat.
    DefeatLight,
    /// Dark at the level edge; swap to the fetched neighbour.
    EdgeDark { dir: Direction },
    /// Bright again in the neighbouring level.
    EdgeLight,
    /// The ending whiteout; fade on to black.
    EndingWhite,
    /// Black before the ending screen.
    EndingBlack,
}

/// What happens when a plain wait runs out.
#[derive(Clone, Copy, Debug, PartialEq, Eq, Structural)]
pub enum WaitThen {
    /// The bed rest is over; brighten.
    BedRested,
}

/// What happens once a queued run of text boxes is exhausted.
#[derive(Clone, Copy, Debug, PartialEq, Eq, Structural)]
pub enum AfterQueue {
    /// Go back to roaming.
    ToField,
    /// A talk script ended: refresh the music, or trigger the ending once
    /// the last guardian is saved.
    EndTalk,
    /// The guardian's challenge was spoken; fight it.
    StartBossBattle(BossKind),
    /// The guardian's farewell was spoken; release it.
    BossFallen(BossKind),
    /// The bed rest healed; offer to save.
    BedAfterHeal,
    /// The save outcome was announced.
    SaveDone,
    /// The defeat sting was spoken.
    DefeatDone,
    /// The debug learn-everything chain: teach the next spell.
    LearnNext(u32),
}

/// Why a battle is running.
#[derive(Clone, Copy, Debug, PartialEq, Eq, Structural)]
pub enum BattleSource {
    Wild,
    Boss(BossKind),
}

/// Why level data was requested.
#[derive(Clone, Copy, Debug, PartialEq, Eq, Structural)]
pub enum FetchPurpose {
    Warp { x: i32, y: i32 },
    Defeat,
    Neighbour { dir: Direction },
}

/// Where the script engine stands; every variant that waits on a mode has
/// that mode on top of the stack.
#[derive(Clone, Copy, Debug, PartialEq, Eq, Structural)]
pub enum EnginePhase {
    TitleWait,
    LoadWait,
    LoadErrorWait,
    IntroWait,
    AirTextWait { step: u32 },
    Fading { left: u32, total: u32, to_black: bool, then: FadeThen },
    Waiting { left: u32, then: WaitThen },
    IntroPan { step: u32, left: u32 },
    IntroPanText,
    FieldWait,
    TextQueueWait,
    PromptBedSave,
    PromptBedOverwrite,
    SaveWait,
    MenuWait,
    OptionsWait { over_title: bool },
    CreditsWait { over_title: bool },
    QuitPromptWait { over_title: bool },
    DebugWait,
    DebugTextWait,
    BattleWait { source: BattleSource },
    LevelWait { purpose: FetchPurpose },
    EndingWait,
    EndingCreditsWait,
    EndingStatusWait,
    Halted,
}

/// The stack shape of the options screen: over the title, or over the
/// pause menu in the field.
pub open spec fn spec_options_base(over_title: bool, s: Seq<Mode>) -> bool {
    if over_title {
        s.len() == 2 && s[0] is Title && s[1] is Options
    } else {
        s.len() == 3 && s[0] is WalkAround && s[1] is MainMenu && s[2] is Options
    }
}

/// The stack shape a fade runs over.
pub open spec fn spec_fade_stack(then: FadeThen, s: Seq<Mode>) -> bool {
    match then {
        FadeThen::TitleToField { .. } => s.len() == 1 && s[0] is Title,
        FadeThen::IntroShown => s.len() == 1 && s[0] is Intro,
        FadeThen::IntroWhite => s.len() == 2 && s[0] is Intro && s[1] is TextBox,
        FadeThen::IntroEnd => s.len() == 2 && s[0] is Intro && s[1] is TextBox,
        FadeThen::FieldShown { .. } => s.len() == 1 && s[0] is WalkAround,
        FadeThen::BedDark => s.len() == 1 && s[0] is WalkAround,
        FadeThen::BedLight => s.len() == 1 && s[0] is WalkAround,
        FadeThen::CreditsDark { over_title } => spec_options_base(over_title, s),
        FadeThen::CreditsLight { over_title } => spec_options_base(over_title, s),
        FadeThen::DefeatDark => s.len() == 1 && s[0] is WalkAround,
        FadeThen::DefeatLight => s.len() == 1 && s[0] is WalkAround,
        FadeThen::EdgeDark { .. } => s.len() == 1 && s[0] is WalkAround,
        FadeThen::EdgeLight => s.len() == 1 && s[0] is WalkAround,
        FadeThen::EndingWhite => s.len() == 1 && s[0] is WalkAround,
        FadeThen::EndingBlack => s.len() == 1 && s[0] is WalkAround,
    }
}

/// The stack shape a plain wait runs over.
pub open spec fn spec_wait_stack(then: WaitThen, s: Seq<Mode>) -> bool {
    match then {
        WaitThen::BedRested => s.len() == 1 && s[0] is WalkAround,
    }
}

/// Every enemy in every encounter table is fit to fight.
pub open spec fn spec_tables_ok(tables: Seq<Vec<Enemy>>) -> bool {
    forall|g: int, e: int|
        0 <= g < tables.len() && 0 <= e < tables[g]@.len() ==> (#[trigger] tables[g]@[e]).wf()
            && tables[g]@[e].hp >= 1
}

/// Whether the named guardian's defeated flag stands.
pub open spec fn spec_boss_flag(kind: BossKind, progress: Progress) -> bool {
    match kind {
        BossKind::Earth => progress.earth_defeated,
        BossKind::Water => progress.water_defeated,
        BossKind::Fire => progress.fire_defeated,
    }
}

/// The game's whole narrative control flow as a stepped state machine.
pub struct ScriptEngine {
    pub ctx: ScriptContext,
    pub registry: Vec<LevelScript>,
    pub encounter_tables: Vec<Vec<Enemy>>,
    pub start_level_id: u32,
    pub save_exists: bool,
    pub play_intro: bool,
    /// Where the engine stands; meaningful only while `wf` holds.
    pub phase: EnginePhase,
    /// The queued run of text boxes and what takes over when it ends.
    pub text_queue: Vec<String>,
    pub queue_next: usize,
    pub after_queue: AfterQueue,
    /// A fetched neighbouring level, held while the crossing fades.
    pub pending_level: Option<Level>,
    pub pending_actors: Vec<Actor>,
}

impl ScriptEngine {
    /// The exact mode-stack shape of the current phase: this is the
    /// push/pop balance invariant, phase by phase.
    pub closed spec fn spec_stack_ok(self) -> bool {
        let s = self.ctx.modes.modes@;
        match self.phase {
            EnginePhase::TitleWait => s.len() == 1 && s[0] is Title,
            EnginePhase::LoadWait => s.len() == 1 && s[0] is Title,
            EnginePhase::LoadErrorWait => s.len() == 2 && s[0] is Title && s[1] is TextBox,
            EnginePhase::IntroWait => s.len() == 1 && s[0] is Intro,
            EnginePhase::AirTextWait { .. } => s.len() == 2 && s[0] is Intro && s[1] is TextBox,
            EnginePhase::Fading { then, .. } => spec_fade_stack(then, s),
            EnginePhase::Waiting { then, .. } => spec_wait_stack(then, s),
            EnginePhase::IntroPan { .. } => s.len() == 1 && s[0] is WalkAround,
            EnginePhase::IntroPanText => s.len() == 2 && s[0] is WalkAround && s[1] is TextBox,
            EnginePhase::FieldWait => s.len() == 1 && s[0] is WalkAround,
            EnginePhase::TextQueueWait => s.len() == 2 && s[0] is WalkAround && s[1] is TextBox
                && self.queue_next <= self.text_queue.len(),
            EnginePhase::PromptBedSave => s.len() == 2 && s[0] is WalkAround && s[1]
                is YesNoPrompt,
            EnginePhase::PromptBedOverwrite => s.len() == 2 && s[0] is WalkAround && s[1]
                is YesNoPrompt,
            EnginePhase::SaveWait => s.len() == 1 && s[0] is WalkAround,
            EnginePhase::MenuWait => s.len() == 2 && s[0] is WalkAround && s[1] is MainMenu,
            EnginePhase::OptionsWait { over_title } => spec_options_base(over_title, s),
            EnginePhase::CreditsWait { over_title } => if over_title {
                s.len() == 3 && s[0] is Title && s[1] is Options && s[2] is Credits
            } else {
                s.len() == 4 && s[0] is WalkAround && s[1] is MainMenu && s[2] is Options && s[3]
                    is Credits
            },
            EnginePhase::QuitPromptWait { over_title } => if over_title {
                s.len() == 3 && s[0] is Title && s[1] is Options && s[2] is YesNoPrompt
            } else {
                s.len() == 4 && s[0] is WalkAround && s[1] is MainMenu && s[2] is Options && s[3]
                    is YesNoPrompt
            },
            EnginePhase::DebugWait => s.len() == 2 && s[0] is WalkAround && s[1] is DebugMenu,
            EnginePhase::DebugTextWait => s.len() == 2 && s[0] is WalkAround && s[1] is TextBox,
            EnginePhase::BattleWait { .. } => s.len() == 2 && s[0] is WalkAround && s[1]
                is Battle,
            EnginePhase::LevelWait { .. } => s.len() == 1 && s[0] is WalkAround,
            EnginePhase::EndingWait => s.len() == 1 && s[0] is Ending,
            EnginePhase::EndingCreditsWait => s.len() == 2 && s[0] is Ending && s[1] is Credits,
            EnginePhase::EndingStatusWait => s.len() == 2 && s[0] is Ending && s[1] is MainMenu,
            EnginePhase::Halted => true,
        }
    }

    /// Well-formedness: the context sound, the stack in its phase's shape,
    /// every encounter enemy fit, and the neighbour swap's pending level
    /// sound while it is held.
    pub closed spec fn wf(self) -> bool {
        &&& self.ctx.wf()
        &&& self.spec_stack_ok()
        &&& spec_tables_ok(self.encounter_tables@)
        &&& (self.phase matches EnginePhase::Fading { then: FadeThen::EdgeDark { .. }, .. }
            ==> (self.pending_level matches Some(l) && l.wf()))
    }

    /// Whether the engine has stopped for good.
    pub closed spec fn spec_halted(self) -> bool {
        self.phase is Halted
    }

    /// The current phase.
    pub closed spec fn spec_phase(self) -> EnginePhase {
        self.phase
    }

    /// What takes over when the queued run of text boxes is exhausted.
    pub closed spec fn spec_after_queue(self) -> AfterQueue {
        self.after_queue
    }

    /// Whether every queued text box has been opened already.
    pub closed spec fn spec_queue_exhausted(self) -> bool {
        self.queue_next >= self.text_queue.len()
    }

    /// Whether the engine has stopped for good.
    pub fn is_halted(&self) -> (r: bool)
        ensures
            r == self.spec_halted(),
    {
        matches!(self.phase, EnginePhase::Halted)
    }
}

/// Check an enemy's fitness to fight at runtime.
pub fn enemy_ok(enemy: &Enemy) -> (r: bool)
    ensures
        r == (enemy.wf() && enemy.hp >= 1),
{
    if !(1 <= enemy.hp && enemy.hp <= crate::progress::STAT_LIMIT) {
        return false;
    }
    if !(0 <= enemy.attack && enemy.attack <= crate::progress::STAT_LIMIT) {
        return false;
    }
    if !(0 <= enemy.defense && enemy.defense <= crate::progress::STAT_LIMIT) {
        return false;
    }
    if !(0 <= enemy.exp && enemy.exp <= crate::progress::EXP_REWARD_CAP) {
        return false;
    }
    if enemy.actions.len() < 1 {
        return false;
    }
    let mut i: usize = 0;
    while i < enemy.actions.len()
        invariant
            i <= enemy.actions@.len(),
            forall|k: int|
                0 <= k < i ==> match (#[trigger] enemy.actions@[k]).damage_factor {
                    Some(f) => f <= crate::enemy::FACTOR_CAP,
                    None => true,
                },
        decreases enemy.actions.len() - i,
    {
        match enemy.actions[i].damage_factor {
            Some(f) => {
                if f > crate::enemy::FACTOR_CAP {
                    return false;
                }
            },
            None => {},
        }
        i = i + 1;
    }
    true
}

/// Check a level's soundness at runtime.
pub fn level_ok(level: &Level) -> (r: bool)
    ensures
        r == level.wf(),
{
    1 <= level.width && level.width <= crate::levels::LEVEL_DIM_LIMIT && 1 <= level.height
        && level.height <= crate::levels::LEVEL_DIM_LIMIT && 0 <= level.px_world_x
        && level.px_world_x <= crate::levels::WORLD_LIMIT && 0 <= level.px_world_y
        && level.px_world_y <= crate::levels::WORLD_LIMIT && level.px_world_x % TILE_SIZE == 0
        && level.px_world_y % TILE_SIZE == 0
}

/// A field-for-field copy of an enemy.
pub fn clone_enemy(enemy: &Enemy) -> (r: Enemy)
    ensures
        r.name@ == enemy.name@,
        r.hp == enemy.hp,
        r.attack == enemy.attack,
        r.defense == enemy.defense,
        r.weakness == enemy.weakness,
        r.exp == enemy.exp,
        r.actions@.len() == enemy.actions@.len(),
        forall|i: int|
            0 <= i < enemy.actions@.len() ==> (#[trigger] r.actions@[i]).chance == enemy.actions@[
                i
            ].chance && r.actions@[i].damage_factor == enemy.actions@[i].damage_factor
                && r.actions@[i].message@ == enemy.actions@[i].message@,
        enemy.wf() ==> r.wf(),
{
    let mut actions: Vec<crate::enemy::EnemyAction> = Vec::new();
    let mut i: usize = 0;
    while i < enemy.actions.len()
        invariant
            i <= enemy.actions@.len(),
            actions@.len() == i,
            forall|k: int|
                0 <= k < i ==> (#[trigger] actions@[k]).chance == enemy.actions@[k].chance
                    && actions@[k].damage_factor == enemy.actions@[k].damage_factor
                    && actions@[k].message@ == enemy.actions@[k].message@,
        decreases enemy.actions.len() - i,
    {
        let entry = &enemy.actions[i];
        actions.push(
            crate::enemy::EnemyAction {
                chance: entry.chance,
                message: entry.message.clone(),
                damage_factor: entry.damage_factor,
            },
        );
        i = i + 1;
    }
    Enemy {
        name: enemy.name.clone(),
        hp: enemy.hp,
        attack: enemy.attack,
        defense: enemy.defense,
        weakness: enemy.weakness,
        exp: enemy.exp,
        actions,
    }
}

/// Record a sound effect for the driver, if the mode asked for one.
fn note_sfx(actions: &mut Vec<ScriptAction>, sfx: Option<Sfx>) {
    match sfx {
        Some(s) => actions.push(ScriptAction::Sfx(s)),
        None => {},
    }
}

impl ScriptEngine {
    /// The context is sound and exactly the free-roam screen is live: the
    /// footing every scripted sequence starts from and returns to.
    spec fn field_base_ok(self) -> bool {
        &&& self.ctx.wf()
        &&& spec_tables_ok(self.encounter_tables@)
        &&& self.ctx.modes.modes@.len() == 1
        &&& self.ctx.modes.modes@[0] is WalkAround
    }

    /// Build the engine over validated level data.  A registry that names
    /// an unknown location or binds anything twice, an unfit encounter
    /// table, or an unsound starting level is fatal at startup.
    pub fn new(
        level: Level,
        actors: Vec<Actor>,
        registry: Vec<LevelScript>,
        known_level_ids: &Vec<u32>,
        encounter_tables: Vec<Vec<Enemy>>,
        start_level_id: u32,
        save_exists: bool,
        seed: u64,
    ) -> (r: Result<ScriptEngine, String>)
        ensures
            r matches Ok(engine) ==> engine.wf(),
            // the opening state: a fresh player before the title screen,
            // with the first encounter between fifteen and forty steps off
            r matches Ok(engine) ==> {
                &&& spec_fresh_progress(engine.ctx.progress)
                &&& 15 <= engine.ctx.encounter_steps <= 40
                &&& engine.ctx.confirm_save_overwrite == save_exists
                &&& engine.ctx.fade_permille == 0
                &&& engine.ctx.music.current is None
                &&& engine.ctx.modes.modes@.len() == 1
                &&& engine.ctx.modes.modes@[0] is Title
                &&& engine.phase == EnginePhase::TitleWait
            },
            r is Ok <==> ({
                &&& spec_registry_valid(registry@, known_level_ids@)
                &&& level.wf()
                &&& actors@.len() >= 1
                &&& 0 <= actors@[0].grid_x < level.width
                &&& 0 <= actors@[0].grid_y < level.height
                &&& spec_tables_ok(encounter_tables@)
            }),
    {
        if !validate_level_scripts(&registry, known_level_ids) {
            return Err(String::from_str("level scripts name unknown or duplicate entries"));
        }
        if !level_ok(&level) {
            return Err(String::from_str("starting level data is unsound"));
        }
        if actors.len() < 1 {
            return Err(String::from_str("starting level has no player actor"));
        }
        if !(0 <= actors[0].grid_x && actors[0].grid_x < level.width && 0 <= actors[0].grid_y
            && actors[0].grid_y < level.height) {
            return Err(String::from_str("player actor stands outside the level"));
        }
        let mut g: usize = 0;
        while g < encounter_tables.len()
            invariant
                g <= encounter_tables@.len(),
                forall|a: int, b: int|
                    0 <= a < g && 0 <= b < (#[trigger] encounter_tables@[a])@.len() ==> (
                    #[trigger] encounter_tables@[a]@[b]).wf() && encounter_tables@[a]@[b].hp >= 1,
            decreases encounter_tables.len() - g,
        {
            let mut e: usize = 0;
            while e < encounter_tables[g].len()
                invariant
                    g < encounter_tables@.len(),
                    e <= encounter_tables@[g as int]@.len(),
                    forall|b: int|
                        0 <= b < e ==> (#[trigger] encounter_tables@[g as int]@[b]).wf()
                            && encounter_tables@[g as int]@[b].hp >= 1,
                decreases encounter_tables[g as int].len() - e,
            {
                if !enemy_ok(&encounter_tables[g][e]) {
                    proof {
                        assert(!(encounter_tables@[g as int]@[e as int].wf()
                            && encounter_tables@[g as int]@[e as int].hp >= 1));
                    }
                    return Err(String::from_str("an encounter table holds an unfit enemy"));
                }
                e = e + 1;
            }
            g = g + 1;
        }
        let mut rng = Rng::new(seed);
        let encounter_steps = 15 + rng.random(26) as i32;
        let mut modes = ModeStack::new();
        modes.push(Mode::Title(Title::new(save_exists)));
        let ctx = ScriptContext {
            modes,
            rng,
            progress: Progress::new(),
            level,
            actors,
            music: MusicState::new(),
            fade_permille: 0,
            encounter_steps,
            confirm_save_overwrite: save_exists,
        };
        Ok(
            ScriptEngine {
                ctx,
                registry,
                encounter_tables,
                start_level_id,
                save_exists,
                play_intro: false,
                phase: EnginePhase::TitleWait,
                text_queue: Vec::new(),
                queue_next: 0,
                after_queue: AfterQueue::ToField,
                pending_level: None,
                pending_actors: Vec::new(),
            },
        )
    }

    /// Stop for good over a broken invariant.
    fn fatal(&mut self, msg: &str) -> (r: ScriptStatus)
        requires
            old(self).ctx.wf(),
            spec_tables_ok(old(self).encounter_tables@),
        ensures
            final(self).wf(),
            final(self).spec_halted(),
            r is Fatal,
            final(self).ctx == old(self).ctx,
    {
        self.phase = EnginePhase::Halted;
        ScriptStatus::Fatal(String::from_str(msg))
    }
}

impl ScriptEngine {
    /// Switch the phase and report the fade overlay's blackness for the
    /// tick that just passed.
    fn fade_tick(
        &mut self,
        left: u32,
        total: u32,
        to_black: bool,
        then: FadeThen,
        acts: &mut Vec<ScriptAction>,
    ) -> (r: ScriptStatus)
        requires
            old(self).wf(),
            old(self).phase == (EnginePhase::Fading { left, total, to_black, then }),
        ensures
            final(self).wf(),
            !(r is Quit),
    {
        if left > 0 {
            if 1 <= total && total <= 1000 && left <= total {
                let done = total - left + 1;
                self.ctx.fade_permille = if to_black {
                    1000 * done / total
                } else {
                    1000 * (left - 1) / total
                };
                proof {
                    let t = total as int;
                    let l = left as int;
                    assert((1000 * (t - l + 1)) / t <= 1000 && (1000 * (l - 1)) / t <= 1000)
                        by (nonlinear_arith)
                        requires
                            1 <= t <= 1000,
                            1 <= l <= t,
                    ;
                }
            } else {
                self.ctx.fade_permille = if to_black {
                    1000
                } else {
                    0
                };
            }
            self.phase = EnginePhase::Fading { left: left - 1, total, to_black, then };
            ScriptStatus::Running
        } else {
            self.ctx.fade_permille = if to_black {
                1000
            } else {
                0
            };
            self.fade_done(then, acts)
        }
    }

    /// Take the continuation of a finished fade.
    fn fade_done(&mut self, then: FadeThen, acts: &mut Vec<ScriptAction>) -> (r: ScriptStatus)
        requires
            old(self).ctx.wf(),
            spec_tables_ok(old(self).encounter_tables@),
            spec_fade_stack(then, old(self).ctx.modes.modes@),
            (then matches FadeThen::EdgeDark { .. } ==> (old(self).pending_level matches Some(l)
                && l.wf())),
        ensures
            final(self).wf(),
            !(r is Quit),
    {
        match then {
            FadeThen::TitleToField { intro } => {
                self.ctx.pop_mode();
                if intro {
                    self.ctx.push_intro_mode();
                    acts.push(ScriptAction::Music(self.ctx.music.play_music(Some(Music::Intro))));
                    self.phase = EnginePhase::IntroWait;
                } else {
                    self.ctx.push_walk_around_mode();
                    self.phase = EnginePhase::Fading {
                        left: 30,
                        total: 30,
                        to_black: false,
                        then: FadeThen::FieldShown { intro: false },
                    };
                }
                ScriptStatus::Running
            },
            FadeThen::IntroShown => {
                let text = String::from_str(
                    "Air:\nCoric... listen well.\nI am the Spirit of Air.",
                );
                self.ctx.push_text_box_mode(&text);
                self.phase = EnginePhase::AirTextWait { step: 0 };
                ScriptStatus::Running
            },
            FadeThen::IntroWhite => {
                self.phase = EnginePhase::Fading {
                    left: 120,
                    total: 120,
                    to_black: true,
                    then: FadeThen::IntroEnd,
                };
                ScriptStatus::Running
            },
            FadeThen::IntroEnd => {
                acts.push(ScriptAction::Music(self.ctx.music.play_music(None)));
                acts.push(ScriptAction::SetMusicVolume(100));
                self.ctx.pop_mode();
                self.ctx.pop_mode();
                self.ctx.push_walk_around_mode();
                self.phase = EnginePhase::Fading {
                    left: 120,
                    total: 120,
                    to_black: false,
                    then: FadeThen::FieldShown { intro: true },
                };
                ScriptStatus::Running
            },
            FadeThen::FieldShown { intro } => {
                if intro {
                    let mut player = self.ctx.actors[0];
                    player.animation = Animation::FaceEast;
                    self.ctx.actors[0] = player;
                    self.phase = EnginePhase::IntroPan { step: 0, left: 30 };
                } else {
                    let track = self.ctx.level.music;
                    acts.push(ScriptAction::Music(self.ctx.music.play_music(track)));
                    self.phase = EnginePhase::FieldWait;
                }
                ScriptStatus::Running
            },
            FadeThen::BedDark => {
                acts.push(ScriptAction::Sfx(Sfx::Heal));
                self.phase = EnginePhase::Waiting { left: 30, then: WaitThen::BedRested };
                ScriptStatus::Running
            },
            FadeThen::BedLight => {
                acts.push(ScriptAction::SetMusicVolume(100));
                let hp_cap = self.ctx.progress.max_hp;
                self.ctx.progress.heal_hp(hp_cap);
                let mp_cap = self.ctx.progress.max_mp;
                self.ctx.progress.heal_mp(mp_cap);
                let mut texts: Vec<String> = Vec::new();
                texts.push(String::from_str("HP and MP recovered!"));
                self.start_queue(texts, AfterQueue::BedAfterHeal)
            },
            FadeThen::CreditsDark { over_title } => {
                self.ctx.push_credits_mode();
                self.phase = EnginePhase::CreditsWait { over_title };
                ScriptStatus::Running
            },
            FadeThen::CreditsLight { over_title } => {
                acts.push(ScriptAction::SetMusicVolume(100));
                self.phase = EnginePhase::OptionsWait { over_title };
                ScriptStatus::Running
            },
            FadeThen::DefeatDark => {
                acts.push(ScriptAction::FetchLevel(self.start_level_id));
                self.phase = EnginePhase::LevelWait { purpose: FetchPurpose::Defeat };
                ScriptStatus::Running
            },
            FadeThen::DefeatLight => {
                let mut texts: Vec<String> = Vec::new();
                texts.push(String::from_str("Coric:\nOuch!"));
                self.start_queue(texts, AfterQueue::DefeatDone)
            },
            FadeThen::EdgeDark { dir } => self.edge_swap(dir, acts),
            FadeThen::EdgeLight => {
                self.phase = EnginePhase::FieldWait;
                ScriptStatus::Running
            },
            FadeThen::EndingWhite => {
                self.phase = EnginePhase::Fading {
                    left: 180,
                    total: 180,
                    to_black: true,
                    then: FadeThen::EndingBlack,
                };
                ScriptStatus::Running
            },
            FadeThen::EndingBlack => {
                self.ctx.fade_permille = 0;
                self.ctx.pop_mode();
                self.ctx.push_ending_mode();
                acts.push(ScriptAction::Music(self.ctx.music.play_music(Some(Music::Ending))));
                self.phase = EnginePhase::EndingWait;
                ScriptStatus::Running
            },
        }
    }

    /// Swap the world to the fetched neighbouring level, recomputing the
    /// player's grid position from the pixel offset between the two
    /// origins.
    fn edge_swap(&mut self, dir: Direction, acts: &mut Vec<ScriptAction>) -> (r: ScriptStatus)
        requires
            old(self).ctx.wf(),
            spec_tables_ok(old(self).encounter_tables@),
            old(self).ctx.modes.modes@.len() == 1,
            old(self).ctx.modes.modes@[0] is WalkAround,
            (old(self).pending_level matches Some(l) && l.wf()),
        ensures
            final(self).wf(),
            !(r is Quit),
    {
        let level = match self.pending_level {
            Some(l) => l,
            None => {
                return self.fatal("no fetched level to cross into");
            },
        };
        self.pending_level = None;
        let mut others: Vec<Actor> = Vec::new();
        core::mem::swap(&mut others, &mut self.pending_actors);
        let player = self.ctx.actors[0];
        let new_x = crossed_coord(player.grid_x, self.ctx.level.px_world_x, level.px_world_x,
            dir.dx());
        let new_y = crossed_coord(player.grid_y, self.ctx.level.px_world_y, level.px_world_y,
            dir.dy());
        if !self.enter_level_at(level, others, new_x, new_y, crate::modes::walk_around::facing_animation(dir)) {
            return self.fatal("the crossing leads outside the neighbouring level");
        }
        let track = self.ctx.level.music;
        acts.push(ScriptAction::Music(self.ctx.music.play_music(track)));
        self.phase = EnginePhase::Fading {
            left: 16,
            total: 16,
            to_black: false,
            then: FadeThen::EdgeLight,
        };
        ScriptStatus::Running
    }

    /// Move the player into a fetched level at the given tile and make the
    /// level current; false when the tile lies outside the level or an
    /// on-enter script finds its actor missing.
    fn enter_level_at(
        &mut self,
        level: Level,
        others: Vec<Actor>,
        x: i32,
        y: i32,
        animation: Animation,
    ) -> (ok: bool)
        requires
            old(self).ctx.wf(),
            level.wf(),
        ensures
            final(self).ctx.wf(),
            final(self).ctx.modes == old(self).ctx.modes,
            final(self).encounter_tables == old(self).encounter_tables,
            final(self).phase == old(self).phase,
            final(self).pending_level == old(self).pending_level,
            ok ==> {
                &&& final(self).ctx.level.identifier == level.identifier
                &&& final(self).ctx.actors@[0].grid_x == x
                &&& final(self).ctx.actors@[0].grid_y == y
                &&& final(self).ctx.actors@[0].visible
                &&& final(self).ctx.actors@[0].identifier == old(self).ctx.actors@[0].identifier
                &&& final(self).ctx.progress == old(self).ctx.progress
            },
    {
        if !(0 <= x && x < level.width && 0 <= y && y < level.height) {
            return false;
        }
        let mut player = self.ctx.actors[0];
        player.grid_x = x;
        player.grid_y = y;
        player.visible = true;
        player.animation = animation;
        let mut level2 = level;
        let mut actors2 = others;
        self.ctx.prepare_level_and_actors(&mut level2, &mut actors2);
        actors2.insert(0, player);
        self.ctx.level = level2;
        self.ctx.actors = actors2;
        self.run_on_enter()
    }

    /// Run the current level's on-enter script, if the registry has one.
    fn run_on_enter(&mut self) -> (ok: bool)
        requires
            old(self).ctx.wf(),
        ensures
            final(self).ctx.wf(),
            final(self).ctx.modes == old(self).ctx.modes,
            final(self).encounter_tables == old(self).encounter_tables,
            final(self).phase == old(self).phase,
            final(self).pending_level == old(self).pending_level,
            final(self).ctx.level == (Level {
                gates: final(self).ctx.level.gates,
                ..old(self).ctx.level
            }),
            final(self).ctx.actors@[0] == old(self).ctx.actors@[0],
            final(self).ctx.progress == old(self).ctx.progress,
    {
        let level_id = self.ctx.level.identifier;
        let mut i: usize = 0;
        let mut enter: Option<EnterKind> = None;
        while i < self.registry.len()
            invariant
                i <= self.registry@.len(),
            decreases self.registry@.len() - i,
        {
            if self.registry[i].level_id == level_id {
                enter = self.registry[i].on_enter;
            }
            i = i + 1;
        }
        match enter {
            None => true,
            Some(EnterKind::GateWhileEarthStands { tile_x, tile_y }) => {
                if !self.ctx.progress.earth_defeated {
                    self.ctx.place_gates(tile_x, tile_y);
                }
                true
            },
            Some(EnterKind::GateWhileWaterStands { tile_x, tile_y }) => {
                if !self.ctx.progress.water_defeated {
                    self.ctx.place_gates(tile_x, tile_y);
                }
                true
            },
            Some(EnterKind::ClearFallenBoss(kind)) => {
                let fallen = match kind {
                    BossKind::Earth => self.ctx.progress.earth_defeated,
                    BossKind::Water => self.ctx.progress.water_defeated,
                    BossKind::Fire => self.ctx.progress.fire_defeated,
                };
                if fallen {
                    self.remove_boss_actor(kind)
                } else {
                    true
                }
            },
        }
    }

    /// The actor type of a guardian.
    fn boss_actor_type(kind: BossKind) -> (r: ActorType)
        ensures
            r != ActorType::Player,
    {
        match kind {
            BossKind::Earth => ActorType::Earth,
            BossKind::Water => ActorType::Water,
            BossKind::Fire => ActorType::Fire,
        }
    }

    /// Remove a fallen guardian's actor; false when it is missing, which
    /// only corrupt level data can cause.
    fn remove_boss_actor(&mut self, kind: BossKind) -> (ok: bool)
        requires
            old(self).ctx.wf(),
        ensures
            final(self).ctx.wf(),
            final(self).ctx.modes == old(self).ctx.modes,
            final(self).encounter_tables == old(self).encounter_tables,
            final(self).phase == old(self).phase,
            final(self).pending_level == old(self).pending_level,
            final(self).ctx.level == old(self).ctx.level,
            final(self).ctx.actors@[0] == old(self).ctx.actors@[0],
            final(self).ctx.progress == old(self).ctx.progress,
    {
        let target = Self::boss_actor_type(kind);
        let mut i: usize = 1;
        while i < self.ctx.actors.len()
            invariant
                1 <= i,
                old(self).ctx.wf(),
                *self == *old(self),
            decreases self.ctx.actors@.len() - i,
        {
            if self.ctx.actors[i].identifier == target {
                self.ctx.actors.remove(i);
                proof {
                    assert(self.ctx.actors@[0] == old(self).ctx.actors@[0]);
                }
                return true;
            }
            i = i + 1;
        }
        false
    }

    /// Show or hide a guardian's actor; false when it is missing.
    fn set_boss_actor_visible(&mut self, kind: BossKind, visible: bool) -> (ok: bool)
        requires
            old(self).ctx.wf(),
        ensures
            final(self).ctx.wf(),
            final(self).ctx.modes == old(self).ctx.modes,
            final(self).encounter_tables == old(self).encounter_tables,
            final(self).phase == old(self).phase,
            final(self).pending_level == old(self).pending_level,
            final(self).ctx.actors@.len() == old(self).ctx.actors@.len(),
            final(self).ctx.actors@[0] == old(self).ctx.actors@[0],
            final(self).ctx.level == old(self).ctx.level,
            final(self).ctx.progress == old(self).ctx.progress,
    {
        let target = Self::boss_actor_type(kind);
        let mut i: usize = 1;
        while i < self.ctx.actors.len()
            invariant
                1 <= i,
                old(self).ctx.wf(),
                *self == *old(self),
            decreases self.ctx.actors@.len() - i,
        {
            if self.ctx.actors[i].identifier == target {
                let mut actor = self.ctx.actors[i];
                actor.visible = visible;
                self.ctx.actors[i] = actor;
                return true;
            }
            i = i + 1;
        }
        false
    }

    /// Open the first queued text box; the rest follow one confirm at a
    /// time, and `after` takes over once the run is exhausted.
    fn start_queue(&mut self, texts: Vec<String>, after: AfterQueue) -> (r: ScriptStatus)
        requires
            old(self).ctx.wf(),
            spec_tables_ok(old(self).encounter_tables@),
            old(self).ctx.modes.modes@.len() == 1,
            old(self).ctx.modes.modes@[0] is WalkAround,
            texts@.len() >= 1,
        ensures
            final(self).wf(),
            !(r is Quit),
            final(self).ctx == (ScriptContext { modes: final(self).ctx.modes, ..old(self).ctx }),
            final(self).phase is TextQueueWait,
            final(self).after_queue == after,
            r is Running,
    {
        self.ctx.push_text_box_mode(&texts[0]);
        self.text_queue = texts;
        self.queue_next = 1;
        self.after_queue = after;
        self.phase = EnginePhase::TextQueueWait;
        ScriptStatus::Running
    }

    /// Refresh the field music, or raise the ending once the last guardian
    /// is saved; every talk script ends through here.
    fn end_talk_transition(&mut self, acts: &mut Vec<ScriptAction>) -> (r: ScriptStatus)
        requires
            old(self).ctx.wf(),
            spec_tables_ok(old(self).encounter_tables@),
            old(self).ctx.modes.modes@.len() == 1,
            old(self).ctx.modes.modes@[0] is WalkAround,
        ensures
            final(self).wf(),
            !(r is Quit),
            r is Running,
            final(self).ctx.progress == old(self).ctx.progress,
    {
        if self.ctx.progress.fire_defeated {
            self.phase = EnginePhase::Fading {
                left: 180,
                total: 180,
                to_black: true,
                then: FadeThen::EndingWhite,
            };
        } else {
            let track = self.ctx.level.music;
            acts.push(ScriptAction::Music(self.ctx.music.play_music(track)));
            self.phase = EnginePhase::FieldWait;
        }
        ScriptStatus::Running
    }

    /// Take the continuation of an exhausted text-box run.
    fn finish_after_queue(&mut self, after: AfterQueue, acts: &mut Vec<ScriptAction>) -> (r:
        ScriptStatus)
        requires
            old(self).ctx.wf(),
            spec_tables_ok(old(self).encounter_tables@),
            old(self).ctx.modes.modes@.len() == 1,
            old(self).ctx.modes.modes@[0] is WalkAround,
        ensures
            final(self).wf(),
            !(r is Quit),
            // a fallen guardian's flag is set the moment its farewell ends
            after matches AfterQueue::BossFallen(kind) ==> r is Fatal || spec_boss_flag(
                kind,
                final(self).ctx.progress,
            ),
    {
        match after {
            AfterQueue::ToField => {
                self.phase = EnginePhase::FieldWait;
                ScriptStatus::Running
            },
            AfterQueue::EndTalk => self.end_talk_transition(acts),
            AfterQueue::StartBossBattle(kind) => {
                if !self.set_boss_actor_visible(kind, false) {
                    return self.fatal("the guardian's actor is missing from its hall");
                }
                let mut player = self.ctx.actors[0];
                player.visible = false;
                self.ctx.actors[0] = player;
                let enemy = match kind {
                    BossKind::Earth => Enemy::earth_spirit(),
                    BossKind::Water => Enemy::water_spirit(),
                    BossKind::Fire => Enemy::fire_spirit(),
                };
                self.ctx.push_battle_mode(enemy, true);
                acts.push(ScriptAction::Music(self.ctx.music.play_music(Some(Music::Boss))));
                self.phase = EnginePhase::BattleWait { source: BattleSource::Boss(kind) };
                ScriptStatus::Running
            },
            AfterQueue::BossFallen(kind) => {
                if !self.remove_boss_actor(kind) {
                    return self.fatal("the guardian's actor is missing from its hall");
                }
                match kind {
                    BossKind::Earth => {
                        self.ctx.progress.earth_defeated = true;
                    },
                    BossKind::Water => {
                        self.ctx.progress.water_defeated = true;
                    },
                    BossKind::Fire => {
                        self.ctx.progress.fire_defeated = true;
                    },
                }
                self.end_talk_transition(acts)
            },
            AfterQueue::BedAfterHeal => {
                proof {
                    reveal_strlit("Save your progress?");
                    reveal_strlit("Save");
                    reveal_strlit("Don't save");
                }
                self.ctx.push_yes_no_prompt_mode("Save your progress?", "Save", "Don't save", true);
                self.phase = EnginePhase::PromptBedSave;
                ScriptStatus::Running
            },
            AfterQueue::SaveDone => self.end_talk_transition(acts),
            AfterQueue::DefeatDone => {
                self.phase = EnginePhase::FieldWait;
                ScriptStatus::Running
            },
            AfterQueue::LearnNext(n) => {
                let spell = if n == 1 {
                    Some(Magic::FireEdge)
                } else if n == 2 {
                    Some(Magic::EarthEdge)
                } else if n == 3 {
                    Some(Magic::WaterEdge)
                } else {
                    None
                };
                match spell {
                    Some(magic) => {
                        self.ctx.progress.learn_magic(magic);
                        acts.push(ScriptAction::Sfx(Sfx::Chime));
                        let mut texts: Vec<String> = Vec::new();
                        texts.push(learned_text(magic));
                        self.start_queue(texts, AfterQueue::LearnNext(n + 1))
                    },
                    None => {
                        self.phase = EnginePhase::FieldWait;
                        ScriptStatus::Running
                    },
                }
            },
        }
    }
}

/// The announcement of a learned spell.
fn learned_text(magic: Magic) -> (r: String)
{
    String::new().concat("Coric learned ").concat(magic.name()).concat("!")
}

/// The announcement of received items.
fn got_items_text(name: &str, n: i32) -> (r: String)
    requires
        1 <= n,
{
    if n == 1 {
        String::new().concat("Coric got a ").concat(name).concat("!")
    } else {
        String::new().concat("Coric got ").concat(u32_to_string(n as u32).as_str()).concat(
            " ",
        ).concat(name).concat("s!")
    }
}

impl ScriptEngine {
    /// One tick of the title screen.
    fn title_tick(&mut self, input: &Input, acts: &mut Vec<ScriptAction>) -> (r: ScriptStatus)
        requires
            input.wf(),
            old(self).wf(),
            old(self).phase is TitleWait,
        ensures
            final(self).wf(),
            !(r is Quit),
    {
        let step = self.ctx.update_title_mode(input);
        note_sfx(acts, step.sfx);
        match step.event {
            None => ScriptStatus::Running,
            Some(TitleEvent::NewGame(intro)) => {
                self.ctx.confirm_save_overwrite = self.save_exists;
                self.play_intro = intro;
                self.phase = EnginePhase::Fading {
                    left: 30,
                    total: 30,
                    to_black: true,
                    then: FadeThen::TitleToField { intro },
                };
                ScriptStatus::Running
            },
            Some(TitleEvent::Continue) => {
                acts.push(ScriptAction::Load);
                self.phase = EnginePhase::LoadWait;
                ScriptStatus::Running
            },
            Some(TitleEvent::Options) => {
                self.ctx.push_options_mode(100, 100);
                self.phase = EnginePhase::OptionsWait { over_title: true };
                ScriptStatus::Running
            },
        }
    }

    /// One tick of the Spirit of Air's opening lines.
    fn air_tick(&mut self, input: &Input, step_no: u32, acts: &mut Vec<ScriptAction>) -> (r:
        ScriptStatus)
        requires
            input.wf(),
            old(self).wf(),
            old(self).phase == (EnginePhase::AirTextWait { step: step_no }),
        ensures
            final(self).wf(),
            !(r is Quit),
    {
        let step = self.ctx.update_text_box_mode(input);
        note_sfx(acts, step.sfx);
        match step.event {
            None => ScriptStatus::Running,
            Some(TextBoxEvent::Done) => {
                if step_no == 0 {
                    self.ctx.pop_mode();
                    let text = String::from_str(
                        "Air:\nA foul curse has befallen my kin.\nEven now, our power wanes...",
                    );
                    self.ctx.push_text_box_mode(&text);
                    self.phase = EnginePhase::AirTextWait { step: 1 };
                } else if step_no == 1 {
                    self.ctx.pop_mode();
                    let text = String::from_str(
                        "Air:\nPlease... you must save us...\nBefore all is lost...",
                    );
                    self.ctx.push_text_box_mode(&text);
                    self.phase = EnginePhase::AirTextWait { step: 2 };
                } else {
                    acts.push(ScriptAction::SetMusicVolume(40));
                    self.phase = EnginePhase::Fading {
                        left: 120,
                        total: 120,
                        to_black: true,
                        then: FadeThen::IntroWhite,
                    };
                }
                ScriptStatus::Running
            },
        }
    }

    /// One tick of the waking pan after the vision.
    fn pan_tick(&mut self, step_no: u32, left: u32) -> (r: ScriptStatus)
        requires
            old(self).wf(),
            old(self).phase == (EnginePhase::IntroPan { step: step_no, left }),
        ensures
            final(self).wf(),
            !(r is Quit),
    {
        if left > 0 {
            self.phase = EnginePhase::IntroPan { step: step_no, left: left - 1 };
            return ScriptStatus::Running;
        }
        let mut player = self.ctx.actors[0];
        if step_no == 0 {
            player.animation = Animation::FaceWest;
            self.ctx.actors[0] = player;
            self.phase = EnginePhase::IntroPan { step: 1, left: 30 };
        } else if step_no == 1 {
            player.animation = Animation::FaceEast;
            self.ctx.actors[0] = player;
            self.phase = EnginePhase::IntroPan { step: 2, left: 30 };
        } else if step_no == 2 {
            player.animation = Animation::FaceSouth;
            self.ctx.actors[0] = player;
            self.phase = EnginePhase::IntroPan { step: 3, left: 30 };
        } else {
            let text = String::from_str(
                "Coric:\nThat vision...\nI'd better speak with the others.",
            );
            self.ctx.push_text_box_mode(&text);
            self.phase = EnginePhase::IntroPanText;
        }
        ScriptStatus::Running
    }

    /// Start a battle against an enemy drawn from an encounter table.
    fn wild_battle(&mut self, group: u32, acts: &mut Vec<ScriptAction>) -> (r: ScriptStatus)
        requires
            old(self).field_base_ok(),
        ensures
            final(self).wf(),
            !(r is Quit),
    {
        let g = group as usize;
        if g < self.encounter_tables.len() && self.encounter_tables[g].len() >= 1
            && self.encounter_tables[g].len() <= 60000 {
            let count = self.encounter_tables[g].len() as u32;
            let pick = self.ctx.rng.random(count) as usize;
            let enemy = clone_enemy(&self.encounter_tables[g][pick]);
            let mut player = self.ctx.actors[0];
            player.visible = false;
            self.ctx.actors[0] = player;
            self.ctx.push_battle_mode(enemy, false);
            acts.push(ScriptAction::Music(self.ctx.music.play_music(Some(Music::Battle))));
            self.phase = EnginePhase::BattleWait { source: BattleSource::Wild };
        } else {
            self.phase = EnginePhase::FieldWait;
        }
        ScriptStatus::Running
    }

    /// The guardian's challenge line.
    fn boss_challenge(kind: BossKind) -> (r: String) {
        match kind {
            BossKind::Earth => String::from_str(
                "Earth:\nI will return you to the dust\nwhence you came, mortal!",
            ),
            BossKind::Water => String::from_str("Water:\nThe Water of Life claims all souls!"),
            BossKind::Fire => String::from_str(
                "Fire:\nYour flame of life will be\nextinguished here!",
            ),
        }
    }

    /// The guardian's farewell line.
    fn boss_farewell(kind: BossKind) -> (r: String) {
        match kind {
            BossKind::Earth => String::from_str(
                "Earth:\nI was... possessed... please...\nsave... the others...",
            ),
            BossKind::Water => String::from_str(
                "Water:\nI was... possessed... please...\nsave... the others...",
            ),
            BossKind::Fire => String::from_str(
                "Fire:\nI was... possessed...\nThank you... Coric...",
            ),
        }
    }

    /// The bed: rest if anything is missing, then offer to save.
    fn talk_bed(&mut self, acts: &mut Vec<ScriptAction>) -> (r: ScriptStatus)
        requires
            old(self).field_base_ok(),
        ensures
            final(self).wf(),
            !(r is Quit),
    {
        if self.ctx.progress.hp < self.ctx.progress.max_hp || self.ctx.progress.mp
            < self.ctx.progress.max_mp {
            acts.push(ScriptAction::SetMusicVolume(40));
            self.phase = EnginePhase::Fading {
                left: 60,
                total: 60,
                to_black: true,
                then: FadeThen::BedDark,
            };
            ScriptStatus::Running
        } else {
            proof {
                reveal_strlit("Save your progress?");
                reveal_strlit("Save");
                reveal_strlit("Don't save");
            }
            self.ctx.push_yes_no_prompt_mode("Save your progress?", "Save", "Don't save", true);
            self.phase = EnginePhase::PromptBedSave;
            ScriptStatus::Running
        }
    }

    /// Ducille the apothecary: items to carry, then advice.
    fn talk_ducille(&mut self, acts: &mut Vec<ScriptAction>) -> (r: ScriptStatus)
        requires
            old(self).field_base_ok(),
        ensures
            final(self).wf(),
            !(r is Quit),
    {
        let earth = self.ctx.progress.earth_defeated;
        let water = self.ctx.progress.water_defeated;
        let fire = self.ctx.progress.fire_defeated;
        let (salves, xsalves, tonics): (i32, i32, i32) = if !earth {
            (1, 0, 1)
        } else if !water {
            (2, 0, 2)
        } else {
            (1, 1, 2)
        };
        let salves_given = self.ctx.progress.maybe_give_items(Item::Salve, salves);
        let xsalves_given = self.ctx.progress.maybe_give_items(Item::XSalve, xsalves);
        let tonics_given = self.ctx.progress.maybe_give_items(Item::Tonic, tonics);
        let mut texts: Vec<String> = Vec::new();
        if salves_given > 0 || xsalves_given > 0 || tonics_given > 0 {
            texts.push(
                String::from_str("Ducille:\nYou need items, Coric?\nLet's see what I can find..."),
            );
        }
        if salves_given > 0 {
            acts.push(ScriptAction::Sfx(Sfx::Chime));
            texts.push(got_items_text("Salve", salves_given));
        }
        if xsalves_given > 0 {
            acts.push(ScriptAction::Sfx(Sfx::Chime));
            texts.push(got_items_text("XSalve", xsalves_given));
        }
        if tonics_given > 0 {
            acts.push(ScriptAction::Sfx(Sfx::Chime));
            texts.push(got_items_text("Tonic", tonics_given));
        }
        if !earth {
            texts.push(
                String::from_str("Ducille:\nYou can rest in your bed\nto recover and save."),
            );
        } else if !water {
            texts.push(
                String::from_str("Ducille:\nIf you fall in battle,\nwe'll bring you back home."),
            );
        } else if !fire {
            texts.push(
                String::from_str(
                    "Ducille:\nThe spirits were possessed, you say?\nI wonder how that came to be...",
                ),
            );
        }
        if texts.len() >= 1 {
            self.start_queue(texts, AfterQueue::EndTalk)
        } else {
            self.end_talk_transition(acts)
        }
    }

    /// Jace: a healing spell for the road, then directions.
    fn talk_jace(&mut self, acts: &mut Vec<ScriptAction>) -> (r: ScriptStatus)
        requires
            old(self).field_base_ok(),
        ensures
            final(self).wf(),
            !(r is Quit),
    {
        let mut texts: Vec<String> = Vec::new();
        if !self.ctx.progress.magic[0].known {
            self.ctx.progress.learn_magic(Magic::Heal);
            acts.push(ScriptAction::Sfx(Sfx::Chime));
            texts.push(
                String::from_str(
                    "Jace:\nIf you're heading out, I can teach\nyou some magic to keep you safe.",
                ),
            );
            texts.push(learned_text(Magic::Heal));
            texts.push(
                String::from_str(
                    "Jace:\nDon't be shy with it.  I've never\nseen the wildlife like this before.",
                ),
            );
        }
        if !self.ctx.progress.earth_defeated {
            texts.push(
                String::from_str(
                    "Jace:\nThe spirits reside in three castles.\nThe Earth Castle lies to the east.",
                ),
            );
        } else if !self.ctx.progress.water_defeated {
            texts.push(
                String::from_str(
                    "Jace:\nHead to the Water Castle, across\nthe lakes and forests to the west.",
                ),
            );
        } else if !self.ctx.progress.fire_defeated {
            texts.push(
                String::from_str(
                    "Jace:\nAcross the chasms and cliffs\nto the north lies the Fire Castle.",
                ),
            );
        }
        if texts.len() >= 1 {
            self.start_queue(texts, AfterQueue::EndTalk)
        } else {
            self.end_talk_transition(acts)
        }
    }

    /// Julis: counsel that follows the journey.
    fn talk_julis(&mut self, acts: &mut Vec<ScriptAction>) -> (r: ScriptStatus)
        requires
            old(self).field_base_ok(),
        ensures
            final(self).wf(),
            !(r is Quit),
    {
        let mut texts: Vec<String> = Vec::new();
        if !self.ctx.progress.earth_defeated {
            texts.push(
                String::from_str(
                    "Julis:\nPress the cancel key to view your\nstatus, and use items and magic.",
                ),
            );
            texts.push(
                String::from_str(
                    "Julis:\nTalk to us when you make progress;\nwe'll have more to tell you.",
                ),
            );
        } else if !self.ctx.progress.water_defeated {
            texts.push(
                String::from_str(
                    "Julis:\nDucille tends to the apothecary;\nJace knows the lay of the land.",
                ),
            );
        } else if !self.ctx.progress.fire_defeated {
            texts.push(
                String::from_str("Julis:\nWe have records of vampires\nbested by water."),
            );
        }
        if texts.len() >= 1 {
            self.start_queue(texts, AfterQueue::EndTalk)
        } else {
            self.end_talk_transition(acts)
        }
    }

    /// Matero the smith: starting gear, then tactics.
    fn talk_matero(&mut self, acts: &mut Vec<ScriptAction>) -> (r: ScriptStatus)
        requires
            old(self).field_base_ok(),
        ensures
            final(self).wf(),
            !(r is Quit),
    {
        let attack_boost = self.ctx.progress.maybe_upgrade_weapon("Short Sword", 2);
        let defense_boost = self.ctx.progress.maybe_upgrade_armor("Leather Armor", 2);
        let mut texts: Vec<String> = Vec::new();
        if attack_boost.is_some() || defense_boost.is_some() {
            texts.push(
                String::from_str("Matero:\nGoing on a quest?\nI have some gear you can use."),
            );
        }
        match attack_boost {
            Some(boost) => {
                acts.push(ScriptAction::Sfx(Sfx::Chime));
                texts.push(boost_text("Short Sword", "Attack", boost));
            },
            None => {},
        }
        match defense_boost {
            Some(boost) => {
                acts.push(ScriptAction::Sfx(Sfx::Chime));
                texts.push(boost_text("Leather Armor", "Defense", boost));
            },
            None => {},
        }
        if !self.ctx.progress.earth_defeated {
            texts.push(
                String::from_str(
                    "Matero:\nIf you use magic on a foe, you can\nfollow up next turn for more damage.",
                ),
            );
        } else if !self.ctx.progress.water_defeated {
            texts.push(
                String::from_str(
                    "Matero:\nRumor has it that each castle has\na weapon and an armor to find.",
                ),
            );
        } else if !self.ctx.progress.fire_defeated {
            texts.push(
                String::from_str(
                    "Matero:\nIf spikes block your path, you can\npull a lever to retract them.",
                ),
            );
        }
        if texts.len() >= 1 {
            self.start_queue(texts, AfterQueue::EndTalk)
        } else {
            self.end_talk_transition(acts)
        }
    }

    /// A chest: spells and gear, opened once.
    fn talk_chest(&mut self, actor_index: usize, acts: &mut Vec<ScriptAction>) -> (r:
        ScriptStatus)
        requires
            old(self).field_base_ok(),
            actor_index < old(self).ctx.actors@.len(),
            actor_index >= 1,
        ensures
            final(self).wf(),
            !(r is Quit),
    {
        if self.ctx.progress.chest_collected(self.ctx.level.identifier) {
            self.phase = EnginePhase::FieldWait;
            return ScriptStatus::Running;
        }
        let actor = self.ctx.actors[actor_index];
        let chest_type = match actor.chest_type {
            Some(c) => c,
            None => {
                return self.fatal("a chest actor carries no contents tag");
            },
        };
        let mut opened_actor = actor;
        opened_actor.animation = Animation::Open;
        self.ctx.actors[actor_index] = opened_actor;
        let level_id = self.ctx.level.identifier;
        let mut texts: Vec<String> = Vec::new();
        match chest_type {
            ChestType::FireEdge | ChestType::EarthEdge | ChestType::WaterEdge => {
                let magic = match chest_type {
                    ChestType::FireEdge => Magic::FireEdge,
                    ChestType::EarthEdge => Magic::EarthEdge,
                    _ => Magic::WaterEdge,
                };
                self.ctx.progress.learn_magic(magic);
                acts.push(ScriptAction::Sfx(Sfx::Chime));
                if !self.ctx.progress.chest_collected(level_id) {
                    self.ctx.progress.record_chest(level_id);
                }
                texts.push(learned_text(magic));
                self.start_queue(texts, AfterQueue::ToField)
            },
            _ => {
                let (name, value, is_weapon): (&str, i32, bool) = match chest_type {
                    ChestType::LongSword => ("Long Sword", 7, true),
                    ChestType::ChainVest => ("Chain Vest", 7, false),
                    ChestType::DuelistSword => ("Duelist Sword", 13, true),
                    ChestType::SteelArmor => ("Steel Armor", 13, false),
                    ChestType::ValorBlade => ("Valor Blade", 25, true),
                    _ => ("Mythic Plate", 25, false),
                };
                let boost = if is_weapon {
                    self.ctx.progress.maybe_upgrade_weapon(name, value)
                } else {
                    self.ctx.progress.maybe_upgrade_armor(name, value)
                };
                match boost {
                    Some(b) => {
                        acts.push(ScriptAction::Sfx(Sfx::Chime));
                        if !self.ctx.progress.chest_collected(level_id) {
                            self.ctx.progress.record_chest(level_id);
                        }
                        texts.push(
                            boost_text(
                                name,
                                if is_weapon {
                                    "Attack"
                                } else {
                                    "Defense"
                                },
                                b,
                            ),
                        );
                        self.start_queue(texts, AfterQueue::ToField)
                    },
                    None => {
                        let mut closed_actor = self.ctx.actors[actor_index];
                        closed_actor.animation = Animation::Closed;
                        self.ctx.actors[actor_index] = closed_actor;
                        texts.push(
                            String::new().concat("Coric found a ").concat(name).concat(
                                ",\nbut doesn't need it.",
                            ),
                        );
                        self.start_queue(texts, AfterQueue::ToField)
                    },
                }
            },
        }
    }

    /// A lever: announce the turn, then flip it.
    fn talk_lever(&mut self) -> (r: ScriptStatus)
        requires
            old(self).field_base_ok(),
        ensures
            final(self).wf(),
            !(r is Quit),
    {
        let turned = self.ctx.lever_is_turned();
        let mut texts: Vec<String> = Vec::new();
        texts.push(
            String::from_str(
                if turned {
                    "Coric turns the lever to the left."
                } else {
                    "Coric turns the lever to the right."
                },
            ),
        );
        self.ctx.toggle_lever();
        self.start_queue(texts, AfterQueue::ToField)
    }

    /// The talk script the registry binds to an actor type at the current
    /// location, if any.
    fn find_talk(&self, actor_type: ActorType) -> (r: Option<TalkKind>) {
        let level_id = self.ctx.level.identifier;
        let mut i: usize = 0;
        while i < self.registry.len()
            invariant
                i <= self.registry@.len(),
            decreases self.registry@.len() - i,
        {
            if self.registry[i].level_id == level_id {
                let mut j: usize = 0;
                while j < self.registry[i].on_talk.len()
                    invariant
                        i < self.registry@.len(),
                        j <= self.registry@[i as int].on_talk@.len(),
                    decreases self.registry@[i as int].on_talk@.len() - j,
                {
                    if self.registry[i].on_talk[j].actor == actor_type {
                        return Some(self.registry[i].on_talk[j].script);
                    }
                    j = j + 1;
                }
                return None;
            }
            i = i + 1;
        }
        None
    }

    /// Dispatch a talk interaction with the actor at the given index.
    fn dispatch_talk(&mut self, actor_index: usize, acts: &mut Vec<ScriptAction>) -> (r:
        ScriptStatus)
        requires
            old(self).field_base_ok(),
            actor_index >= 1,
            actor_index < old(self).ctx.actors@.len(),
        ensures
            final(self).wf(),
            !(r is Quit),
    {
        let actor_type = self.ctx.actors[actor_index].identifier;
        match self.find_talk(actor_type) {
            Some(TalkKind::Bed) => self.talk_bed(acts),
            Some(TalkKind::Ducille) => self.talk_ducille(acts),
            Some(TalkKind::Jace) => self.talk_jace(acts),
            Some(TalkKind::Julis) => self.talk_julis(acts),
            Some(TalkKind::Matero) => self.talk_matero(acts),
            Some(TalkKind::Boss(kind)) => {
                let mut texts: Vec<String> = Vec::new();
                texts.push(Self::boss_challenge(kind));
                self.start_queue(texts, AfterQueue::StartBossBattle(kind))
            },
            None => {
                if matches!(actor_type, ActorType::Chest) {
                    self.talk_chest(actor_index, acts)
                } else if matches!(actor_type, ActorType::Lever) {
                    self.talk_lever()
                } else {
                    self.fatal("no talk script is bound to this actor here")
                }
            },
        }
    }

    /// One tick of free roaming.
    fn field_tick(&mut self, input: &Input, acts: &mut Vec<ScriptAction>) -> (r: ScriptStatus)
        requires
            input.wf(),
            old(self).wf(),
            old(self).phase is FieldWait,
        ensures
            final(self).wf(),
            !(r is Quit),
    {
        let step = self.ctx.update_walk_around_mode(input);
        note_sfx(acts, step.sfx);
        match step.event {
            None => ScriptStatus::Running,
            Some(WalkAroundEvent::DebugMenu) => {
                acts.push(ScriptAction::Sfx(Sfx::Confirm));
                self.ctx.push_debug_menu_mode();
                self.phase = EnginePhase::DebugWait;
                ScriptStatus::Running
            },
            Some(WalkAroundEvent::MainMenu) => {
                acts.push(ScriptAction::Sfx(Sfx::Confirm));
                self.ctx.push_main_menu_mode(false);
                self.phase = EnginePhase::MenuWait;
                ScriptStatus::Running
            },
            Some(WalkAroundEvent::Encounter) => {
                let reseed = 15 + self.ctx.rng.random(26) as i32;
                self.ctx.encounter_steps = reseed;
                match self.ctx.level.encounter_group {
                    Some(group) => self.wild_battle(group, acts),
                    None => ScriptStatus::Running,
                }
            },
            Some(WalkAroundEvent::TalkActor(index)) => self.dispatch_talk(index, acts),
            Some(WalkAroundEvent::TouchLevelEdge(dir)) => {
                let px_x = self.ctx.level.px_world_x + self.ctx.actors[0].grid_x * TILE_SIZE;
                let px_y = self.ctx.level.px_world_y + self.ctx.actors[0].grid_y * TILE_SIZE;
                acts.push(ScriptAction::FetchNeighbour { px_x, px_y, dir });
                self.phase = EnginePhase::LevelWait {
                    purpose: FetchPurpose::Neighbour { dir },
                };
                ScriptStatus::Running
            },
        }
    }

    /// One tick of a running battle.
    fn battle_tick(
        &mut self,
        input: &Input,
        source: BattleSource,
        acts: &mut Vec<ScriptAction>,
    ) -> (r: ScriptStatus)
        requires
            input.wf(),
            old(self).wf(),
            old(self).phase == (EnginePhase::BattleWait { source }),
        ensures
            final(self).wf(),
            !(r is Quit),
            !(final(self).phase matches EnginePhase::BattleWait { .. }) ==> final(self).ctx.actors@[0].visible,
    {
        let step = self.ctx.update_battle_mode(input);
        note_sfx(acts, step.sfx);
        match step.event {
            None => ScriptStatus::Running,
            Some(BattleEvent::Victory) => {
                self.ctx.pop_mode();
                let mut player = self.ctx.actors[0];
                player.visible = true;
                self.ctx.actors[0] = player;
                acts.push(ScriptAction::Music(self.ctx.music.play_music(None)));
                acts.push(ScriptAction::SetMusicVolume(100));
                match source {
                    BattleSource::Wild => {
                        let track = self.ctx.level.music;
                        acts.push(ScriptAction::Music(self.ctx.music.play_music(track)));
                        self.phase = EnginePhase::FieldWait;
                        ScriptStatus::Running
                    },
                    BattleSource::Boss(kind) => {
                        if !self.set_boss_actor_visible(kind, true) {
                            return self.fatal("the guardian's actor is missing from its hall");
                        }
                        let mut texts: Vec<String> = Vec::new();
                        texts.push(Self::boss_farewell(kind));
                        self.start_queue(texts, AfterQueue::BossFallen(kind))
                    },
                }
            },
            Some(BattleEvent::RanAway) => {
                self.ctx.pop_mode();
                let mut player = self.ctx.actors[0];
                player.visible = true;
                self.ctx.actors[0] = player;
                acts.push(ScriptAction::Music(self.ctx.music.play_music(None)));
                acts.push(ScriptAction::SetMusicVolume(100));
                let track = self.ctx.level.music;
                acts.push(ScriptAction::Music(self.ctx.music.play_music(track)));
                self.phase = EnginePhase::FieldWait;
                ScriptStatus::Running
            },
            Some(BattleEvent::Defeat) => {
                self.ctx.pop_mode();
                let mut player = self.ctx.actors[0];
                player.visible = true;
                self.ctx.actors[0] = player;
                acts.push(ScriptAction::Music(self.ctx.music.play_music(None)));
                acts.push(ScriptAction::SetMusicVolume(100));
                self.phase = EnginePhase::Fading {
                    left: 90,
                    total: 90,
                    to_black: true,
                    then: FadeThen::DefeatDark,
                };
                ScriptStatus::Running
            },
        }
    }

    /// One tick of the debug menu.
    fn debug_tick(&mut self, input: &Input, acts: &mut Vec<ScriptAction>) -> (r: ScriptStatus)
        requires
            input.wf(),
            old(self).wf(),
            old(self).phase is DebugWait,
        ensures
            final(self).wf(),
    {
        let step = self.ctx.update_debug_menu_mode(input);
        note_sfx(acts, step.sfx);
        let event = match step.event {
            None => {
                return ScriptStatus::Running;
            },
            Some(e) => e,
        };
        self.ctx.pop_mode();
        match event {
            DebugMenuEvent::Cancel => {
                self.phase = EnginePhase::FieldWait;
                ScriptStatus::Running
            },
            DebugMenuEvent::GainLevel => {
                self.ctx.progress.exp = 0;
                if self.ctx.progress.level < MAX_LEVEL {
                    self.ctx.progress.gain_level();
                }
                acts.push(ScriptAction::Sfx(Sfx::LevelUp));
                let msg = String::new().concat("Coric is now level ").concat(
                    u32_to_string(self.ctx.progress.level as u32).as_str(),
                ).concat("!");
                self.ctx.push_text_box_mode(&msg);
                self.phase = EnginePhase::DebugTextWait;
                ScriptStatus::Running
            },
            DebugMenuEvent::Battle(which) => {
                if which < 6 {
                    self.wild_battle(which, acts)
                } else if which == 6 || which == 7 || which == 8 {
                    let (enemy, kind) = if which == 6 {
                        (Enemy::earth_spirit(), BossKind::Earth)
                    } else if which == 7 {
                        (Enemy::water_spirit(), BossKind::Water)
                    } else {
                        (Enemy::fire_spirit(), BossKind::Fire)
                    };
                    let mut player = self.ctx.actors[0];
                    player.visible = false;
                    self.ctx.actors[0] = player;
                    self.ctx.push_battle_mode(enemy, true);
                    acts.push(ScriptAction::Music(self.ctx.music.play_music(Some(Music::Boss))));
                    self.phase = EnginePhase::BattleWait { source: BattleSource::Wild };
                    ScriptStatus::Running
                } else {
                    self.fatal("invalid battle number")
                }
            },
            DebugMenuEvent::SetWeapon(weapon) => {
                let valid = match &weapon {
                    Some(w) => 1 <= w.attack && w.attack <= crate::progress::GEAR_CAP,
                    None => true,
                };
                if valid {
                    self.ctx.progress.set_weapon(weapon);
                }
                let msg = match &self.ctx.progress.weapon {
                    Some(w) => String::new().concat("Coric's weapon is now ").concat(
                        w.name.as_str(),
                    ).concat("."),
                    None => String::from_str("Coric's weapon is now (none)."),
                };
                self.ctx.push_text_box_mode(&msg);
                self.phase = EnginePhase::DebugTextWait;
                ScriptStatus::Running
            },
            DebugMenuEvent::SetArmor(armor) => {
                let valid = match &armor {
                    Some(a) => 1 <= a.defense && a.defense <= crate::progress::GEAR_CAP,
                    None => true,
                };
                if valid {
                    self.ctx.progress.set_armor(armor);
                }
                let msg = match &self.ctx.progress.armor {
                    Some(a) => String::new().concat("Coric's armor is now ").concat(
                        a.name.as_str(),
                    ).concat("."),
                    None => String::from_str("Coric's armor is now (none)."),
                };
                self.ctx.push_text_box_mode(&msg);
                self.phase = EnginePhase::DebugTextWait;
                ScriptStatus::Running
            },
            DebugMenuEvent::GetItems => {
                self.ctx.progress.maybe_give_items(Item::Salve, 2);
                self.ctx.progress.maybe_give_items(Item::XSalve, 2);
                self.ctx.progress.maybe_give_items(Item::Tonic, 2);
                self.ctx.progress.maybe_give_items(Item::XTonic, 2);
                self.phase = EnginePhase::FieldWait;
                ScriptStatus::Running
            },
            DebugMenuEvent::LearnAllMagic => {
                self.ctx.progress.learn_magic(Magic::Heal);
                acts.push(ScriptAction::Sfx(Sfx::Chime));
                let mut texts: Vec<String> = Vec::new();
                texts.push(learned_text(Magic::Heal));
                self.start_queue(texts, AfterQueue::LearnNext(1))
            },
            DebugMenuEvent::ResetStepCounts => {
                self.ctx.progress.steps = 0;
                let msg = String::from_str("Step counts reset.");
                self.ctx.push_text_box_mode(&msg);
                self.phase = EnginePhase::DebugTextWait;
                ScriptStatus::Running
            },
            DebugMenuEvent::ChangeFlag(flag) => {
                let (name, value): (&str, bool) = if flag == 0 {
                    self.ctx.progress.earth_defeated = !self.ctx.progress.earth_defeated;
                    ("earth_defeated", self.ctx.progress.earth_defeated)
                } else if flag == 1 {
                    self.ctx.progress.water_defeated = !self.ctx.progress.water_defeated;
                    ("water_defeated", self.ctx.progress.water_defeated)
                } else {
                    self.ctx.progress.fire_defeated = !self.ctx.progress.fire_defeated;
                    ("fire_defeated", self.ctx.progress.fire_defeated)
                };
                let msg = String::new().concat(name).concat(" is now ").concat(
                    if value {
                        "true"
                    } else {
                        "false"
                    },
                ).concat(".");
                self.ctx.push_text_box_mode(&msg);
                self.phase = EnginePhase::DebugTextWait;
                ScriptStatus::Running
            },
            DebugMenuEvent::Warp(level_id, x, y) => {
                acts.push(ScriptAction::FetchLevel(level_id));
                self.phase = EnginePhase::LevelWait { purpose: FetchPurpose::Warp { x, y } };
                ScriptStatus::Running
            },
            DebugMenuEvent::Quit => {
                self.phase = EnginePhase::Halted;
                ScriptStatus::Quit
            },
        }
    }
}

/// The announcement of found gear.
fn boost_text(name: &str, stat: &str, boost: i32) -> (r: String)
    requires
        0 <= boost,
{
    String::new().concat("Coric found a ").concat(name).concat("!\n").concat(stat).concat(
        " increased by ",
    ).concat(u32_to_string(boost as u32).as_str()).concat("!")
}

impl ScriptEngine {
    /// One tick of the pause menu.
    fn menu_tick(&mut self, input: &Input, acts: &mut Vec<ScriptAction>) -> (r: ScriptStatus)
        requires
            input.wf(),
            old(self).wf(),
            old(self).phase is MenuWait,
        ensures
            final(self).wf(),
            !(r is Quit),
    {
        let step = self.ctx.update_main_menu_mode(input);
        note_sfx(acts, step.sfx);
        match step.event {
            None => ScriptStatus::Running,
            Some(MainMenuEvent::Done) => {
                self.ctx.pop_mode();
                self.phase = EnginePhase::FieldWait;
                ScriptStatus::Running
            },
            Some(MainMenuEvent::Options) => {
                self.ctx.push_options_mode(100, 100);
                self.phase = EnginePhase::OptionsWait { over_title: false };
                ScriptStatus::Running
            },
        }
    }

    /// One tick of the options screen.
    fn options_tick(&mut self, input: &Input, over_title: bool, acts: &mut Vec<ScriptAction>)
        -> (r: ScriptStatus)
        requires
            input.wf(),
            old(self).wf(),
            old(self).phase == (EnginePhase::OptionsWait { over_title }),
        ensures
            final(self).wf(),
            !(r is Quit),
    {
        let step = self.ctx.update_options_mode(input);
        note_sfx(acts, step.sfx);
        match step.event {
            None => ScriptStatus::Running,
            Some(OptionsEvent::Done) => {
                self.ctx.pop_mode();
                self.phase = if over_title {
                    EnginePhase::TitleWait
                } else {
                    EnginePhase::MenuWait
                };
                ScriptStatus::Running
            },
            Some(OptionsEvent::Credits) => {
                acts.push(ScriptAction::SetMusicVolume(40));
                self.phase = EnginePhase::Fading {
                    left: 60,
                    total: 60,
                    to_black: true,
                    then: FadeThen::CreditsDark { over_title },
                };
                ScriptStatus::Running
            },
            Some(OptionsEvent::Quit) => {
                proof {
                    reveal_strlit("Really quit?");
                    reveal_strlit("Yes");
                    reveal_strlit("No");
                }
                self.ctx.push_yes_no_prompt_mode("Really quit?", "Yes", "No", false);
                self.phase = EnginePhase::QuitPromptWait { over_title };
                ScriptStatus::Running
            },
        }
    }

    /// One tick of the credits over the options screen.
    fn credits_tick(&mut self, input: &Input, over_title: bool, acts: &mut Vec<ScriptAction>)
        -> (r: ScriptStatus)
        requires
            input.wf(),
            old(self).wf(),
            old(self).phase == (EnginePhase::CreditsWait { over_title }),
        ensures
            final(self).wf(),
            !(r is Quit),
    {
        let step = self.ctx.update_credits_mode(input);
        note_sfx(acts, step.sfx);
        match step.event {
            None => ScriptStatus::Running,
            Some(CreditsEvent::Done) => {
                self.ctx.pop_mode();
                self.phase = EnginePhase::Fading {
                    left: 60,
                    total: 60,
                    to_black: false,
                    then: FadeThen::CreditsLight { over_title },
                };
                ScriptStatus::Running
            },
        }
    }

    /// One tick of the quit prompt.
    fn quit_tick(&mut self, input: &Input, over_title: bool, acts: &mut Vec<ScriptAction>) -> (r:
        ScriptStatus)
        requires
            input.wf(),
            old(self).wf(),
            old(self).phase == (EnginePhase::QuitPromptWait { over_title }),
        ensures
            final(self).wf(),
            r is Quit ==> final(self).spec_halted(),
    {
        let step = self.ctx.update_yes_no_prompt_mode(input);
        note_sfx(acts, step.sfx);
        match step.event {
            None => ScriptStatus::Running,
            Some(YesNoPromptEvent::Yes) => {
                self.phase = EnginePhase::Halted;
                ScriptStatus::Quit
            },
            Some(YesNoPromptEvent::No) => {
                self.ctx.pop_mode();
                self.phase = EnginePhase::OptionsWait { over_title };
                ScriptStatus::Running
            },
        }
    }

    /// One tick of the save prompt at the bed.
    fn bed_save_tick(&mut self, input: &Input, acts: &mut Vec<ScriptAction>) -> (r: ScriptStatus)
        requires
            input.wf(),
            old(self).wf(),
            old(self).phase is PromptBedSave,
        ensures
            final(self).wf(),
            !(r is Quit),
    {
        let step = self.ctx.update_yes_no_prompt_mode(input);
        note_sfx(acts, step.sfx);
        match step.event {
            None => ScriptStatus::Running,
            Some(YesNoPromptEvent::Yes) => {
                self.ctx.pop_mode();
                if self.ctx.confirm_save_overwrite {
                    proof {
                        reveal_strlit("Save data exists; overwrite it?");
                        reveal_strlit("Overwrite");
                        reveal_strlit("Cancel");
                    }
                    self.ctx.push_yes_no_prompt_mode(
                        "Save data exists; overwrite it?",
                        "Overwrite",
                        "Cancel",
                        false,
                    );
                    self.phase = EnginePhase::PromptBedOverwrite;
                    ScriptStatus::Running
                } else {
                    acts.push(ScriptAction::Save);
                    self.phase = EnginePhase::SaveWait;
                    ScriptStatus::Running
                }
            },
            Some(YesNoPromptEvent::No) => {
                self.ctx.pop_mode();
                self.end_talk_transition(acts)
            },
        }
    }

    /// One tick of the overwrite prompt at the bed.
    fn bed_overwrite_tick(&mut self, input: &Input, acts: &mut Vec<ScriptAction>) -> (r:
        ScriptStatus)
        requires
            input.wf(),
            old(self).wf(),
            old(self).phase is PromptBedOverwrite,
        ensures
            final(self).wf(),
            !(r is Quit),
    {
        let step = self.ctx.update_yes_no_prompt_mode(input);
        note_sfx(acts, step.sfx);
        match step.event {
            None => ScriptStatus::Running,
            Some(YesNoPromptEvent::Yes) => {
                self.ctx.pop_mode();
                acts.push(ScriptAction::Save);
                self.phase = EnginePhase::SaveWait;
                ScriptStatus::Running
            },
            Some(YesNoPromptEvent::No) => {
                self.ctx.pop_mode();
                self.end_talk_transition(acts)
            },
        }
    }

    /// One tick of a queued run of text boxes.
    fn queue_tick(&mut self, input: &Input, acts: &mut Vec<ScriptAction>) -> (r: ScriptStatus)
        requires
            input.wf(),
            old(self).wf(),
            old(self).phase is TextQueueWait,
        ensures
            final(self).wf(),
            !(r is Quit),
            // confirming the last revealed box of a fallen guardian's
            // farewell sets that guardian's flag (or faults on corrupt data)
            (old(self).spec_queue_exhausted() && input.spec_is_pressed(GameKey::Confirm) && (old(
                self,
            ).ctx.modes.modes@.last() matches Mode::TextBox(t) && t.text.shown
                >= t.text.glyphs.len())) ==> (old(self).after_queue matches AfterQueue::BossFallen(
                kind,
            ) ==> r is Fatal || spec_boss_flag(kind, final(self).ctx.progress)),
    {
        let step = self.ctx.update_text_box_mode(input);
        note_sfx(acts, step.sfx);
        match step.event {
            None => ScriptStatus::Running,
            Some(TextBoxEvent::Done) => {
                self.ctx.pop_mode();
                if self.queue_next < self.text_queue.len() {
                    let text = self.text_queue[self.queue_next].clone();
                    self.ctx.push_text_box_mode(&text);
                    self.queue_next = self.queue_next + 1;
                    self.phase = EnginePhase::TextQueueWait;
                    ScriptStatus::Running
                } else {
                    let after = self.after_queue;
                    self.finish_after_queue(after, acts)
                }
            },
        }
    }

    /// One tick of the ending screen.
    fn ending_tick(&mut self, input: &Input, acts: &mut Vec<ScriptAction>) -> (r: ScriptStatus)
        requires
            input.wf(),
            old(self).wf(),
            old(self).phase is EndingWait,
        ensures
            final(self).wf(),
            !(r is Quit),
    {
        let step = self.ctx.update_ending_mode(input);
        note_sfx(acts, step.sfx);
        match step.event {
            None => ScriptStatus::Running,
            Some(EndingEvent::Credits) => {
                self.ctx.push_credits_mode();
                self.phase = EnginePhase::EndingCreditsWait;
                ScriptStatus::Running
            },
            Some(EndingEvent::Status) => {
                self.ctx.push_main_menu_mode(true);
                self.phase = EnginePhase::EndingStatusWait;
                ScriptStatus::Running
            },
        }
    }

    /// One tick, driven by the input and a possible reply to an earlier
    /// request.  While the engine runs, every push onto the mode stack is
    /// balanced by a pop before the phase that made it is re-entered; the
    /// well-formedness invariant carries that guarantee from tick to tick.
    pub fn step(&mut self, input: &Input, event: EngineEvent) -> (r: EngineStep)
        requires
            input.wf(),
            old(self).wf(),
        ensures
            final(self).wf(),
            // the player quits only through the quit prompt or the debug command
            r.status is Quit ==> (old(self).spec_phase() matches EnginePhase::QuitPromptWait {
                ..
            } || old(self).spec_phase() is DebugWait),
            // a valid load reply installs exactly the loaded progress
            old(self).spec_phase() is LoadWait ==> (event matches EngineEvent::LoadResult(res)
                ==> (res matches Ok(p) ==> (p.wf() ==> final(self).ctx.progress == p && !final(self).ctx.confirm_save_overwrite))),
            // confirming the last revealed line of a fallen guardian's
            // farewell sets that guardian's flag
            (event is Tick && old(self).spec_phase() is TextQueueWait && old(
                self,
            ).spec_queue_exhausted() && input.spec_is_pressed(GameKey::Confirm) && (old(
                self,
            ).ctx.modes.modes@.last() matches Mode::TextBox(t) && t.text.shown
                >= t.text.glyphs.len())) ==> (old(
                self,
            ).spec_after_queue() matches AfterQueue::BossFallen(kind) ==> r.status is Fatal
                || spec_boss_flag(kind, final(self).ctx.progress)),
            // leaving a battle always leaves the player's avatar visible
            event is Tick ==> ((old(self).spec_phase() matches EnginePhase::BattleWait { .. })
                && !(final(self).spec_phase() matches EnginePhase::BattleWait { .. }) ==> final(self).ctx.actors@[0].visible),
            // the defeat warp brings the player home, seated and restored
            old(self).spec_phase() == (EnginePhase::LevelWait { purpose: FetchPurpose::Defeat })
                ==> (event matches EngineEvent::LevelFetched(fetched) ==> (fetched matches Some(
                pair,
            ) ==> (pair.0.wf() ==> (r.status is Fatal || {
                &&& final(self).ctx.progress.hp == final(self).ctx.progress.max_hp
                &&& final(self).ctx.progress.mp == final(self).ctx.progress.max_mp
                &&& final(self).ctx.actors@[0].grid_x == 6
                &&& final(self).ctx.actors@[0].grid_y == 3
                &&& final(self).ctx.actors@[0].visible
            })))),
    {
        let mut acts: Vec<ScriptAction> = Vec::new();
        let status = match event {
            EngineEvent::Tick => self.tick(input, &mut acts),
            EngineEvent::SaveResult(result) => self.on_save_result(result, &mut acts),
            EngineEvent::LoadResult(result) => self.on_load_result(result, &mut acts),
            EngineEvent::LevelFetched(fetched) => self.on_level_fetched(fetched, &mut acts),
        };
        EngineStep { status, actions: acts }
    }

    /// Advance the active phase by one tick.
    fn tick(&mut self, input: &Input, acts: &mut Vec<ScriptAction>) -> (r: ScriptStatus)
        requires
            input.wf(),
            old(self).wf(),
        ensures
            final(self).wf(),
            r is Quit ==> (old(self).phase matches EnginePhase::QuitPromptWait { .. } || old(
                self,
            ).phase is DebugWait),
            (old(self).phase is TextQueueWait && old(self).spec_queue_exhausted()
                && input.spec_is_pressed(GameKey::Confirm) && (old(
                self,
            ).ctx.modes.modes@.last() matches Mode::TextBox(t) && t.text.shown
                >= t.text.glyphs.len())) ==> (old(self).after_queue matches AfterQueue::BossFallen(
                kind,
            ) ==> r is Fatal || spec_boss_flag(kind, final(self).ctx.progress)),
            (old(self).phase matches EnginePhase::BattleWait { .. } && !(final(self).phase matches EnginePhase::BattleWait { .. })) ==> final(self).ctx.actors@[0].visible,
    {
        let phase = self.phase;
        match phase {
            EnginePhase::TitleWait => {
                let status = self.title_tick(input, acts);
                status
            },
            EnginePhase::LoadWait => ScriptStatus::Running,
            EnginePhase::LoadErrorWait => {
                let step = self.ctx.update_text_box_mode(input);
                note_sfx(acts, step.sfx);
                match step.event {
                    None => {},
                    Some(TextBoxEvent::Done) => {
                        self.ctx.pop_mode();
                        self.phase = EnginePhase::TitleWait;
                    },
                }
                ScriptStatus::Running
            },
            EnginePhase::IntroWait => {
                let step = self.ctx.update_intro_mode(input);
                note_sfx(acts, step.sfx);
                match step.event {
                    None => {},
                    Some(IntroEvent::Done) => {
                        self.phase = EnginePhase::Fading {
                            left: 120,
                            total: 120,
                            to_black: false,
                            then: FadeThen::IntroShown,
                        };
                    },
                }
                ScriptStatus::Running
            },
            EnginePhase::AirTextWait { step } => self.air_tick(input, step, acts),
            EnginePhase::Fading { left, total, to_black, then } => self.fade_tick(
                left,
                total,
                to_black,
                then,
                acts,
            ),
            EnginePhase::Waiting { left, then } => {
                if left > 0 {
                    self.phase = EnginePhase::Waiting { left: left - 1, then };
                    ScriptStatus::Running
                } else {
                    match then {
                        WaitThen::BedRested => {
                            self.phase = EnginePhase::Fading {
                                left: 60,
                                total: 60,
                                to_black: false,
                                then: FadeThen::BedLight,
                            };
                            ScriptStatus::Running
                        },
                    }
                }
            },
            EnginePhase::IntroPan { step, left } => self.pan_tick(step, left),
            EnginePhase::IntroPanText => {
                let step = self.ctx.update_text_box_mode(input);
                note_sfx(acts, step.sfx);
                match step.event {
                    None => {},
                    Some(TextBoxEvent::Done) => {
                        self.ctx.pop_mode();
                        let track = self.ctx.level.music;
                        acts.push(ScriptAction::Music(self.ctx.music.play_music(track)));
                        self.phase = EnginePhase::FieldWait;
                    },
                }
                ScriptStatus::Running
            },
            EnginePhase::FieldWait => self.field_tick(input, acts),
            EnginePhase::TextQueueWait => self.queue_tick(input, acts),
            EnginePhase::PromptBedSave => self.bed_save_tick(input, acts),
            EnginePhase::PromptBedOverwrite => self.bed_overwrite_tick(input, acts),
            EnginePhase::SaveWait => ScriptStatus::Running,
            EnginePhase::MenuWait => self.menu_tick(input, acts),
            EnginePhase::OptionsWait { over_title } => self.options_tick(input, over_title, acts),
            EnginePhase::CreditsWait { over_title } => self.credits_tick(
                input,
                over_title,
                acts,
            ),
            EnginePhase::QuitPromptWait { over_title } => self.quit_tick(input, over_title, acts),
            EnginePhase::DebugWait => self.debug_tick(input, acts),
            EnginePhase::DebugTextWait => {
                let step = self.ctx.update_text_box_mode(input);
                note_sfx(acts, step.sfx);
                match step.event {
                    None => {},
                    Some(TextBoxEvent::Done) => {
                        self.ctx.pop_mode();
                        self.phase = EnginePhase::FieldWait;
                    },
                }
                ScriptStatus::Running
            },
            EnginePhase::BattleWait { source } => self.battle_tick(input, source, acts),
            EnginePhase::LevelWait { .. } => ScriptStatus::Running,
            EnginePhase::EndingWait => self.ending_tick(input, acts),
            EnginePhase::EndingCreditsWait => {
                let step = self.ctx.update_credits_mode(input);
                note_sfx(acts, step.sfx);
                match step.event {
                    None => {},
                    Some(CreditsEvent::Done) => {
                        self.ctx.pop_mode();
                        self.phase = EnginePhase::EndingWait;
                    },
                }
                ScriptStatus::Running
            },
            EnginePhase::EndingStatusWait => {
                let step = self.ctx.update_main_menu_mode(input);
                note_sfx(acts, step.sfx);
                match step.event {
                    None => {},
                    Some(MainMenuEvent::Done) => {
                        self.ctx.pop_mode();
                        self.phase = EnginePhase::EndingWait;
                    },
                    Some(MainMenuEvent::Options) => {},
                }
                ScriptStatus::Running
            },
            EnginePhase::Halted => ScriptStatus::Running,
        }
    }

    /// Consume the driver's reply to a save request.
    fn on_save_result(&mut self, result: Result<(), String>, acts: &mut Vec<ScriptAction>) -> (r:
        ScriptStatus)
        requires
            old(self).wf(),
        ensures
            final(self).wf(),
            !(r is Quit),
    {
        if !matches!(self.phase, EnginePhase::SaveWait) {
            return ScriptStatus::Running;
        }
        let mut texts: Vec<String> = Vec::new();
        match result {
            Ok(_) => {
                self.ctx.confirm_save_overwrite = false;
                texts.push(String::from_str("Progress has been saved."));
            },
            Err(error) => {
                texts.push(String::new().concat("Save error:\n").concat(error.as_str()));
            },
        }
        self.start_queue(texts, AfterQueue::SaveDone)
    }

    /// Consume the driver's reply to a load request.  A save that fails
    /// validation is a corrupt save: it is reported, never half-loaded.
    fn on_load_result(
        &mut self,
        result: Result<Progress, String>,
        acts: &mut Vec<ScriptAction>,
    ) -> (r: ScriptStatus)
        requires
            old(self).wf(),
        ensures
            final(self).wf(),
            !(r is Quit),
            old(self).phase is LoadWait ==> (result matches Ok(p) ==> (p.wf()
                ==> final(self).ctx.progress == p && !final(self).ctx.confirm_save_overwrite)),
    {
        if !matches!(self.phase, EnginePhase::LoadWait) {
            return ScriptStatus::Running;
        }
        match result {
            Ok(progress) => {
                if progress.check_valid() {
                    self.ctx.progress = progress;
                    self.ctx.confirm_save_overwrite = false;
                    self.play_intro = false;
                    self.phase = EnginePhase::Fading {
                        left: 30,
                        total: 30,
                        to_black: true,
                        then: FadeThen::TitleToField { intro: false },
                    };
                } else {
                    let msg = String::from_str("Load error:\nThe save data is corrupt.");
                    self.ctx.push_text_box_mode(&msg);
                    self.phase = EnginePhase::LoadErrorWait;
                }
                ScriptStatus::Running
            },
            Err(error) => {
                let msg = String::new().concat("Load error:\n").concat(error.as_str());
                self.ctx.push_text_box_mode(&msg);
                self.phase = EnginePhase::LoadErrorWait;
                ScriptStatus::Running
            },
        }
    }

    /// Consume the driver's reply to a level fetch.
    fn on_level_fetched(
        &mut self,
        fetched: Option<(Level, Vec<Actor>)>,
        acts: &mut Vec<ScriptAction>,
    ) -> (r: ScriptStatus)
        requires
            old(self).wf(),
        ensures
            final(self).wf(),
            !(r is Quit),
            // the defeat warp brings the player home, seated and restored
            (old(self).phase == (EnginePhase::LevelWait { purpose: FetchPurpose::Defeat })
                && (fetched matches Some((lvl, acts2)) && lvl.wf())) ==> (r is Fatal || {
                &&& final(self).ctx.progress.hp == final(self).ctx.progress.max_hp
                &&& final(self).ctx.progress.mp == final(self).ctx.progress.max_mp
                &&& final(self).ctx.actors@[0].grid_x == 6
                &&& final(self).ctx.actors@[0].grid_y == 3
                &&& final(self).ctx.actors@[0].visible
            }),
    {
        let purpose = match self.phase {
            EnginePhase::LevelWait { purpose } => purpose,
            _ => {
                return ScriptStatus::Running;
            },
        };
        match purpose {
            FetchPurpose::Neighbour { dir } => {
                match fetched {
                    None => {
                        self.phase = EnginePhase::FieldWait;
                        ScriptStatus::Running
                    },
                    Some((level, actors)) => {
                        if !level_ok(&level) {
                            return self.fatal("the neighbouring level data is unsound");
                        }
                        self.pending_level = Some(level);
                        self.pending_actors = actors;
                        self.phase = EnginePhase::Fading {
                            left: 16,
                            total: 16,
                            to_black: true,
                            then: FadeThen::EdgeDark { dir },
                        };
                        ScriptStatus::Running
                    },
                }
            },
            FetchPurpose::Defeat => {
                match fetched {
                    None => self.fatal("the home level is missing from the level data"),
                    Some((level, actors)) => {
                        if !level_ok(&level) {
                            return self.fatal("the home level data is unsound");
                        }
                        if !self.enter_level_at(level, actors, 6, 3, Animation::FaceSouth) {
                            return self.fatal(
                                "the home level cannot seat the player where the script expects",
                            );
                        }
                        let hp_cap = self.ctx.progress.max_hp;
                        self.ctx.progress.heal_hp(hp_cap);
                        let mp_cap = self.ctx.progress.max_mp;
                        self.ctx.progress.heal_mp(mp_cap);
                        let track = self.ctx.level.music;
                        acts.push(ScriptAction::Music(self.ctx.music.play_music(track)));
                        self.phase = EnginePhase::Fading {
                            left: 90,
                            total: 90,
                            to_black: false,
                            then: FadeThen::DefeatLight,
                        };
                        ScriptStatus::Running
                    },
                }
            },
            FetchPurpose::Warp { x, y } => {
                match fetched {
                    None => self.fatal("the warp target is missing from the level data"),
                    Some((level, actors)) => {
                        if !level_ok(&level) {
                            return self.fatal("the warp target level data is unsound");
                        }
                        if !self.enter_level_at(level, actors, x, y, Animation::FaceSouth) {
                            return self.fatal("the warp target tile lies outside the level");
                        }
                        let track = self.ctx.level.music;
                        acts.push(ScriptAction::Music(self.ctx.music.play_music(track)));
                        self.phase = EnginePhase::FieldWait;
                        ScriptStatus::Running
                    },
                }
            },
        }
    }
}

} // verus!
