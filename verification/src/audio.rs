//! Music and sound-effect policy.
//!
//! Decoding and playback belong to the embedding application; this module
//! decides *what* should play.  `MusicState` tracks the current track and
//! turns each request into the one action the backend must take, so that
//! asking for the track already playing is a no-op.

use vstd::prelude::*;

verus! {

/// A music track.
#[derive(Clone, Copy, Debug, PartialEq, Eq, Structural)]
pub enum Music {
    Battle,
    Boss,
    Dungeon,
    Ending,
    Intro,
    Overworld,
    Town,
}

/// Playback volume of a track, in permille of full volume.
pub open spec fn spec_base_volume_permille(music: Music) -> int {
    match music {
        Music::Boss => 544,
        _ => 1000,
    }
}

impl Music {
    /// Playback volume of this track, in permille of full volume.
    pub fn base_volume_permille(self) -> (r: u32)
        ensures
            r == spec_base_volume_permille(self),
            1 <= r <= 1000,
    {
        match self {
            Music::Boss => 544,
            _ => 1000,
        }
    }
}

/// A sound effect.
#[derive(Clone, Copy, Debug, PartialEq, Eq, Structural)]
pub enum Sfx {
    Attack,
    Cancel,
    Chime,
    Confirm,
    Cursor,
    Heal,
    Hurt,
    LevelUp,
    Magic,
}

/// What the audio backend must do after a music request.
#[derive(Clone, Copy, Debug, PartialEq, Eq, Structural)]
pub enum MusicAction {
    /// Leave playback as it is.
    Keep,
    /// Stop and discard the playing track.
    Stop,
    /// Stop whatever plays and start this track, looped.
    Play(Music),
}

/// The track currently playing, if any.
pub struct MusicState {
    pub current: Option<Music>,
}

impl MusicState {
    /// Silence.
    pub fn new() -> (r: MusicState)
        ensures
            r.current is None,
    {
        MusicState { current: None }
    }

    /// Request a track (or none): asking for the playing track keeps it;
    /// anything else stops the old track and starts the new one.
    pub fn play_music(&mut self, request: Option<Music>) -> (action: MusicAction)
        ensures
            final(self).current == request,
            request == old(self).current ==> action == MusicAction::Keep,
            request != old(self).current ==> action == match request {
                None => MusicAction::Stop,
                Some(m) => MusicAction::Play(m),
            },
    {
        let same = match (&self.current, &request) {
            (Some(a), Some(b)) => *a == *b,
            (None, None) => true,
            _ => false,
        };
        if same {
            MusicAction::Keep
        } else {
            self.current = request;
            match request {
                None => MusicAction::Stop,
                Some(m) => MusicAction::Play(m),
            }
        }
    }
}

} // verus!
