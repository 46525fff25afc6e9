use vstd::prelude::*;

verus! {

/// Where a stereo sound plays.
#[derive(Debug, Clone, Copy, PartialEq, Eq, Structural)]
pub enum Channel {
    Left,
    Center,
    Right,
}

/// The game's sound effects.
#[derive(Debug, Clone, Copy, PartialEq, Eq, Structural)]
pub enum Sounds {
    BossInjured,
    BossDied,
    Bump,
    DrawerOpen,
    EnemyDeath,
    FloorRaise,
    FireballShoot,
    FireballHitsWall,
    FirebrandInjury,
    FirebrandDeath,
    PowerUp,
}

impl Sounds {
    pub open spec fn spec_path(self) -> Seq<char> {
        match self {
            Sounds::BossInjured => "res/audio/boss_injury.wav"@,
            Sounds::BossDied => "res/audio/boss_death.wav"@,
            Sounds::Bump => "res/audio/bump.wav"@,
            Sounds::DrawerOpen => "res/audio/drawer_open.wav"@,
            Sounds::EnemyDeath => "res/audio/enemy_death.wav"@,
            Sounds::FloorRaise => "res/audio/floor_raise.wav"@,
            Sounds::FireballShoot => "res/audio/fireball.wav"@,
            Sounds::FireballHitsWall => "res/audio/fireball_hit.wav"@,
            Sounds::FirebrandInjury => "res/audio/fb_injury.wav"@,
            Sounds::FirebrandDeath => "res/audio/fb_death.wav"@,
            Sounds::PowerUp => "res/audio/powerup.wav"@,
        }
    }

    /// The sound's file.
    pub fn path(&self) -> (r: &'static str)
        ensures
            r@ == self.spec_path(),
    {
        match self {
            Sounds::BossInjured => "res/audio/boss_injury.wav",
            Sounds::BossDied => "res/audio/boss_death.wav",
            Sounds::Bump => "res/audio/bump.wav",
            Sounds::DrawerOpen => "res/audio/drawer_open.wav",
            Sounds::EnemyDeath => "res/audio/enemy_death.wav",
            Sounds::FloorRaise => "res/audio/floor_raise.wav",
            Sounds::FireballShoot => "res/audio/fireball.wav",
            Sounds::FireballHitsWall => "res/audio/fireball_hit.wav",
            Sounds::FirebrandInjury => "res/audio/fb_injury.wav",
            Sounds::FirebrandDeath => "res/audio/fb_death.wav",
            Sounds::PowerUp => "res/audio/powerup.wav",
        }
    }

    /// The power up and Firebrand's death interrupt the music; other sounds play over it.
    pub fn should_pause_current_track(&self) -> (r: bool)
        ensures
            r == (*self is PowerUp || *self is FirebrandDeath),
    {
        matches!(self, Sounds::PowerUp | Sounds::FirebrandDeath)
    }
}

/// The game's music.
#[derive(Debug, Clone, Copy, PartialEq, Eq, Structural)]
pub enum Tracks {
    MainTheme,
    BossFight,
    AreaClear,
    GameOver,
}

impl Tracks {
    pub open spec fn spec_path(self) -> Seq<char> {
        match self {
            Tracks::MainTheme => "res/audio/main_theme.ogg"@,
            Tracks::BossFight => "res/audio/boss_fight.ogg"@,
            Tracks::AreaClear => "res/audio/area_clear.ogg"@,
            Tracks::GameOver => "res/audio/game_over.ogg"@,
        }
    }

    /// The track's file.
    pub fn path(&self) -> (r: &'static str)
        ensures
            r@ == self.spec_path(),
    {
        match self {
            Tracks::MainTheme => "res/audio/main_theme.ogg",
            Tracks::BossFight => "res/audio/boss_fight.ogg",
            Tracks::AreaClear => "res/audio/area_clear.ogg",
            Tracks::GameOver => "res/audio/game_over.ogg",
        }
    }

    /// Only the main theme repeats.
    pub fn loops(&self) -> (r: bool)
        ensures
            r == (*self is MainTheme),
    {
        match self {
            Tracks::MainTheme => true,
            _ => false,
        }
    }
}

/// What to do to the music's sink.
#[derive(Debug, Clone, Copy, PartialEq, Eq, Structural)]
pub enum TrackCommand {
    Pause,
    Play,
}

/// Whether a track is playing and whether the game paused it. The music also stops while an
/// interrupting sound plays.
pub struct TrackState {
    has_current_track: bool,
    current_track_explicitly_paused: bool,
}

pub struct TrackStateView {
    pub has_current_track: bool,
    pub current_track_explicitly_paused: bool,
}

impl View for TrackState {
    type V = TrackStateView;

    closed spec fn view(&self) -> TrackStateView {
        TrackStateView {
            has_current_track: self.has_current_track,
            current_track_explicitly_paused: self.current_track_explicitly_paused,
        }
    }
}

impl TrackStateView {
    pub open spec fn paused(self) -> TrackStateView {
        if self.has_current_track {
            TrackStateView { current_track_explicitly_paused: true, ..self }
        } else {
            self
        }
    }

    pub open spec fn resumed(self) -> TrackStateView {
        if self.has_current_track {
            TrackStateView { current_track_explicitly_paused: false, ..self }
        } else {
            self
        }
    }

    /// Whether the music is held, given whether interrupting sounds still play.
    pub open spec fn holds_music(self, interrupting_sounds_playing: bool) -> bool {
        self.current_track_explicitly_paused || interrupting_sounds_playing
    }
}

/// Resuming undoes pausing: a playing track that the game pauses and resumes plays on as before,
/// and while paused it stays held whatever other sounds do.
pub proof fn lemma_resume_undoes_pause(v: TrackStateView, interrupting_sounds_playing: bool)
    requires
        !v.current_track_explicitly_paused,
    ensures
        v.paused().resumed() == v,
        v.has_current_track ==> v.paused().holds_music(interrupting_sounds_playing),
{
}

impl Default for TrackState {
    fn default() -> (r: Self)
        ensures
            r@ == (TrackStateView { has_current_track: false, current_track_explicitly_paused: false }),
    {
        TrackState { has_current_track: false, current_track_explicitly_paused: false }
    }
}

impl TrackState {
    /// One frame: the music should be paused while the game paused it or an interrupting sound is
    /// still playing. Returns what to do to the track's sink, given whether it is paused now.
    pub fn update(&self, interrupting_sounds_playing: bool, track_is_paused: bool) -> (r: Option<TrackCommand>)
        ensures
            ({
                let pause = self@.holds_music(interrupting_sounds_playing);
                r == if !self@.has_current_track {
                    None
                } else if pause && !track_is_paused {
                    Some(TrackCommand::Pause)
                } else if !pause && track_is_paused {
                    Some(TrackCommand::Play)
                } else {
                    None
                }
            }),
    {
        let pause = self.current_track_explicitly_paused || interrupting_sounds_playing;
        if !self.has_current_track {
            None
        } else if pause && !track_is_paused {
            Some(TrackCommand::Pause)
        } else if !pause && track_is_paused {
            Some(TrackCommand::Play)
        } else {
            None
        }
    }

    /// A new track starts, not paused (the previous one stops).
    pub fn start_track(&mut self)
        ensures
            final(self)@ == (TrackStateView { has_current_track: true, current_track_explicitly_paused: false }),
    {
        self.has_current_track = true;
        self.current_track_explicitly_paused = false;
    }

    pub fn pause_current_track(&mut self)
        ensures
            final(self)@ == old(self)@.paused(),
    {
        if self.has_current_track {
            self.current_track_explicitly_paused = true;
        }
    }

    pub fn resume_current_track(&mut self)
        ensures
            final(self)@ == old(self)@.resumed(),
    {
        if self.has_current_track {
            self.current_track_explicitly_paused = false;
        }
    }

    pub fn current_track_is_paused(&self) -> (r: bool)
        ensures
            r == self@.current_track_explicitly_paused,
    {
        self.current_track_explicitly_paused
    }

    pub fn stop_current_track(&mut self)
        ensures
            final(self)@ == (TrackStateView { has_current_track: false, ..old(self)@ }),
    {
        self.has_current_track = false;
    }
}

} // verus!
