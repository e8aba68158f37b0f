//! The state behind the player's control bar.

use vstd::prelude::*;
use vstd::std_specs::cmp::PartialEqSpecImpl;

verus! {

/// What the player does when a track ends.
#[derive(Debug, Copy, Clone, PartialEq, Eq, Structural)]
pub enum LoopMode {
    /// Repeat the current track.
    Single,
    /// Go through the playlist in order, again and again.
    Playlist,
    /// Jump to another track of the playlist at random.
    Shuffle,
}

impl LoopMode {
    /// The mode that follows in the cycle Single, Playlist, Shuffle.
    pub open spec fn successor(self) -> LoopMode {
        match self {
            LoopMode::Single => LoopMode::Playlist,
            LoopMode::Playlist => LoopMode::Shuffle,
            LoopMode::Shuffle => LoopMode::Single,
        }
    }

    /// The button label of the mode.
    pub open spec fn label(self) -> Seq<char> {
        match self {
            LoopMode::Single => "🔂"@,
            LoopMode::Playlist => "🔁"@,
            LoopMode::Shuffle => "🔀"@,
        }
    }

    pub fn next(&self) -> (r: LoopMode)
        ensures
            r == self.successor(),
    {
        match self {
            LoopMode::Single => LoopMode::Playlist,
            LoopMode::Playlist => LoopMode::Shuffle,
            LoopMode::Shuffle => LoopMode::Single,
        }
    }

    pub fn text(&self) -> (r: &'static str)
        ensures
            r@ == self.label(),
    {
        match self {
            LoopMode::Single => "🔂",
            LoopMode::Playlist => "🔁",
            LoopMode::Shuffle => "🔀",
        }
    }
}

/// Three presses of the mode button come back to the mode they started from.
pub proof fn lemma_loop_mode_cycle(mode: LoopMode)
    ensures
        mode.successor().successor().successor() == mode,
        mode.successor() != mode,
{
}

/// The last change of the volume, shown until it has been on display for a
/// moment.
#[derive(Debug, Copy, Clone)]
pub enum Volume {
    Up,
    Down,
    Normal,
}

impl PartialEq for Volume {
    fn eq(&self, other: &Self) -> (r: bool) {
        match (self, other) {
            (Volume::Up, Volume::Up) => true,
            (Volume::Down, Volume::Down) => true,
            (Volume::Normal, Volume::Normal) => true,
            _ => false,
        }
    }
}

impl PartialEqSpecImpl for Volume {
    open spec fn obeys_eq_spec() -> bool {
        true
    }

    open spec fn eq_spec(&self, other: &Self) -> bool {
        *self == *other
    }
}

impl Volume {
    /// The button label of the state.
    pub open spec fn label(self) -> Seq<char> {
        match self {
            Volume::Down => "⬇️"@,
            Volume::Up => "⬆️"@,
            Volume::Normal => "🔉"@,
        }
    }

    pub fn up(&self) -> (r: Volume)
        ensures
            r == Volume::Up,
    {
        Volume::Up
    }

    pub fn down(&self) -> (r: Volume)
        ensures
            r == Volume::Down,
    {
        Volume::Down
    }

    pub fn normal(&self) -> (r: Volume)
        ensures
            r == Volume::Normal,
    {
        Volume::Normal
    }

    pub fn text(&self) -> (r: &'static str)
        ensures
            r@ == self.label(),
    {
        match self {
            Volume::Down => "⬇️",
            Volume::Up => "⬆️",
            Volume::Normal => "🔉",
        }
    }
}

/// Whether the sound is muted.
#[derive(Debug, Copy, Clone)]
pub enum MuteSound {
    On,
    Off,
}

impl PartialEq for MuteSound {
    fn eq(&self, other: &Self) -> (r: bool) {
        match (self, other) {
            (MuteSound::Off, MuteSound::Off) => true,
            (MuteSound::On, MuteSound::On) => true,
            _ => false,
        }
    }
}

impl PartialEqSpecImpl for MuteSound {
    open spec fn obeys_eq_spec() -> bool {
        true
    }

    open spec fn eq_spec(&self, other: &Self) -> bool {
        *self == *other
    }
}

impl MuteSound {
    /// The button label of the state.
    pub open spec fn label(self) -> Seq<char> {
        match self {
            MuteSound::On => "🔇"@,
            MuteSound::Off => "🔉"@,
        }
    }

    pub fn on(&self) -> (r: MuteSound)
        ensures
            r == MuteSound::On,
    {
        MuteSound::On
    }

    pub fn off(&self) -> (r: MuteSound)
        ensures
            r == MuteSound::Off,
    {
        MuteSound::Off
    }

    pub fn text(&self) -> (r: &'static str)
        ensures
            r@ == self.label(),
    {
        match self {
            MuteSound::On => "🔇",
            MuteSound::Off => "🔉",
        }
    }
}

/// What a background task tells the interface.
#[derive(Debug, Copy, Clone, PartialEq, Eq, Structural)]
pub enum SignalMessage {
    /// A download has ended well: the library changed.
    Downloaded,
    /// The player moved to the track with this index.
    UpdateIndex(usize),
}

} // verus!
