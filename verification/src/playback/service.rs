//! The rules of playback.
//!
//! The audio device is not reached from here. The service keeps what the
//! player knows about its playlist and decides, from that and from what the
//! caller reports about the output queue, what the caller is to do with the
//! device.

use crate::controls::LoopMode;
use crate::text::{decimal_pad2, push_decimal_pad2};
use vstd::prelude::*;

verus! {

/// Whether the player is playing.
#[derive(Debug, Copy, Clone, PartialEq, Eq, Structural)]
pub enum AudioEvent {
    Play,
    Pause,
}

impl Default for AudioEvent {
    fn default() -> (r: AudioEvent)
        ensures
            r == AudioEvent::Pause,
    {
        AudioEvent::Pause
    }
}

/// A position in a track.
#[derive(Debug, Copy, Clone, PartialEq, Eq, Structural)]
pub struct Position {
    pub secs: u64,
    pub nanos: u32,
}

/// The number of seconds by which a seek moves.
pub const SEEK_STEP: u64 = 5;

/// Where a forward seek from `current` lands in a track of `length`
/// seconds: five seconds on, or at the end when less than that is left of a
/// track longer than five seconds.
pub open spec fn forward_target(current: Position, length: usize) -> Position {
    if length > SEEK_STEP && current.secs >= length - SEEK_STEP {
        Position { secs: length as u64, nanos: 0 }
    } else {
        Position { secs: (current.secs + SEEK_STEP) as u64, nanos: current.nanos }
    }
}

/// Where a backward seek from `current` lands: five seconds back, or at the
/// start.
pub open spec fn backward_target(current: Position) -> Position {
    if current.secs < SEEK_STEP {
        Position { secs: 0, nanos: 0 }
    } else {
        Position { secs: (current.secs - SEEK_STEP) as u64, nanos: current.nanos }
    }
}

/// A duration of `total_secs` seconds as minutes and seconds, each with at
/// least two digits.
pub open spec fn duration_text(total_secs: u64) -> Seq<char> {
    decimal_pad2((total_secs / 60) as nat) + seq![':'] + decimal_pad2((total_secs % 60) as nat)
}

/// Formats a duration for the progress bar.
pub fn format_duration(total_secs: u64) -> (r: String)
    ensures
        r@ == duration_text(total_secs),
{
    let minutes = total_secs / 60;
    let seconds = total_secs % 60;
    let mut out = String::new();
    push_decimal_pad2(&mut out, minutes);
    out.push(':');
    push_decimal_pad2(&mut out, seconds);
    out
}

/// What the caller is to do with the output queue.
#[derive(Debug, PartialEq, Eq)]
pub enum SinkCommand {
    /// Leave the queue as it is.
    Keep,
    /// Queue the file.
    Append(String),
    /// Stop the output, open a fresh queue and queue the file.
    Restart(String),
}

/// The mathematical value of a [`SinkCommand`].
pub enum SinkCommandView {
    Keep,
    Append(Seq<char>),
    Restart(Seq<char>),
}

impl View for SinkCommand {
    type V = SinkCommandView;

    open spec fn view(&self) -> SinkCommandView {
        match self {
            SinkCommand::Keep => SinkCommandView::Keep,
            SinkCommand::Append(file) => SinkCommandView::Append(file@),
            SinkCommand::Restart(file) => SinkCommandView::Restart(file@),
        }
    }
}

/// What the player knows about its playlist.
#[derive(Debug)]
pub struct AudioService {
    pub audio_event: AudioEvent,
    /// The length of the current track in seconds.
    pub length: usize,
    pub current_audio: Option<String>,
    pub current_playlist_index: usize,
    pub playlist: Vec<String>,
    pub loop_mode: LoopMode,
}

/// The mathematical value of an [`AudioService`].
pub struct AudioServiceView {
    pub audio_event: AudioEvent,
    pub length: usize,
    pub current_audio: Option<Seq<char>>,
    pub current_playlist_index: usize,
    pub playlist: Seq<Seq<char>>,
    pub loop_mode: LoopMode,
}

impl View for AudioService {
    type V = AudioServiceView;

    open spec fn view(&self) -> AudioServiceView {
        AudioServiceView {
            audio_event: self.audio_event,
            length: self.length,
            current_audio: match self.current_audio {
                Some(file) => Some(file@),
                None => None,
            },
            current_playlist_index: self.current_playlist_index,
            playlist: Seq::new(self.playlist@.len(), |i: int| self.playlist@[i]@),
            loop_mode: self.loop_mode,
        }
    }
}

impl AudioServiceView {
    /// The selected track is one of the playlist, unless the playlist is empty.
    pub open spec fn selects_a_track(self) -> bool {
        self.playlist.len() > 0 ==> self.current_playlist_index < self.playlist.len()
    }

    /// The state with `file` as the current track.
    pub open spec fn playing(self, file: Seq<char>) -> AudioServiceView {
        AudioServiceView { current_audio: Some(file), ..self }
    }

    /// The state after the selection changed under a running track: `file`
    /// is the current track and the player plays.
    pub open spec fn switched_to(self, file: Seq<char>) -> AudioServiceView {
        AudioServiceView { current_audio: Some(file), audio_event: AudioEvent::Play, ..self }
    }
}

/// The initial state: paused, nothing selected, an empty playlist.
pub open spec fn initial_service() -> AudioServiceView {
    AudioServiceView {
        audio_event: AudioEvent::Pause,
        length: 1,
        current_audio: None,
        current_playlist_index: 0,
        playlist: Seq::empty(),
        loop_mode: LoopMode::Single,
    }
}

/// The rule of repeating one track. With `queued` sources in the output
/// queue: a selection that differs from the current track restarts the
/// output with the selection; an empty queue gets the current track again;
/// the first track of all is queued.
pub open spec fn single_step(state: AudioServiceView, queued: usize) -> (AudioServiceView, SinkCommandView) {
    if state.playlist.len() == 0 {
        (state, SinkCommandView::Keep)
    } else {
        let selected = state.playlist[state.current_playlist_index as int];
        match state.current_audio {
            Some(current) => if selected != current {
                (state.switched_to(selected), SinkCommandView::Restart(selected))
            } else if queued < 1 {
                (state, SinkCommandView::Append(selected))
            } else {
                (state, SinkCommandView::Keep)
            },
            None => (state.playing(selected), SinkCommandView::Append(selected)),
        }
    }
}

/// The track that follows `current` in a playlist of `len` tracks.
///
/// In playlist mode it is the next one, and the first after the last. In
/// shuffle mode it is another track than `current`, picked by `draw`, a
/// number below `len - 1`: the tracks but the current one are counted from
/// 0. A playlist of one track has no other track. Single mode stays.
pub open spec fn next_index(mode: LoopMode, current: usize, len: usize, draw: usize) -> usize {
    match mode {
        LoopMode::Single => current,
        LoopMode::Playlist => if current + 1 == len {
            0
        } else {
            (current + 1) as usize
        },
        LoopMode::Shuffle => if len < 2 {
            current
        } else if draw < current {
            draw
        } else {
            (draw + 1) as usize
        },
    }
}

/// The rule of going through the playlist. An empty output queue moves the
/// selection on and queues the track it lands on; the caller is told the
/// new selection. A selection that differs from the current track restarts
/// the output with the selection.
pub open spec fn playlist_step(state: AudioServiceView, queued: usize, draw: usize) -> (
    AudioServiceView,
    SinkCommandView,
    Option<usize>,
) {
    if state.playlist.len() == 0 {
        (state, SinkCommandView::Keep, None)
    } else if queued < 1 {
        let index = next_index(
            state.loop_mode,
            state.current_playlist_index,
            state.playlist.len() as usize,
            draw,
        );
        let selected = state.playlist[index as int];
        (
            AudioServiceView { current_playlist_index: index, ..state }.playing(selected),
            SinkCommandView::Append(selected),
            Some(index),
        )
    } else {
        let selected = state.playlist[state.current_playlist_index as int];
        match state.current_audio {
            Some(current) => if selected != current {
                (state.switched_to(selected), SinkCommandView::Restart(selected), None)
            } else {
                (state, SinkCommandView::Keep, None)
            },
            None => (state, SinkCommandView::Keep, None),
        }
    }
}

/// The track after `current` is a track of the playlist, and in shuffle
/// mode another one than `current` where there is another one.
pub proof fn lemma_next_index_in_playlist(mode: LoopMode, current: usize, len: usize, draw: usize)
    requires
        current < len,
        len >= 2 ==> draw < len - 1,
    ensures
        next_index(mode, current, len, draw) < len,
        mode == LoopMode::Shuffle && len >= 2 ==> next_index(mode, current, len, draw) != current,
        mode == LoopMode::Single ==> next_index(mode, current, len, draw) == current,
{
}

/// In shuffle mode every other track can be reached, each by one draw.
pub proof fn lemma_shuffle_reaches_every_other_track(current: usize, len: usize, target: usize)
    requires
        current < len,
        target < len,
        target != current,
    ensures
        exists|draw: usize| draw < len - 1 && next_index(LoopMode::Shuffle, current, len, draw) == target,
{
    let draw: usize = if target < current {
        target
    } else {
        (target - 1) as usize
    };
    assert(draw < len - 1 && next_index(LoopMode::Shuffle, current, len, draw) == target);
}

/// `rand::rng` and `Rng::random_range` with the range `0..bound`: a number
/// below `bound`. Which one is up to chance. An empty range makes the
/// generator panic, which `requires` leaves out.
#[verifier::external_body]
fn random_below(bound: usize) -> (r: usize)
    requires
        bound > 0,
    ensures
        r < bound,
{
    rand::Rng::random_range(&mut rand::rng(), 0..bound)
}

impl AudioService {
    /// A paused service with an empty playlist.
    pub fn new() -> (r: AudioService)
        ensures
            r@ == initial_service(),
    {
        let service = AudioService {
            audio_event: AudioEvent::default(),
            length: 1,
            current_audio: None,
            current_playlist_index: 0,
            playlist: Vec::new(),
            loop_mode: LoopMode::Single,
        };
        assert(service@.playlist == Seq::<Seq<char>>::empty());
        service
    }

    fn selected(&self) -> (r: String)
        requires
            self.current_playlist_index < self.playlist.len(),
        ensures
            r@ == self@.playlist[self.current_playlist_index as int],
    {
        self.playlist[self.current_playlist_index].clone()
    }

    fn differs_from_current(&self, file: &String) -> (r: bool)
        ensures
            r == (self@.current_audio matches Some(current) && current != file@),
    {
        match &self.current_audio {
            Some(current) => !(*current == *file),
            None => false,
        }
    }

    /// One tick in single mode.
    pub fn single_mode(&mut self, queued: usize) -> (r: SinkCommand)
        requires
            old(self)@.selects_a_track(),
        ensures
            (final(self)@, r@) == single_step(old(self)@, queued),
    {
        if self.playlist.is_empty() {
            return SinkCommand::Keep;
        }
        let file = self.selected();
        if self.current_audio.is_none() {
            self.current_audio = Some(file.clone());
            SinkCommand::Append(file)
        } else if self.differs_from_current(&file) {
            self.current_audio = Some(file.clone());
            self.audio_event = AudioEvent::Play;
            SinkCommand::Restart(file)
        } else if queued < 1 {
            SinkCommand::Append(file)
        } else {
            SinkCommand::Keep
        }
    }

    /// One tick in playlist or shuffle mode, with the draw that shuffle
    /// mode uses.
    pub fn playlist_mode_with(&mut self, queued: usize, draw: usize) -> (r: (SinkCommand, Option<usize>))
        requires
            old(self)@.selects_a_track(),
            old(self).playlist@.len() >= 2 ==> draw < old(self).playlist@.len() - 1,
        ensures
            (final(self)@, r.0@, r.1) == playlist_step(old(self)@, queued, draw),
            final(self)@.selects_a_track(),
    {
        if self.playlist.is_empty() {
            return (SinkCommand::Keep, None);
        }
        if queued < 1 {
            self.change_track_index_with(draw);
            let file = self.selected();
            self.current_audio = Some(file.clone());
            (SinkCommand::Append(file), Some(self.current_playlist_index))
        } else {
            let file = self.selected();
            if self.differs_from_current(&file) {
                self.current_audio = Some(file.clone());
                self.audio_event = AudioEvent::Play;
                (SinkCommand::Restart(file), None)
            } else {
                (SinkCommand::Keep, None)
            }
        }
    }

    /// One tick in playlist or shuffle mode. Shuffle mode draws the next
    /// track at random.
    pub fn playlist_mode(&mut self, queued: usize) -> (r: (SinkCommand, Option<usize>))
        requires
            old(self)@.selects_a_track(),
        ensures
            exists|draw: usize|
                (old(self).playlist@.len() >= 2 ==> draw < old(self).playlist@.len() - 1) && (
                final(self)@,
                r.0@,
                r.1,
            ) == #[trigger] playlist_step(old(self)@, queued, draw),
            final(self)@.selects_a_track(),
    {
        let draw = self.draw();
        let ghost before = self@;
        let r = self.playlist_mode_with(queued, draw);
        assert((self@, r.0@, r.1) == playlist_step(before, queued, draw));
        r
    }

    /// The draw for the next tick: a number below the count of the other
    /// tracks, picked at random, and 0 where there is no other track.
    fn draw(&self) -> (r: usize)
        ensures
            self.playlist@.len() >= 2 ==> r < self.playlist@.len() - 1,
            self.playlist@.len() < 2 ==> r == 0,
    {
        if self.playlist.len() >= 2 {
            random_below(self.playlist.len() - 1)
        } else {
            0
        }
    }

    /// Moves the selection on by the rule of the loop mode, with the draw
    /// that shuffle mode uses.
    pub fn change_track_index_with(&mut self, draw: usize)
        requires
            old(self).current_playlist_index < old(self).playlist@.len(),
            old(self).playlist@.len() >= 2 ==> draw < old(self).playlist@.len() - 1,
        ensures
            final(self)@ == (AudioServiceView {
                current_playlist_index: next_index(
                    old(self).loop_mode,
                    old(self).current_playlist_index,
                    old(self).playlist@.len() as usize,
                    draw,
                ),
                ..old(self)@
            }),
            final(self).current_playlist_index < final(self).playlist@.len(),
    {
        let len = self.playlist.len();
        match self.loop_mode {
            LoopMode::Single => {},
            LoopMode::Playlist => {
                if self.current_playlist_index == len - 1 {
                    self.current_playlist_index = 0;
                } else {
                    self.current_playlist_index += 1;
                }
            },
            LoopMode::Shuffle => {
                if len >= 2 {
                    self.current_playlist_index = if draw < self.current_playlist_index {
                        draw
                    } else {
                        draw + 1
                    };
                }
            },
        }
    }

    /// Moves the selection on by the rule of the loop mode. Shuffle mode
    /// draws at random.
    pub fn change_track_index(&mut self)
        requires
            old(self).current_playlist_index < old(self).playlist@.len(),
        ensures
            exists|draw: usize|
                (old(self).playlist@.len() >= 2 ==> draw < old(self).playlist@.len() - 1) && final(self)@ == (
                AudioServiceView {
                    current_playlist_index: #[trigger] next_index(
                        old(self).loop_mode,
                        old(self).current_playlist_index,
                        old(self).playlist@.len() as usize,
                        draw,
                    ),
                    ..old(self)@
                }),
            final(self).current_playlist_index < final(self).playlist@.len(),
    {
        let draw = self.draw();
        self.change_track_index_with(draw);
    }

    /// Where a forward seek from `current` lands.
    pub fn seek_forward(&self, current: Position) -> (r: Position)
        requires
            current.secs <= u64::MAX - SEEK_STEP,
        ensures
            r == forward_target(current, self.length),
    {
        if self.length > 5 && current.secs >= (self.length - 5) as u64 {
            Position { secs: self.length as u64, nanos: 0 }
        } else {
            Position { secs: current.secs + 5, nanos: current.nanos }
        }
    }

    /// Where a backward seek from `current` lands.
    pub fn seek_backward(&self, current: Position) -> (r: Position)
        ensures
            r == backward_target(current),
    {
        if current.secs < 5 {
            Position { secs: 0, nanos: 0 }
        } else {
            Position { secs: current.secs - 5, nanos: current.nanos }
        }
    }

    /// The position to show for the output's position `position_secs`: the
    /// seconds into the current round of the track.
    pub fn get_current_position(&self, position_secs: u64) -> (r: u64)
        requires
            self.length > 0,
        ensures
            r == position_secs % (self.length as u64),
    {
        position_secs % (self.length as u64)
    }
}

} // verus!
